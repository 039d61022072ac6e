//! Word tokens and the discipline that joins them with single spaces.
//!
//! The output of the converter is a flat sequence of word tokens. A token is
//! appended to the accumulated text with a separating space only when both
//! sides are nonempty, so empty tokens vanish without leaving stray spaces.

use vstd::prelude::*;
use vstd::string::StringExecFns;

verus! {

/// The single space that separates two adjacent tokens.
pub open spec fn one_space() -> Seq<char> {
    seq![' ']
}

/// The text after appending `word` to `acc`: a separating space goes in
/// exactly when both sides are nonempty.
pub open spec fn spec_append(acc: Seq<char>, word: Seq<char>) -> Seq<char> {
    if acc.len() == 0 {
        word
    } else if word.len() == 0 {
        acc
    } else {
        acc + one_space() + word
    }
}

/// The join of a list of tokens, left to right, starting from empty text.
pub open spec fn join_tokens(tokens: Seq<Seq<char>>) -> Seq<char>
    decreases tokens.len(),
{
    if tokens.len() == 0 {
        Seq::empty()
    } else {
        spec_append(tokens.first(), join_tokens(tokens.drop_first()))
    }
}

/// The text after appending every token of `tokens` to `acc` in order, one
/// `spec_append` at a time, exactly as the executable code fills its buffer.
pub open spec fn append_all(acc: Seq<char>, tokens: Seq<Seq<char>>) -> Seq<char>
    decreases tokens.len(),
{
    if tokens.len() == 0 {
        acc
    } else {
        append_all(spec_append(acc, tokens.first()), tokens.drop_first())
    }
}

/// A well-formed token: nonempty, no space at either end, and no two
/// consecutive spaces inside.
pub open spec fn token_ok(s: Seq<char>) -> bool {
    &&& s.len() > 0
    &&& s.first() != ' '
    &&& s.last() != ' '
    &&& forall|i: int| 0 <= i < s.len() - 1 ==> !((#[trigger] s[i]) == ' ' && s[i + 1] == ' ')
}

/// Text free of stray spaces: empty, or itself a well-formed token.
pub open spec fn well_spaced(s: Seq<char>) -> bool {
    s.len() == 0 || token_ok(s)
}

/// Every token of the list is well formed.
pub open spec fn all_tokens_ok(tokens: Seq<Seq<char>>) -> bool {
    forall|i: int| 0 <= i < tokens.len() ==> token_ok(#[trigger] tokens[i])
}

/// Appends `word` to `buffer`, inserting a single separating space only when
/// both the buffer and the word are nonempty.
pub(crate) fn append(word: &str, buffer: &mut String)
    ensures
        final(buffer)@ == spec_append(old(buffer)@, word@),
{
    let ghost pre = buffer@;
    if !buffer.as_str().is_empty() && !word.is_empty() {
        buffer.append(" ");
        proof {
            reveal_strlit(" ");
            assert(buffer@ =~= pre + one_space());
        }
    }
    buffer.append(word);
    proof {
        if pre.len() == 0 {
            assert(buffer@ =~= word@);
        } else if word@.len() == 0 {
            assert(buffer@ =~= pre);
        } else {
            assert(buffer@ =~= pre + one_space() + word@);
        }
    }
}

/// An empty token appended on the right changes nothing.
pub proof fn lemma_append_empty_right(acc: Seq<char>)
    ensures
        spec_append(acc, Seq::empty()) == acc,
{
    if acc.len() == 0 {
        assert(acc =~= Seq::<char>::empty());
    }
}

/// `spec_append` is associative.
pub proof fn lemma_append_assoc(a: Seq<char>, b: Seq<char>, c: Seq<char>)
    ensures
        spec_append(spec_append(a, b), c) == spec_append(a, spec_append(b, c)),
{
    if a.len() != 0 && b.len() != 0 && c.len() != 0 {
        assert((a + one_space() + b) + one_space() + c =~= a + one_space() + (
        b + one_space() + c));
    }
}

/// Folding a token list into an accumulator appends the list's join.
pub proof fn lemma_append_all_is_join(acc: Seq<char>, tokens: Seq<Seq<char>>)
    ensures
        append_all(acc, tokens) == spec_append(acc, join_tokens(tokens)),
    decreases tokens.len(),
{
    if tokens.len() == 0 {
        lemma_append_empty_right(acc);
    } else {
        lemma_append_all_is_join(spec_append(acc, tokens.first()), tokens.drop_first());
        lemma_append_assoc(acc, tokens.first(), join_tokens(tokens.drop_first()));
    }
}

/// The join of a single token is that token.
pub proof fn lemma_join_one(t: Seq<char>)
    ensures
        join_tokens(seq![t]) == t,
{
    assert(seq![t].drop_first() =~= Seq::<Seq<char>>::empty());
    assert(join_tokens(Seq::<Seq<char>>::empty()) == Seq::<char>::empty());
    lemma_append_empty_right(t);
}

/// Folding a single token is one `spec_append`.
pub proof fn lemma_append_all_one(acc: Seq<char>, t: Seq<char>)
    ensures
        append_all(acc, seq![t]) == spec_append(acc, t),
{
    lemma_append_all_is_join(acc, seq![t]);
    lemma_join_one(t);
}

/// Join distributes over concatenation of token lists.
pub proof fn lemma_join_concat(xs: Seq<Seq<char>>, ys: Seq<Seq<char>>)
    ensures
        join_tokens(xs + ys) == spec_append(join_tokens(xs), join_tokens(ys)),
    decreases xs.len(),
{
    if xs.len() == 0 {
        assert(xs + ys =~= ys);
    } else {
        assert((xs + ys).drop_first() =~= xs.drop_first() + ys);
        assert((xs + ys).first() == xs.first());
        lemma_join_concat(xs.drop_first(), ys);
        lemma_append_assoc(xs.first(), join_tokens(xs.drop_first()), join_tokens(ys));
    }
}

/// Folding a concatenation of token lists folds them one after the other.
pub proof fn lemma_append_all_concat(acc: Seq<char>, xs: Seq<Seq<char>>, ys: Seq<Seq<char>>)
    ensures
        append_all(acc, xs + ys) == append_all(append_all(acc, xs), ys),
{
    lemma_append_all_is_join(acc, xs + ys);
    lemma_append_all_is_join(acc, xs);
    lemma_append_all_is_join(append_all(acc, xs), ys);
    lemma_join_concat(xs, ys);
    lemma_append_assoc(acc, join_tokens(xs), join_tokens(ys));
}

/// Appending one well-formed token to another yields a well-formed token.
pub proof fn lemma_append_token_ok(a: Seq<char>, b: Seq<char>)
    requires
        token_ok(a),
        token_ok(b),
    ensures
        token_ok(spec_append(a, b)),
{
    let s = spec_append(a, b);
    assert(s == a + one_space() + b);
    assert(s.len() == a.len() + 1 + b.len());
    assert(s.first() == a.first());
    assert(s.last() == b.last());
    assert forall|i: int| 0 <= i < s.len() - 1 implies !((#[trigger] s[i]) == ' ' && s[i + 1]
        == ' ') by {
        if i < a.len() - 1 {
            assert(s[i] == a[i]);
            assert(s[i + 1] == a[i + 1]);
        } else if i == a.len() - 1 {
            assert(s[i] == a.last());
        } else if i == a.len() {
            assert(s[i + 1] == b[0]);
        } else {
            assert(s[i] == b[i - a.len() - 1]);
            assert(s[i + 1] == b[i - a.len()]);
        }
    };
}

/// A well-formed token list stays well formed under concatenation.
pub proof fn lemma_all_tokens_ok_concat(xs: Seq<Seq<char>>, ys: Seq<Seq<char>>)
    requires
        all_tokens_ok(xs),
        all_tokens_ok(ys),
    ensures
        all_tokens_ok(xs + ys),
{
    assert forall|i: int| 0 <= i < (xs + ys).len() implies token_ok(#[trigger] (xs + ys)[i]) by {
        if i < xs.len() {
            assert((xs + ys)[i] == xs[i]);
        } else {
            assert((xs + ys)[i] == ys[i - xs.len()]);
        }
    };
}

/// The join of a list of well-formed tokens is empty for the empty list and
/// itself a well-formed token otherwise.
pub proof fn lemma_join_tokens_ok(tokens: Seq<Seq<char>>)
    requires
        all_tokens_ok(tokens),
    ensures
        tokens.len() == 0 ==> join_tokens(tokens) == Seq::<char>::empty(),
        tokens.len() > 0 ==> token_ok(join_tokens(tokens)),
    decreases tokens.len(),
{
    if tokens.len() > 0 {
        assert forall|i: int| 0 <= i < tokens.drop_first().len() implies token_ok(
            #[trigger] tokens.drop_first()[i],
        ) by {
            assert(tokens.drop_first()[i] == tokens[i + 1]);
        }
        lemma_join_tokens_ok(tokens.drop_first());
        if tokens.len() == 1 {
            lemma_append_empty_right(tokens.first());
        } else {
            lemma_append_token_ok(tokens.first(), join_tokens(tokens.drop_first()));
        }
    }
}

} // verus!

//! Rendering one three-digit group of the magnitude. A group `g` in [0, 999]
//! at a given scale contributes: the hundreds word when the hundreds digit is
//! nonzero; then, for the low two digits, either the bare scale suffix (low
//! digits zero but hundreds present), a single declined scale phrase (low
//! digits in [1, 19]), or a tens word followed by the bare suffix or a
//! declined scale phrase. A group of exactly zero contributes nothing.

use vstd::prelude::*;

use crate::spacing::{
    all_tokens_ok, append, append_all, lemma_append_all_concat, lemma_append_all_one,
    lemma_append_empty_right, spec_append,
};
use crate::words::{
    hundreds_word, lemma_hundreds_word_ok, lemma_scale_phrase_ok, lemma_scale_suffix_ok,
    lemma_tens_word_ok, scale_phrase, scale_suffix, spec_hundreds_word, spec_scale_phrase,
    spec_scale_suffix, spec_tens_word, suffix_tokens, tens_word, Scale,
};

verus! {

/// The tokens contributed by the group `g` at the given scale.
pub open spec fn group_tokens(g: int, scale: Scale) -> Seq<Seq<char>> {
    let h = g / 100;
    let rem = g % 100;
    let head = if h != 0 {
        seq![spec_hundreds_word(h)]
    } else {
        Seq::<Seq<char>>::empty()
    };
    let tail = if rem == 0 {
        if h != 0 {
            suffix_tokens(scale)
        } else {
            Seq::<Seq<char>>::empty()
        }
    } else if rem <= 19 {
        seq![spec_scale_phrase(scale, rem)]
    } else {
        seq![spec_tens_word(rem / 10)] + if rem % 10 == 0 {
            suffix_tokens(scale)
        } else {
            seq![spec_scale_phrase(scale, rem % 10)]
        }
    };
    head + tail
}

/// Folding the suffix tokens of a scale is one append of its bare suffix:
/// at the units scale both sides change nothing.
proof fn lemma_append_all_suffix(acc: Seq<char>, scale: Scale)
    ensures
        append_all(acc, suffix_tokens(scale)) == spec_append(acc, spec_scale_suffix(scale)),
{
    match scale {
        Scale::Units => {
            lemma_append_empty_right(acc);
        },
        _ => {
            lemma_append_all_one(acc, spec_scale_suffix(scale));
        },
    }
}

/// Appends the rendering of the group `g` at the given scale to `buffer`.
pub(crate) fn translate(group: u64, buffer: &mut String, scale: Scale)
    requires
        group < 1000,
    ensures
        final(buffer)@ == append_all(old(buffer)@, group_tokens(group as int, scale)),
{
    let ghost pre = buffer@;
    let ghost g = group as int;
    let ghost h = g / 100;
    let ghost rem = g % 100;
    let ghost head: Seq<Seq<char>> = if h != 0 {
        seq![spec_hundreds_word(h)]
    } else {
        Seq::<Seq<char>>::empty()
    };

    let third_digit = group / 100;
    if third_digit != 0 {
        append(hundreds_word(third_digit), buffer);
    }
    proof {
        if h != 0 {
            lemma_append_all_one(pre, spec_hundreds_word(h));
        }
        assert(buffer@ == append_all(pre, head));
    }
    let ghost mid = buffer@;

    let one_to_ninety_nine = group % 100;
    if one_to_ninety_nine == 0 {
        if third_digit != 0 {
            append(scale_suffix(scale), buffer);
            proof {
                lemma_append_all_suffix(mid, scale);
                assert(buffer@ == append_all(mid, suffix_tokens(scale)));
            }
        }
    } else if one_to_ninety_nine <= 19 {
        append(scale_phrase(scale, one_to_ninety_nine), buffer);
        proof {
            lemma_append_all_one(mid, spec_scale_phrase(scale, rem));
        }
    } else {
        let second_digit = one_to_ninety_nine / 10;
        append(tens_word(second_digit), buffer);
        proof {
            lemma_append_all_one(mid, spec_tens_word(rem / 10));
        }
        let ghost with_tens = buffer@;
        let first_digit = one_to_ninety_nine % 10;
        if first_digit == 0 {
            append(scale_suffix(scale), buffer);
            proof {
                lemma_append_all_suffix(with_tens, scale);
                lemma_append_all_concat(mid, seq![spec_tens_word(rem / 10)], suffix_tokens(scale));
            }
        } else {
            append(scale_phrase(scale, first_digit), buffer);
            proof {
                lemma_append_all_one(with_tens, spec_scale_phrase(scale, rem % 10));
                lemma_append_all_concat(
                    mid,
                    seq![spec_tens_word(rem / 10)],
                    seq![spec_scale_phrase(scale, rem % 10)],
                );
            }
        }
    }
    proof {
        let tail = if rem == 0 {
            if h != 0 {
                suffix_tokens(scale)
            } else {
                Seq::<Seq<char>>::empty()
            }
        } else if rem <= 19 {
            seq![spec_scale_phrase(scale, rem)]
        } else {
            seq![spec_tens_word(rem / 10)] + if rem % 10 == 0 {
                suffix_tokens(scale)
            } else {
                seq![spec_scale_phrase(scale, rem % 10)]
            }
        };
        assert(buffer@ == append_all(mid, tail));
        lemma_append_all_concat(pre, head, tail);
        assert(group_tokens(g, scale) == head + tail);
    }
}

/// A group of exactly zero contributes no tokens.
pub proof fn lemma_group_tokens_zero(scale: Scale)
    ensures
        group_tokens(0, scale) == Seq::<Seq<char>>::empty(),
{
    assert(group_tokens(0, scale) =~= Seq::<Seq<char>>::empty());
}

/// A nonzero group contributes at least one token.
pub proof fn lemma_group_tokens_nonempty(g: int, scale: Scale)
    requires
        0 < g < 1000,
    ensures
        group_tokens(g, scale).len() > 0,
{
    let h = g / 100;
    let rem = g % 100;
    if h == 0 {
        assert(g < 100);
        assert(rem == g);
    }
}

/// Every token a group contributes is well formed.
pub proof fn lemma_group_tokens_ok(g: int, scale: Scale)
    requires
        0 <= g < 1000,
    ensures
        all_tokens_ok(group_tokens(g, scale)),
{
    let toks = group_tokens(g, scale);
    let h = g / 100;
    let rem = g % 100;
    if h != 0 {
        lemma_hundreds_word_ok(h);
    }
    if rem == 0 {
        if !(scale is Units) {
            lemma_scale_suffix_ok(scale);
        }
    } else if rem <= 19 {
        lemma_scale_phrase_ok(scale, rem);
    } else {
        lemma_tens_word_ok(rem / 10);
        if rem % 10 == 0 {
            if !(scale is Units) {
                lemma_scale_suffix_ok(scale);
            }
        } else {
            lemma_scale_phrase_ok(scale, rem % 10);
        }
    }
}

} // verus!

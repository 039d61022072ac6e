//! General properties of the converter, stated and proved once for all
//! inputs: the sign word is a pure prefix, small counts and round tens and
//! round thousands render as single table entries, and the output never
//! carries a leading, trailing or doubled space.

use vstd::prelude::*;

use crate::groups::{
    group_tokens, lemma_group_tokens_nonempty, lemma_group_tokens_ok, lemma_group_tokens_zero,
};
use crate::spacing::{
    all_tokens_ok, join_tokens, lemma_all_tokens_ok_concat, lemma_join_concat, lemma_join_one,
    lemma_join_tokens_ok, one_space, spec_append, well_spaced,
};
use crate::words::{
    lemma_minus_word_ok, lemma_small_word_ok, lemma_tens_word_ok,
    lemma_zero_word_ok, spec_minus_word, spec_small_word, spec_tens_word, spec_thousands_phrase,
    spec_zero_word, Scale,
};
use crate::{abs_value, number_tokens, spec_number_to_words};

verus! {

/// Every token of a number's token list is well formed.
pub proof fn lemma_number_tokens_ok(v: int)
    ensures
        all_tokens_ok(number_tokens(v)),
{
    let sign: Seq<Seq<char>> = if v < 0 {
        seq![spec_minus_word()]
    } else {
        Seq::empty()
    };
    lemma_minus_word_ok();
    assert(all_tokens_ok(sign));
    let m = abs_value(v);
    if m == 0 {
        lemma_zero_word_ok();
        assert(all_tokens_ok(sign.push(spec_zero_word())));
    } else {
        let tb = group_tokens((m % 1_000_000_000_000) / 1_000_000_000, Scale::Billions);
        let tm = group_tokens((m % 1_000_000_000) / 1_000_000, Scale::Millions);
        let tt = group_tokens((m % 1_000_000) / 1_000, Scale::Thousands);
        let tu = group_tokens(m % 1_000, Scale::Units);
        lemma_group_tokens_ok((m % 1_000_000_000_000) / 1_000_000_000, Scale::Billions);
        lemma_group_tokens_ok((m % 1_000_000_000) / 1_000_000, Scale::Millions);
        lemma_group_tokens_ok((m % 1_000_000) / 1_000, Scale::Thousands);
        lemma_group_tokens_ok(m % 1_000, Scale::Units);
        lemma_all_tokens_ok_concat(sign, tb);
        lemma_all_tokens_ok_concat(sign + tb, tm);
        lemma_all_tokens_ok_concat(sign + tb + tm, tt);
        lemma_all_tokens_ok_concat(sign + tb + tm + tt, tu);
    }
}

/// The rendering never carries a leading space, a trailing space, or two
/// consecutive spaces, for any input.
pub proof fn lemma_output_well_spaced(v: int)
    ensures
        well_spaced(spec_number_to_words(v)),
{
    lemma_number_tokens_ok(v);
    lemma_join_tokens_ok(number_tokens(v));
}

/// A magnitude with a nonzero remainder below the trillions place has a
/// nonzero group among its four.
proof fn lemma_groups_not_all_zero(m: int)
    requires
        m >= 0,
        m % 1_000_000_000_000 != 0,
    ensures
        (m % 1_000_000_000_000) / 1_000_000_000 != 0 || (m % 1_000_000_000) / 1_000_000 != 0 || (m
            % 1_000_000) / 1_000 != 0 || m % 1_000 != 0,
{
    if (m % 1_000_000_000_000) / 1_000_000_000 == 0 && (m % 1_000_000_000) / 1_000_000 == 0 && (m
        % 1_000_000) / 1_000 == 0 && m % 1_000 == 0 {
        assert((m % 1_000_000) % 1_000 == m % 1_000);
        assert(m % 1_000_000 == 0);
        assert((m % 1_000_000_000) % 1_000_000 == m % 1_000_000);
        assert(m % 1_000_000_000 == 0);
        assert((m % 1_000_000_000_000) % 1_000_000_000 == m % 1_000_000_000);
        assert(m % 1_000_000_000_000 == 0);
    }
}

/// A number whose magnitude has a nonzero remainder below the trillions
/// place renders as at least one token.
proof fn lemma_number_tokens_nonempty(v: int)
    requires
        abs_value(v) % 1_000_000_000_000 != 0,
    ensures
        number_tokens(v).len() > 0,
{
    let m = abs_value(v);
    lemma_groups_not_all_zero(m);
    if (m % 1_000_000_000_000) / 1_000_000_000 != 0 {
        lemma_group_tokens_nonempty((m % 1_000_000_000_000) / 1_000_000_000, Scale::Billions);
    } else if (m % 1_000_000_000) / 1_000_000 != 0 {
        lemma_group_tokens_nonempty((m % 1_000_000_000) / 1_000_000, Scale::Millions);
    } else if (m % 1_000_000) / 1_000 != 0 {
        lemma_group_tokens_nonempty((m % 1_000_000) / 1_000, Scale::Thousands);
    } else {
        lemma_group_tokens_nonempty(m % 1_000, Scale::Units);
    }
}

/// The sign is a pure prefix: a negative number renders as the sign word,
/// one space, and the rendering of its magnitude. The inputs whose magnitude
/// is a nonzero multiple of 10^12 render as no words at all and are the one
/// family this does not hold of; they are left out here.
pub proof fn lemma_minus_is_a_prefix(n: int)
    requires
        0 < n,
        n % 1_000_000_000_000 != 0,
    ensures
        spec_number_to_words(-n) == spec_minus_word() + one_space() + spec_number_to_words(n),
{
    assert(number_tokens(-n) =~= seq![spec_minus_word()] + number_tokens(n));
    lemma_join_concat(seq![spec_minus_word()], number_tokens(n));
    lemma_join_one(spec_minus_word());
    lemma_minus_word_ok();
    lemma_number_tokens_ok(n);
    lemma_join_tokens_ok(number_tokens(n));
    lemma_number_tokens_nonempty(n);
}

/// A count in [1, 19] renders as exactly its table word: a single token with
/// no scale word.
pub proof fn lemma_small_count(n: int)
    requires
        1 <= n <= 19,
    ensures
        spec_number_to_words(n) == spec_small_word(n),
{
    lemma_group_tokens_zero(Scale::Billions);
    lemma_group_tokens_zero(Scale::Millions);
    lemma_group_tokens_zero(Scale::Thousands);
    assert(group_tokens(n, Scale::Units) =~= seq![spec_small_word(n)]);
    assert(number_tokens(n) =~= seq![spec_small_word(n)]);
    lemma_join_one(spec_small_word(n));
}

/// A two-digit count of twenty or more renders as the tens word alone when
/// its ones digit is zero, and as the tens word, one space, and the ones
/// word otherwise.
pub proof fn lemma_two_digit_count(n: int)
    requires
        20 <= n <= 99,
    ensures
        n % 10 == 0 ==> spec_number_to_words(n) == spec_tens_word(n / 10),
        n % 10 != 0 ==> spec_number_to_words(n) == spec_tens_word(n / 10) + one_space()
            + spec_small_word(n % 10),
{
    lemma_group_tokens_zero(Scale::Billions);
    lemma_group_tokens_zero(Scale::Millions);
    lemma_group_tokens_zero(Scale::Thousands);
    if n % 10 == 0 {
        assert(group_tokens(n, Scale::Units) =~= seq![spec_tens_word(n / 10)]);
        assert(number_tokens(n) =~= seq![spec_tens_word(n / 10)]);
        lemma_join_one(spec_tens_word(n / 10));
    } else {
        let t = spec_tens_word(n / 10);
        let o = spec_small_word(n % 10);
        assert(group_tokens(n, Scale::Units) =~= seq![t, o]);
        assert(number_tokens(n) =~= seq![t, o]);
        assert(seq![t, o].drop_first() =~= seq![o]);
        lemma_join_one(o);
        assert(join_tokens(seq![t, o]) == spec_append(t, o));
        lemma_tens_word_ok(n / 10);
        lemma_small_word_ok(n % 10);
    }
}

/// A whole number of thousands with a count in [1, 19] renders as exactly
/// the declined thousands phrase for that count: one fused table entry.
pub proof fn lemma_whole_thousands(k: int)
    requires
        1 <= k <= 19,
    ensures
        spec_number_to_words(1000 * k) == spec_thousands_phrase(k),
{
    let n = 1000 * k;
    lemma_group_tokens_zero(Scale::Billions);
    lemma_group_tokens_zero(Scale::Millions);
    lemma_group_tokens_zero(Scale::Units);
    assert(n / 1_000 == k);
    assert(n % 1_000 == 0);
    assert(group_tokens(k, Scale::Thousands) =~= seq![spec_thousands_phrase(k)]);
    assert(number_tokens(n) =~= seq![spec_thousands_phrase(k)]);
    lemma_join_one(spec_thousands_phrase(k));
}

} // verus!


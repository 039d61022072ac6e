//! Converts a signed 64-bit integer into its Russian verbal representation:
//! the magnitude is split into four three-digit groups (billions, millions,
//! thousands, units), each group is rendered from fixed word tables with the
//! scale word declined by count, and the word tokens are joined with single
//! spaces. Digits at or above the trillions place are not rendered: only the
//! low twelve decimal digits of the magnitude are examined, a documented
//! limit of the supported domain.

use vstd::prelude::*;

pub mod groups;
pub mod laws;
pub mod spacing;
pub mod words;

use crate::groups::{group_tokens, translate};
use crate::spacing::{
    append, append_all, join_tokens, lemma_append_all_is_join, lemma_join_concat, lemma_join_one,
};
use crate::words::{spec_minus_word, spec_zero_word, Scale};

verus! {

/// The magnitude of `v`.
pub open spec fn abs_value(v: int) -> int {
    if v < 0 {
        -v
    } else {
        v
    }
}

/// The token list for `v`: the sign word when `v` is negative, then the four
/// groups of the magnitude's low twelve decimal digits, highest scale first.
/// A magnitude of exactly zero contributes the zero word instead, since all
/// four of its groups would otherwise contribute nothing.
pub open spec fn number_tokens(v: int) -> Seq<Seq<char>> {
    let sign: Seq<Seq<char>> = if v < 0 {
        seq![spec_minus_word()]
    } else {
        Seq::empty()
    };
    let m = abs_value(v);
    if m == 0 {
        sign.push(spec_zero_word())
    } else {
        sign + group_tokens((m % 1_000_000_000_000) / 1_000_000_000, Scale::Billions)
            + group_tokens((m % 1_000_000_000) / 1_000_000, Scale::Millions) + group_tokens(
            (m % 1_000_000) / 1_000,
            Scale::Thousands,
        ) + group_tokens(m % 1_000, Scale::Units)
    }
}

/// The full rendering of `v`: its tokens joined with single spaces.
pub open spec fn spec_number_to_words(v: int) -> Seq<char> {
    join_tokens(number_tokens(v))
}

/// Translates a number into Russian words, lowest twelve decimal digits of
/// the magnitude only, tokens joined with single ASCII spaces.
pub fn number_to_words(value: i64) -> (r: String)
    ensures
        r@ == spec_number_to_words(value as int),
{
    let mut buffer = String::new();

    let magnitude: u64 = if value >= 0 {
        value as u64
    } else {
        (-(value as i128)) as u64
    };
    proof {
        assert(magnitude as int == abs_value(value as int));
    }

    if value < 0 {
        append("минус", &mut buffer);
    }
    let ghost sign: Seq<Seq<char>> = if (value as int) < 0 {
        seq![spec_minus_word()]
    } else {
        Seq::empty()
    };
    let ghost signed_text = buffer@;
    proof {
        if value < 0 {
            lemma_join_one(spec_minus_word());
        }
        assert(signed_text == join_tokens(sign));
    }

    if magnitude == 0 {
        append("ноль", &mut buffer);
        proof {
            assert(value >= 0);
            assert(sign.push(spec_zero_word()) =~= seq![spec_zero_word()]);
            lemma_join_one(spec_zero_word());
        }
    } else {
        let billions = (magnitude % 1_000_000_000_000) / 1_000_000_000;
        translate(billions, &mut buffer, Scale::Billions);
        let millions = (magnitude % 1_000_000_000) / 1_000_000;
        translate(millions, &mut buffer, Scale::Millions);
        let thousands = (magnitude % 1_000_000) / 1_000;
        translate(thousands, &mut buffer, Scale::Thousands);
        let units = magnitude % 1_000;
        translate(units, &mut buffer, Scale::Units);
        proof {
            let m = magnitude as int;
            let tb = group_tokens((m % 1_000_000_000_000) / 1_000_000_000, Scale::Billions);
            let tm = group_tokens((m % 1_000_000_000) / 1_000_000, Scale::Millions);
            let tt = group_tokens((m % 1_000_000) / 1_000, Scale::Thousands);
            let tu = group_tokens(m % 1_000, Scale::Units);
            lemma_append_all_is_join(signed_text, tb);
            lemma_append_all_is_join(append_all(signed_text, tb), tm);
            lemma_append_all_is_join(append_all(append_all(signed_text, tb), tm), tt);
            lemma_append_all_is_join(
                append_all(append_all(append_all(signed_text, tb), tm), tt),
                tu,
            );
            lemma_join_concat(sign, tb);
            lemma_join_concat(sign + tb, tm);
            lemma_join_concat(sign + tb + tm, tt);
            lemma_join_concat(sign + tb + tm + tt, tu);
            assert(number_tokens(value as int) == sign + tb + tm + tt + tu);
        }
    }
    buffer
}

} // verus!

//! The Russian vocabulary: digit and teen words, tens words, hundreds words,
//! and the scale phrases for thousands, millions and billions. A scale phrase
//! fuses the count word with the correctly declined scale word (Slavic
//! declension differs for a count of 1, of 2 to 4, and of 5 to 19), which is
//! why each scale carries a full table over 1 to 19 rather than one suffix.

use vstd::prelude::*;

use crate::spacing::token_ok;

verus! {

/// Which power-of-a-thousand group of the magnitude is being rendered.
#[derive(Clone, Copy)]
pub enum Scale {
    Units,
    Thousands,
    Millions,
    Billions,
}

/// The sign word, prefixed to the rendering of a negative number.
pub open spec fn spec_minus_word() -> Seq<char> {
    "минус"@
}

/// The word for an exactly-zero magnitude.
pub open spec fn spec_zero_word() -> Seq<char> {
    "ноль"@
}

/// The word for a count in [1, 19]: digit words and the irreducible teens.
pub open spec fn spec_small_word(d: int) -> Seq<char> {
    if d == 1 {
        "один"@
    } else if d == 2 {
        "два"@
    } else if d == 3 {
        "три"@
    } else if d == 4 {
        "четыре"@
    } else if d == 5 {
        "пять"@
    } else if d == 6 {
        "шесть"@
    } else if d == 7 {
        "семь"@
    } else if d == 8 {
        "восемь"@
    } else if d == 9 {
        "девять"@
    } else if d == 10 {
        "десять"@
    } else if d == 11 {
        "одиннадцать"@
    } else if d == 12 {
        "двенадцать"@
    } else if d == 13 {
        "тринадцать"@
    } else if d == 14 {
        "четырнадцать"@
    } else if d == 15 {
        "пятьнадцать"@
    } else if d == 16 {
        "шестьнадцать"@
    } else if d == 17 {
        "семтьнадцать"@
    } else if d == 18 {
        "восемьнадцать"@
    } else {
        "девятьнадцать"@
    }
}

/// The word for a tens digit in [1, 9], meaning 10, 20, ..., 90.
pub open spec fn spec_tens_word(d: int) -> Seq<char> {
    if d == 1 {
        "десять"@
    } else if d == 2 {
        "двадцать"@
    } else if d == 3 {
        "тридцать"@
    } else if d == 4 {
        "сорок"@
    } else if d == 5 {
        "пятьдесят"@
    } else if d == 6 {
        "шестьдесят"@
    } else if d == 7 {
        "семьдесят"@
    } else if d == 8 {
        "восемьдесят"@
    } else {
        "девяносто"@
    }
}

/// The word for a hundreds digit in [1, 9], meaning 100, 200, ..., 900.
pub open spec fn spec_hundreds_word(d: int) -> Seq<char> {
    if d == 1 {
        "сто"@
    } else if d == 2 {
        "двести"@
    } else if d == 3 {
        "триста"@
    } else if d == 4 {
        "четыреста"@
    } else if d == 5 {
        "пятьсот"@
    } else if d == 6 {
        "шестьсот"@
    } else if d == 7 {
        "семьсот"@
    } else if d == 8 {
        "восемьсот"@
    } else {
        "девятьсот"@
    }
}

/// The declined phrase for a count of thousands in [1, 19].
pub open spec fn spec_thousands_phrase(d: int) -> Seq<char> {
    if d == 1 {
        "одна тысяча"@
    } else if d == 2 {
        "две тысячи"@
    } else if d == 3 {
        "три тысячи"@
    } else if d == 4 {
        "четыре тысячи"@
    } else if d == 5 {
        "пять тысяч"@
    } else if d == 6 {
        "шесть тысяч"@
    } else if d == 7 {
        "семь тысяч"@
    } else if d == 8 {
        "восемь тысяч"@
    } else if d == 9 {
        "девять тысяч"@
    } else if d == 10 {
        "десять тысяч"@
    } else if d == 11 {
        "одиннадцать тысяч"@
    } else if d == 12 {
        "двенадцать тысяч"@
    } else if d == 13 {
        "тринадцать тысяч"@
    } else if d == 14 {
        "четырнадцать тысяч"@
    } else if d == 15 {
        "пятьнадцать тысяч"@
    } else if d == 16 {
        "шестьнадцать тысяч"@
    } else if d == 17 {
        "семьнадцать тысяч"@
    } else if d == 18 {
        "восемьнадцать тысяч"@
    } else {
        "девятьнадцать тысяч"@
    }
}

/// The declined phrase for a count of millions in [1, 19].
pub open spec fn spec_millions_phrase(d: int) -> Seq<char> {
    if d == 1 {
        "один миллион"@
    } else if d == 2 {
        "два миллиона"@
    } else if d == 3 {
        "три миллиона"@
    } else if d == 4 {
        "четыре миллиона"@
    } else if d == 5 {
        "пять миллионов"@
    } else if d == 6 {
        "шесть миллионов"@
    } else if d == 7 {
        "семь миллионов"@
    } else if d == 8 {
        "восемь миллионов"@
    } else if d == 9 {
        "девять миллионов"@
    } else if d == 10 {
        "десять миллионов"@
    } else if d == 11 {
        "одиннадцать миллионов"@
    } else if d == 12 {
        "двенадцать миллионов"@
    } else if d == 13 {
        "тринадцать миллионов"@
    } else if d == 14 {
        "четырнадцать миллионов"@
    } else if d == 15 {
        "пятьнадцать миллионов"@
    } else if d == 16 {
        "шестьнадцать миллионов"@
    } else if d == 17 {
        "семьнадцать миллионов"@
    } else if d == 18 {
        "восемьнадцать миллионов"@
    } else {
        "девятьнадцать миллионов"@
    }
}

/// The declined phrase for a count of billions in [1, 19].
pub open spec fn spec_billions_phrase(d: int) -> Seq<char> {
    if d == 1 {
        "один миллиард"@
    } else if d == 2 {
        "два миллиарда"@
    } else if d == 3 {
        "три миллиарда"@
    } else if d == 4 {
        "четыре миллиарда"@
    } else if d == 5 {
        "пять миллиардов"@
    } else if d == 6 {
        "шесть миллиардов"@
    } else if d == 7 {
        "семь миллиардов"@
    } else if d == 8 {
        "восемь миллиардов"@
    } else if d == 9 {
        "девять миллиардов"@
    } else if d == 10 {
        "десять миллиардов"@
    } else if d == 11 {
        "одиннадцать миллиардов"@
    } else if d == 12 {
        "двенадцать миллиардов"@
    } else if d == 13 {
        "тринадцать миллиардов"@
    } else if d == 14 {
        "четырнадцать миллиардов"@
    } else if d == 15 {
        "пятьнадцать миллиардов"@
    } else if d == 16 {
        "шестьнадцать миллиардов"@
    } else if d == 17 {
        "семьнадцать миллиардов"@
    } else if d == 18 {
        "восемьнадцать миллиардов"@
    } else {
        "девятьнадцать миллиардов"@
    }
}

/// The phrase for a count in [1, 19] at a given scale. At the units scale it
/// is the bare count word; at the larger scales it already carries the
/// declined scale word, so no separate suffix is appended after it.
pub open spec fn spec_scale_phrase(scale: Scale, d: int) -> Seq<char> {
    match scale {
        Scale::Units => spec_small_word(d),
        Scale::Thousands => spec_thousands_phrase(d),
        Scale::Millions => spec_millions_phrase(d),
        Scale::Billions => spec_billions_phrase(d),
    }
}

/// The bare scale suffix, appended when a group needs the scale word without
/// a count word (300_000 ends in the bare suffix for thousands). The units
/// scale has no suffix: its bare form is empty.
pub open spec fn spec_scale_suffix(scale: Scale) -> Seq<char> {
    match scale {
        Scale::Units => Seq::empty(),
        Scale::Thousands => "тысяч"@,
        Scale::Millions => "миллионов"@,
        Scale::Billions => "миллиардов"@,
    }
}

/// The token list that the bare scale suffix contributes: nothing at the
/// units scale, one token otherwise.
pub open spec fn suffix_tokens(scale: Scale) -> Seq<Seq<char>> {
    match scale {
        Scale::Units => Seq::empty(),
        _ => seq![spec_scale_suffix(scale)],
    }
}

/// Looks up the word for a count in [1, 19].
pub(crate) fn small_word(d: u64) -> (r: &'static str)
    requires
        1 <= d <= 19,
    ensures
        r@ == spec_small_word(d as int),
{
    if d == 1 {
        "один"
    } else if d == 2 {
        "два"
    } else if d == 3 {
        "три"
    } else if d == 4 {
        "четыре"
    } else if d == 5 {
        "пять"
    } else if d == 6 {
        "шесть"
    } else if d == 7 {
        "семь"
    } else if d == 8 {
        "восемь"
    } else if d == 9 {
        "девять"
    } else if d == 10 {
        "десять"
    } else if d == 11 {
        "одиннадцать"
    } else if d == 12 {
        "двенадцать"
    } else if d == 13 {
        "тринадцать"
    } else if d == 14 {
        "четырнадцать"
    } else if d == 15 {
        "пятьнадцать"
    } else if d == 16 {
        "шестьнадцать"
    } else if d == 17 {
        "семтьнадцать"
    } else if d == 18 {
        "восемьнадцать"
    } else {
        "девятьнадцать"
    }
}

/// Looks up the word for a tens digit in [1, 9].
pub(crate) fn tens_word(d: u64) -> (r: &'static str)
    requires
        1 <= d <= 9,
    ensures
        r@ == spec_tens_word(d as int),
{
    if d == 1 {
        "десять"
    } else if d == 2 {
        "двадцать"
    } else if d == 3 {
        "тридцать"
    } else if d == 4 {
        "сорок"
    } else if d == 5 {
        "пятьдесят"
    } else if d == 6 {
        "шестьдесят"
    } else if d == 7 {
        "семьдесят"
    } else if d == 8 {
        "восемьдесят"
    } else {
        "девяносто"
    }
}

/// Looks up the word for a hundreds digit in [1, 9].
pub(crate) fn hundreds_word(d: u64) -> (r: &'static str)
    requires
        1 <= d <= 9,
    ensures
        r@ == spec_hundreds_word(d as int),
{
    if d == 1 {
        "сто"
    } else if d == 2 {
        "двести"
    } else if d == 3 {
        "триста"
    } else if d == 4 {
        "четыреста"
    } else if d == 5 {
        "пятьсот"
    } else if d == 6 {
        "шестьсот"
    } else if d == 7 {
        "семьсот"
    } else if d == 8 {
        "восемьсот"
    } else {
        "девятьсот"
    }
}

/// Looks up the declined phrase for a count of thousands in [1, 19].
pub(crate) fn thousands_phrase(d: u64) -> (r: &'static str)
    requires
        1 <= d <= 19,
    ensures
        r@ == spec_thousands_phrase(d as int),
{
    if d == 1 {
        "одна тысяча"
    } else if d == 2 {
        "две тысячи"
    } else if d == 3 {
        "три тысячи"
    } else if d == 4 {
        "четыре тысячи"
    } else if d == 5 {
        "пять тысяч"
    } else if d == 6 {
        "шесть тысяч"
    } else if d == 7 {
        "семь тысяч"
    } else if d == 8 {
        "восемь тысяч"
    } else if d == 9 {
        "девять тысяч"
    } else if d == 10 {
        "десять тысяч"
    } else if d == 11 {
        "одиннадцать тысяч"
    } else if d == 12 {
        "двенадцать тысяч"
    } else if d == 13 {
        "тринадцать тысяч"
    } else if d == 14 {
        "четырнадцать тысяч"
    } else if d == 15 {
        "пятьнадцать тысяч"
    } else if d == 16 {
        "шестьнадцать тысяч"
    } else if d == 17 {
        "семьнадцать тысяч"
    } else if d == 18 {
        "восемьнадцать тысяч"
    } else {
        "девятьнадцать тысяч"
    }
}

/// Looks up the declined phrase for a count of millions in [1, 19].
pub(crate) fn millions_phrase(d: u64) -> (r: &'static str)
    requires
        1 <= d <= 19,
    ensures
        r@ == spec_millions_phrase(d as int),
{
    if d == 1 {
        "один миллион"
    } else if d == 2 {
        "два миллиона"
    } else if d == 3 {
        "три миллиона"
    } else if d == 4 {
        "четыре миллиона"
    } else if d == 5 {
        "пять миллионов"
    } else if d == 6 {
        "шесть миллионов"
    } else if d == 7 {
        "семь миллионов"
    } else if d == 8 {
        "восемь миллионов"
    } else if d == 9 {
        "девять миллионов"
    } else if d == 10 {
        "десять миллионов"
    } else if d == 11 {
        "одиннадцать миллионов"
    } else if d == 12 {
        "двенадцать миллионов"
    } else if d == 13 {
        "тринадцать миллионов"
    } else if d == 14 {
        "четырнадцать миллионов"
    } else if d == 15 {
        "пятьнадцать миллионов"
    } else if d == 16 {
        "шестьнадцать миллионов"
    } else if d == 17 {
        "семьнадцать миллионов"
    } else if d == 18 {
        "восемьнадцать миллионов"
    } else {
        "девятьнадцать миллионов"
    }
}

/// Looks up the declined phrase for a count of billions in [1, 19].
pub(crate) fn billions_phrase(d: u64) -> (r: &'static str)
    requires
        1 <= d <= 19,
    ensures
        r@ == spec_billions_phrase(d as int),
{
    if d == 1 {
        "один миллиард"
    } else if d == 2 {
        "два миллиарда"
    } else if d == 3 {
        "три миллиарда"
    } else if d == 4 {
        "четыре миллиарда"
    } else if d == 5 {
        "пять миллиардов"
    } else if d == 6 {
        "шесть миллиардов"
    } else if d == 7 {
        "семь миллиардов"
    } else if d == 8 {
        "восемь миллиардов"
    } else if d == 9 {
        "девять миллиардов"
    } else if d == 10 {
        "десять миллиардов"
    } else if d == 11 {
        "одиннадцать миллиардов"
    } else if d == 12 {
        "двенадцать миллиардов"
    } else if d == 13 {
        "тринадцать миллиардов"
    } else if d == 14 {
        "четырнадцать миллиардов"
    } else if d == 15 {
        "пятьнадцать миллиардов"
    } else if d == 16 {
        "шестьнадцать миллиардов"
    } else if d == 17 {
        "семьнадцать миллиардов"
    } else if d == 18 {
        "восемьнадцать миллиардов"
    } else {
        "девятьнадцать миллиардов"
    }
}

/// Looks up the phrase for a count in [1, 19] at the given scale.
pub(crate) fn scale_phrase(scale: Scale, d: u64) -> (r: &'static str)
    requires
        1 <= d <= 19,
    ensures
        r@ == spec_scale_phrase(scale, d as int),
{
    match scale {
        Scale::Units => small_word(d),
        Scale::Thousands => thousands_phrase(d),
        Scale::Millions => millions_phrase(d),
        Scale::Billions => billions_phrase(d),
    }
}

/// Looks up the bare suffix for the given scale.
pub(crate) fn scale_suffix(scale: Scale) -> (r: &'static str)
    ensures
        r@ == spec_scale_suffix(scale),
{
    match scale {
        Scale::Units => {
            proof {
                reveal_strlit("");
                assert(""@ =~= Seq::<char>::empty());
            }
            ""
        },
        Scale::Thousands => "тысяч",
        Scale::Millions => "миллионов",
        Scale::Billions => "миллиардов",
    }
}

/// The sign word is a well-formed token.
pub proof fn lemma_minus_word_ok()
    ensures
        token_ok(spec_minus_word()),
{
    reveal_strlit("минус");
    assert(token_ok("минус"@));
}

/// The zero word is a well-formed token.
pub proof fn lemma_zero_word_ok()
    ensures
        token_ok(spec_zero_word()),
{
    reveal_strlit("ноль");
    assert(token_ok("ноль"@));
}

/// Every word for a count in [1, 19] is a well-formed token.
pub proof fn lemma_small_word_ok(d: int)
    requires
        1 <= d <= 19,
    ensures
        token_ok(spec_small_word(d)),
{
    if d == 1 {
        reveal_strlit("один");
        assert(token_ok("один"@));
    } else if d == 2 {
        reveal_strlit("два");
        assert(token_ok("два"@));
    } else if d == 3 {
        reveal_strlit("три");
        assert(token_ok("три"@));
    } else if d == 4 {
        reveal_strlit("четыре");
        assert(token_ok("четыре"@));
    } else if d == 5 {
        reveal_strlit("пять");
        assert(token_ok("пять"@));
    } else if d == 6 {
        reveal_strlit("шесть");
        assert(token_ok("шесть"@));
    } else if d == 7 {
        reveal_strlit("семь");
        assert(token_ok("семь"@));
    } else if d == 8 {
        reveal_strlit("восемь");
        assert(token_ok("восемь"@));
    } else if d == 9 {
        reveal_strlit("девять");
        assert(token_ok("девять"@));
    } else if d == 10 {
        reveal_strlit("десять");
        assert(token_ok("десять"@));
    } else if d == 11 {
        reveal_strlit("одиннадцать");
        assert(token_ok("одиннадцать"@));
    } else if d == 12 {
        reveal_strlit("двенадцать");
        assert(token_ok("двенадцать"@));
    } else if d == 13 {
        reveal_strlit("тринадцать");
        assert(token_ok("тринадцать"@));
    } else if d == 14 {
        reveal_strlit("четырнадцать");
        assert(token_ok("четырнадцать"@));
    } else if d == 15 {
        reveal_strlit("пятьнадцать");
        assert(token_ok("пятьнадцать"@));
    } else if d == 16 {
        reveal_strlit("шестьнадцать");
        assert(token_ok("шестьнадцать"@));
    } else if d == 17 {
        reveal_strlit("семтьнадцать");
        assert(token_ok("семтьнадцать"@));
    } else if d == 18 {
        reveal_strlit("восемьнадцать");
        assert(token_ok("восемьнадцать"@));
    } else {
        reveal_strlit("девятьнадцать");
        assert(token_ok("девятьнадцать"@));
    }
}

/// Every tens word is a well-formed token.
pub proof fn lemma_tens_word_ok(d: int)
    requires
        1 <= d <= 9,
    ensures
        token_ok(spec_tens_word(d)),
{
    if d == 1 {
        reveal_strlit("десять");
        assert(token_ok("десять"@));
    } else if d == 2 {
        reveal_strlit("двадцать");
        assert(token_ok("двадцать"@));
    } else if d == 3 {
        reveal_strlit("тридцать");
        assert(token_ok("тридцать"@));
    } else if d == 4 {
        reveal_strlit("сорок");
        assert(token_ok("сорок"@));
    } else if d == 5 {
        reveal_strlit("пятьдесят");
        assert(token_ok("пятьдесят"@));
    } else if d == 6 {
        reveal_strlit("шестьдесят");
        assert(token_ok("шестьдесят"@));
    } else if d == 7 {
        reveal_strlit("семьдесят");
        assert(token_ok("семьдесят"@));
    } else if d == 8 {
        reveal_strlit("восемьдесят");
        assert(token_ok("восемьдесят"@));
    } else {
        reveal_strlit("девяносто");
        assert(token_ok("девяносто"@));
    }
}

/// Every hundreds word is a well-formed token.
pub proof fn lemma_hundreds_word_ok(d: int)
    requires
        1 <= d <= 9,
    ensures
        token_ok(spec_hundreds_word(d)),
{
    if d == 1 {
        reveal_strlit("сто");
        assert(token_ok("сто"@));
    } else if d == 2 {
        reveal_strlit("двести");
        assert(token_ok("двести"@));
    } else if d == 3 {
        reveal_strlit("триста");
        assert(token_ok("триста"@));
    } else if d == 4 {
        reveal_strlit("четыреста");
        assert(token_ok("четыреста"@));
    } else if d == 5 {
        reveal_strlit("пятьсот");
        assert(token_ok("пятьсот"@));
    } else if d == 6 {
        reveal_strlit("шестьсот");
        assert(token_ok("шестьсот"@));
    } else if d == 7 {
        reveal_strlit("семьсот");
        assert(token_ok("семьсот"@));
    } else if d == 8 {
        reveal_strlit("восемьсот");
        assert(token_ok("восемьсот"@));
    } else {
        reveal_strlit("девятьсот");
        assert(token_ok("девятьсот"@));
    }
}

/// Every thousands phrase is a well-formed token.
pub proof fn lemma_thousands_phrase_ok(d: int)
    requires
        1 <= d <= 19,
    ensures
        token_ok(spec_thousands_phrase(d)),
{
    if d == 1 {
        reveal_strlit("одна тысяча");
        assert(token_ok("одна тысяча"@));
    } else if d == 2 {
        reveal_strlit("две тысячи");
        assert(token_ok("две тысячи"@));
    } else if d == 3 {
        reveal_strlit("три тысячи");
        assert(token_ok("три тысячи"@));
    } else if d == 4 {
        reveal_strlit("четыре тысячи");
        assert(token_ok("четыре тысячи"@));
    } else if d == 5 {
        reveal_strlit("пять тысяч");
        assert(token_ok("пять тысяч"@));
    } else if d == 6 {
        reveal_strlit("шесть тысяч");
        assert(token_ok("шесть тысяч"@));
    } else if d == 7 {
        reveal_strlit("семь тысяч");
        assert(token_ok("семь тысяч"@));
    } else if d == 8 {
        reveal_strlit("восемь тысяч");
        assert(token_ok("восемь тысяч"@));
    } else if d == 9 {
        reveal_strlit("девять тысяч");
        assert(token_ok("девять тысяч"@));
    } else if d == 10 {
        reveal_strlit("десять тысяч");
        assert(token_ok("десять тысяч"@));
    } else if d == 11 {
        reveal_strlit("одиннадцать тысяч");
        assert(token_ok("одиннадцать тысяч"@));
    } else if d == 12 {
        reveal_strlit("двенадцать тысяч");
        assert(token_ok("двенадцать тысяч"@));
    } else if d == 13 {
        reveal_strlit("тринадцать тысяч");
        assert(token_ok("тринадцать тысяч"@));
    } else if d == 14 {
        reveal_strlit("четырнадцать тысяч");
        assert(token_ok("четырнадцать тысяч"@));
    } else if d == 15 {
        reveal_strlit("пятьнадцать тысяч");
        assert(token_ok("пятьнадцать тысяч"@));
    } else if d == 16 {
        reveal_strlit("шестьнадцать тысяч");
        assert(token_ok("шестьнадцать тысяч"@));
    } else if d == 17 {
        reveal_strlit("семьнадцать тысяч");
        assert(token_ok("семьнадцать тысяч"@));
    } else if d == 18 {
        reveal_strlit("восемьнадцать тысяч");
        assert(token_ok("восемьнадцать тысяч"@));
    } else {
        reveal_strlit("девятьнадцать тысяч");
        assert(token_ok("девятьнадцать тысяч"@));
    }
}

/// Every millions phrase is a well-formed token.
pub proof fn lemma_millions_phrase_ok(d: int)
    requires
        1 <= d <= 19,
    ensures
        token_ok(spec_millions_phrase(d)),
{
    if d == 1 {
        reveal_strlit("один миллион");
        assert(token_ok("один миллион"@));
    } else if d == 2 {
        reveal_strlit("два миллиона");
        assert(token_ok("два миллиона"@));
    } else if d == 3 {
        reveal_strlit("три миллиона");
        assert(token_ok("три миллиона"@));
    } else if d == 4 {
        reveal_strlit("четыре миллиона");
        assert(token_ok("четыре миллиона"@));
    } else if d == 5 {
        reveal_strlit("пять миллионов");
        assert(token_ok("пять миллионов"@));
    } else if d == 6 {
        reveal_strlit("шесть миллионов");
        assert(token_ok("шесть миллионов"@));
    } else if d == 7 {
        reveal_strlit("семь миллионов");
        assert(token_ok("семь миллионов"@));
    } else if d == 8 {
        reveal_strlit("восемь миллионов");
        assert(token_ok("восемь миллионов"@));
    } else if d == 9 {
        reveal_strlit("девять миллионов");
        assert(token_ok("девять миллионов"@));
    } else if d == 10 {
        reveal_strlit("десять миллионов");
        assert(token_ok("десять миллионов"@));
    } else if d == 11 {
        reveal_strlit("одиннадцать миллионов");
        assert(token_ok("одиннадцать миллионов"@));
    } else if d == 12 {
        reveal_strlit("двенадцать миллионов");
        assert(token_ok("двенадцать миллионов"@));
    } else if d == 13 {
        reveal_strlit("тринадцать миллионов");
        assert(token_ok("тринадцать миллионов"@));
    } else if d == 14 {
        reveal_strlit("четырнадцать миллионов");
        assert(token_ok("четырнадцать миллионов"@));
    } else if d == 15 {
        reveal_strlit("пятьнадцать миллионов");
        assert(token_ok("пятьнадцать миллионов"@));
    } else if d == 16 {
        reveal_strlit("шестьнадцать миллионов");
        assert(token_ok("шестьнадцать миллионов"@));
    } else if d == 17 {
        reveal_strlit("семьнадцать миллионов");
        assert(token_ok("семьнадцать миллионов"@));
    } else if d == 18 {
        reveal_strlit("восемьнадцать миллионов");
        assert(token_ok("восемьнадцать миллионов"@));
    } else {
        reveal_strlit("девятьнадцать миллионов");
        assert(token_ok("девятьнадцать миллионов"@));
    }
}

/// Every billions phrase is a well-formed token.
pub proof fn lemma_billions_phrase_ok(d: int)
    requires
        1 <= d <= 19,
    ensures
        token_ok(spec_billions_phrase(d)),
{
    if d == 1 {
        reveal_strlit("один миллиард");
        assert(token_ok("один миллиард"@));
    } else if d == 2 {
        reveal_strlit("два миллиарда");
        assert(token_ok("два миллиарда"@));
    } else if d == 3 {
        reveal_strlit("три миллиарда");
        assert(token_ok("три миллиарда"@));
    } else if d == 4 {
        reveal_strlit("четыре миллиарда");
        assert(token_ok("четыре миллиарда"@));
    } else if d == 5 {
        reveal_strlit("пять миллиардов");
        assert(token_ok("пять миллиардов"@));
    } else if d == 6 {
        reveal_strlit("шесть миллиардов");
        assert(token_ok("шесть миллиардов"@));
    } else if d == 7 {
        reveal_strlit("семь миллиардов");
        assert(token_ok("семь миллиардов"@));
    } else if d == 8 {
        reveal_strlit("восемь миллиардов");
        assert(token_ok("восемь миллиардов"@));
    } else if d == 9 {
        reveal_strlit("девять миллиардов");
        assert(token_ok("девять миллиардов"@));
    } else if d == 10 {
        reveal_strlit("десять миллиардов");
        assert(token_ok("десять миллиардов"@));
    } else if d == 11 {
        reveal_strlit("одиннадцать миллиардов");
        assert(token_ok("одиннадцать миллиардов"@));
    } else if d == 12 {
        reveal_strlit("двенадцать миллиардов");
        assert(token_ok("двенадцать миллиардов"@));
    } else if d == 13 {
        reveal_strlit("тринадцать миллиардов");
        assert(token_ok("тринадцать миллиардов"@));
    } else if d == 14 {
        reveal_strlit("четырнадцать миллиардов");
        assert(token_ok("четырнадцать миллиардов"@));
    } else if d == 15 {
        reveal_strlit("пятьнадцать миллиардов");
        assert(token_ok("пятьнадцать миллиардов"@));
    } else if d == 16 {
        reveal_strlit("шестьнадцать миллиардов");
        assert(token_ok("шестьнадцать миллиардов"@));
    } else if d == 17 {
        reveal_strlit("семьнадцать миллиардов");
        assert(token_ok("семьнадцать миллиардов"@));
    } else if d == 18 {
        reveal_strlit("восемьнадцать миллиардов");
        assert(token_ok("восемьнадцать миллиардов"@));
    } else {
        reveal_strlit("девятьнадцать миллиардов");
        assert(token_ok("девятьнадцать миллиардов"@));
    }
}


/// The bare suffix of each scale above units is a well-formed token.
pub proof fn lemma_scale_suffix_ok(scale: Scale)
    requires
        !(scale is Units),
    ensures
        token_ok(spec_scale_suffix(scale)),
{
    match scale {
        Scale::Units => {
        },
        Scale::Thousands => {
            reveal_strlit("тысяч");
            assert(token_ok("тысяч"@));
        },
        Scale::Millions => {
            reveal_strlit("миллионов");
            assert(token_ok("миллионов"@));
        },
        Scale::Billions => {
            reveal_strlit("миллиардов");
            assert(token_ok("миллиардов"@));
        },
    }
}

/// Every scale phrase for a count in [1, 19] is a well-formed token.
pub proof fn lemma_scale_phrase_ok(scale: Scale, d: int)
    requires
        1 <= d <= 19,
    ensures
        token_ok(spec_scale_phrase(scale, d)),
{
    match scale {
        Scale::Units => lemma_small_word_ok(d),
        Scale::Thousands => lemma_thousands_phrase_ok(d),
        Scale::Millions => lemma_millions_phrase_ok(d),
        Scale::Billions => lemma_billions_phrase_ok(d),
    }
}

} // verus!

use number_to_words_ru::number_to_words;

#[test]
fn it_works() {
    assert_eq!("ноль", number_to_words(0));
    assert_eq!("один", number_to_words(1));
    assert_eq!("минус один", number_to_words(-1));
    assert_eq!("пять", number_to_words(5));
    assert_eq!("девять", number_to_words(9));
    assert_eq!("десять", number_to_words(10));
    assert_eq!("одиннадцать", number_to_words(11));
    assert_eq!("двадцать", number_to_words(20));
    assert_eq!("двадцать один", number_to_words(21));
    assert_eq!("минус сорок", number_to_words(-40));
    assert_eq!("минус сорок шесть", number_to_words(-46));
    assert_eq!("сто", number_to_words(100));
    assert_eq!("сто один", number_to_words(101));
    assert_eq!("сто тринадцать", number_to_words(113));
    assert_eq!("двести пятьнадцать", number_to_words(215));
    assert_eq!("двести тридцать восемь", number_to_words(238));
    assert_eq!("минус триста", number_to_words(-300));
    assert_eq!("девятьсот девяносто девять", number_to_words(999));
    assert_eq!("одна тысяча", number_to_words(1_000));
    assert_eq!("одна тысяча один", number_to_words(1_001));
    assert_eq!("три тысячи тринадцать", number_to_words(3_013));
    assert_eq!("пять тысяч двадцать семь", number_to_words(5_027));
    assert_eq!("семь тысяч сто", number_to_words(7_100));
    assert_eq!("одиннадцать тысяч двести тридцать шесть", number_to_words(11_236));
    assert_eq!("десять тысяч", number_to_words(10_000));
    assert_eq!("двадцать тысяч", number_to_words(20_000));
    assert_eq!("двадцать одна тысяча", number_to_words(21_000));
    assert_eq!("двадцать семь тысяч пятьсот двенадцать", number_to_words(27_512));
    assert_eq!("сто тысяч", number_to_words(100_000));
    assert_eq!("сто тринадцать тысяч", number_to_words(113_000));
    assert_eq!("сто двадцать тысяч", number_to_words(120_000));
    assert_eq!(
        "девятьсот девяносто девять тысяч девятьсот девяносто девять",
        number_to_words(999_999)
    );
    assert_eq!("один миллион", number_to_words(1_000_000));
    assert_eq!("два миллиона", number_to_words(2_000_000));
    assert_eq!("десять миллионов", number_to_words(10_000_000));
    assert_eq!("четырнадцать миллионов", number_to_words(14_000_000));
    assert_eq!("двадцать миллионов", number_to_words(20_000_000));
    assert_eq!("двадцать один миллион", number_to_words(21_000_000));
    assert_eq!("двадцать два миллиона", number_to_words(22_000_000));
    assert_eq!("двадцать пять миллионов", number_to_words(25_000_000));
    assert_eq!("сто миллионов", number_to_words(100_000_000));
    assert_eq!("сто один миллион", number_to_words(101_000_000));
    assert_eq!("сто два миллиона", number_to_words(102_000_000));
    assert_eq!("сто пять миллионов", number_to_words(105_000_000));
    assert_eq!("сто двенадцать миллионов", number_to_words(112_000_000));
    assert_eq!("двести миллионов", number_to_words(200_000_000));
    assert_eq!("триста тринадцать миллионов", number_to_words(313_000_000));
    assert_eq!("пятьсот двадцать семь миллионов", number_to_words(527_000_000));
    assert_eq!(
        "девятьсот девяносто девять миллионов девятьсот девяносто девять тысяч девятьсот девяносто девять",
        number_to_words(999_999_999)
    );
    assert_eq!(
        "девятьсот девяносто один миллиард девятьсот девяносто один миллион четыреста одна тысяча двести восемьдесят",
        number_to_words(991_991_401_280)
    );
}

#[test]
fn zero_is_a_single_word() {
    assert_eq!("ноль", number_to_words(0));
}

#[test]
fn sign_is_a_pure_prefix() {
    for n in [
        1i64,
        5,
        19,
        21,
        40,
        100,
        215,
        999,
        1_000,
        7_100,
        21_000,
        1_000_000,
        999_999_999,
        991_991_401_280,
        999_999_999_999,
    ] {
        assert_eq!(format!("минус {}", number_to_words(n)), number_to_words(-n));
    }
}

#[test]
fn small_counts_are_single_table_words() {
    assert_eq!("два", number_to_words(2));
    assert_eq!("три", number_to_words(3));
    assert_eq!("четыре", number_to_words(4));
    assert_eq!("шесть", number_to_words(6));
    assert_eq!("семь", number_to_words(7));
    assert_eq!("восемь", number_to_words(8));
    assert_eq!("двенадцать", number_to_words(12));
    assert_eq!("тринадцать", number_to_words(13));
    assert_eq!("четырнадцать", number_to_words(14));
    assert_eq!("пятьнадцать", number_to_words(15));
    assert_eq!("шестьнадцать", number_to_words(16));
    assert_eq!("семтьнадцать", number_to_words(17));
    assert_eq!("восемьнадцать", number_to_words(18));
    assert_eq!("девятьнадцать", number_to_words(19));
}

#[test]
fn round_tens_are_single_words() {
    assert_eq!("тридцать", number_to_words(30));
    assert_eq!("сорок", number_to_words(40));
    assert_eq!("пятьдесят", number_to_words(50));
    assert_eq!("шестьдесят", number_to_words(60));
    assert_eq!("семьдесят", number_to_words(70));
    assert_eq!("восемьдесят", number_to_words(80));
    assert_eq!("девяносто", number_to_words(90));
}

#[test]
fn broken_tens_are_two_words() {
    assert_eq!("двадцать три", number_to_words(23));
    assert_eq!("сорок шесть", number_to_words(46));
    assert_eq!("пятьдесят пять", number_to_words(55));
    assert_eq!("девяносто семь", number_to_words(97));
}

#[test]
fn round_hundreds_are_single_words() {
    assert_eq!("двести", number_to_words(200));
    assert_eq!("триста", number_to_words(300));
    assert_eq!("четыреста", number_to_words(400));
    assert_eq!("пятьсот", number_to_words(500));
    assert_eq!("шестьсот", number_to_words(600));
    assert_eq!("семьсот", number_to_words(700));
    assert_eq!("восемьсот", number_to_words(800));
    assert_eq!("девятьсот", number_to_words(900));
}

#[test]
fn whole_thousands_are_single_phrases() {
    assert_eq!("две тысячи", number_to_words(2_000));
    assert_eq!("четыре тысячи", number_to_words(4_000));
    assert_eq!("пять тысяч", number_to_words(5_000));
    assert_eq!("девять тысяч", number_to_words(9_000));
    assert_eq!("одиннадцать тысяч", number_to_words(11_000));
    assert_eq!("девятьнадцать тысяч", number_to_words(19_000));
}

#[test]
fn whole_millions_are_single_phrases() {
    assert_eq!("три миллиона", number_to_words(3_000_000));
    assert_eq!("четыре миллиона", number_to_words(4_000_000));
    assert_eq!("пять миллионов", number_to_words(5_000_000));
    assert_eq!("одиннадцать миллионов", number_to_words(11_000_000));
    assert_eq!("девятьнадцать миллионов", number_to_words(19_000_000));
}

#[test]
fn whole_billions_are_single_phrases() {
    assert_eq!("один миллиард", number_to_words(1_000_000_000));
    assert_eq!("два миллиарда", number_to_words(2_000_000_000));
    assert_eq!("пять миллиардов", number_to_words(5_000_000_000));
    assert_eq!("одиннадцать миллиардов", number_to_words(11_000_000_000));
    assert_eq!("девятьнадцать миллиардов", number_to_words(19_000_000_000));
}

#[test]
fn bare_scale_suffix_follows_round_hundreds() {
    assert_eq!("триста тысяч", number_to_words(300_000));
    assert_eq!("сто двадцать миллионов", number_to_words(120_000_000));
    assert_eq!("двести миллиардов", number_to_words(200_000_000_000));
    assert_eq!("семь тысяч сто", number_to_words(7_100));
}

#[test]
fn no_stray_spaces_anywhere() {
    for n in [
        0i64,
        -1,
        5,
        10,
        21,
        -46,
        100,
        101,
        999,
        1_000,
        7_100,
        100_000,
        1_000_000,
        999_999_999,
        -991_991_401_280,
        999_999_999_999,
        1_000_000_000_000,
        -1_000_000_000_000,
        i64::MAX,
        i64::MIN,
    ] {
        let words = number_to_words(n);
        assert!(!words.starts_with(' '), "leading space for {}: {:?}", n, words);
        assert!(!words.ends_with(' '), "trailing space for {}: {:?}", n, words);
        assert!(!words.contains("  "), "doubled space for {}: {:?}", n, words);
    }
}

#[test]
fn digits_at_or_above_trillions_are_dropped() {
    assert_eq!("", number_to_words(1_000_000_000_000));
    assert_eq!("минус", number_to_words(-1_000_000_000_000));
    assert_eq!("пять", number_to_words(1_000_000_000_005));
    assert_eq!("одна тысяча", number_to_words(7_000_000_001_000));
    assert_eq!(
        "тридцать шесть миллиардов восемьсот пятьдесят четыре миллиона семьсот семьдесят пять тысяч восемьсот семь",
        number_to_words(i64::MAX)
    );
    assert_eq!(
        "минус тридцать шесть миллиардов восемьсот пятьдесят четыре миллиона семьсот семьдесят пять тысяч восемьсот восемь",
        number_to_words(i64::MIN)
    );
}

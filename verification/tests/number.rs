use temperature_converter::degrees::is_degrees;
use temperature_converter::number::parse_small_number;

fn words(alphabet: &[char], longest: usize) -> Vec<String> {
    let mut all: Vec<String> = vec![String::new()];
    let mut last: Vec<String> = vec![String::new()];
    for _ in 0..longest {
        let mut next: Vec<String> = Vec::new();
        for word in &last {
            for letter in alphabet {
                let mut longer = word.clone();
                longer.push(*letter);
                next.push(longer);
            }
        }
        all.extend(next.iter().cloned());
        last = next;
    }
    all
}

#[test]
fn small_numbers_are_read() {
    assert_eq!(parse_small_number("0"), Some(0));
    assert_eq!(parse_small_number("1"), Some(1));
    assert_eq!(parse_small_number("42"), Some(42));
    assert_eq!(parse_small_number("255"), Some(255));
}

#[test]
fn a_plus_sign_and_leading_zeros_are_accepted() {
    assert_eq!(parse_small_number("+7"), Some(7));
    assert_eq!(parse_small_number("007"), Some(7));
    assert_eq!(parse_small_number("+000255"), Some(255));
    assert_eq!(parse_small_number("00000000000000000000000000000000000012"), Some(12));
}

#[test]
fn numbers_above_255_are_refused() {
    assert_eq!(parse_small_number("256"), None);
    assert_eq!(parse_small_number("1000"), None);
    assert_eq!(parse_small_number("99999999999999999999999999999999"), None);
}

#[test]
fn what_is_no_whole_number_is_refused() {
    for text in ["", "+", "-", "-1", "-0", "1.0", "1 ", " 1", "one", "1_0", "++1", "1+", "\u{663}"] {
        assert_eq!(parse_small_number(text), None, "{:?}", text);
    }
}

#[test]
fn small_numbers_agree_with_the_standard_parser() {
    for n in 0..2000u32 {
        let text = n.to_string();
        assert_eq!(parse_small_number(&text), text.parse::<u8>().ok(), "{:?}", text);
    }
    for word in words(&['+', '-', '0', '2', '5', '6', ' '], 5) {
        assert_eq!(parse_small_number(&word), word.parse::<u8>().ok(), "{:?}", word);
    }
}

#[test]
fn plain_numbers_are_degrees() {
    for text in ["0", "32", "212", "-40", "+40", "98.6", "-0.5", "1.", ".5", "-.5", "+1.", "007"] {
        assert!(is_degrees(text), "{:?}", text);
    }
}

#[test]
fn numbers_with_an_exponent_are_degrees() {
    for text in ["1e3", "1E3", "1e+3", "1e-3", "1.5e10", ".5e1", "5.e1", "-2E-2", "1e0000000009"] {
        assert!(is_degrees(text), "{:?}", text);
    }
}

#[test]
fn the_three_words_are_degrees_in_any_case() {
    for text in ["inf", "INF", "Inf", "-inf", "+inf", "infinity", "Infinity", "-INFINITY", "nan", "NaN", "-nan", "+NAN"] {
        assert!(is_degrees(text), "{:?}", text);
    }
}

#[test]
fn what_is_no_number_is_refused_as_degrees() {
    for text in [
        "", "+", "-", ".", "-.", "e", "e5", ".e5", "1e", "1e+", "1e-", "1e5.", "1e5e5", "1..", "1.2.3",
        "..1", "--1", "+-1", "1-", "abc", "12abc", " 1", "1 ", "1\n", "1,5", "0x10", "1_000", "in",
        "infi", "infinit", "infinityy", "na", "nann", "i", "\u{131}nf", "\u{661}", "1f", "1.0f64",
    ] {
        assert!(!is_degrees(text), "{:?}", text);
    }
}

#[test]
fn degrees_agree_with_the_standard_parser() {
    for word in words(&['+', '-', '.', 'e', 'E', '0', '7'], 6) {
        assert_eq!(is_degrees(&word), word.parse::<f64>().is_ok(), "{:?}", word);
    }
    for word in words(&['i', 'n', 'f', 'a', 'N', 'I', '-', '1'], 4) {
        assert_eq!(is_degrees(&word), word.parse::<f64>().is_ok(), "{:?}", word);
    }
    for sign in ["", "+", "-"] {
        for word in words(&['i', 'n', 'f', 't', 'y', 'Y'], 2) {
            let text = format!("{}infin{}", sign, word);
            assert_eq!(is_degrees(&text), text.parse::<f64>().is_ok(), "{:?}", text);
            let text = format!("{}{}finity", sign, word);
            assert_eq!(is_degrees(&text), text.parse::<f64>().is_ok(), "{:?}", text);
        }
    }
}

#[test]
fn degrees_agree_with_the_standard_parser_on_other_letters() {
    for first in 0..0x250u32 {
        if let Some(letter) = char::from_u32(first) {
            for text in [
                format!("{}", letter),
                format!("{}nf", letter),
                format!("i{}f", letter),
                format!("na{}", letter),
                format!("1{}1", letter),
                format!("{}1", letter),
                format!("1{}", letter),
                format!("infinit{}", letter),
            ] {
                assert_eq!(is_degrees(&text), text.parse::<f64>().is_ok(), "{:?}", text);
            }
        }
    }
}

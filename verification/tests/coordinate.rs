use input_relay::coordinate::Coordinate;

fn accepted(text: &str) -> bool {
    match Coordinate::parse(text) {
        Some(coordinate) => {
            assert_eq!(coordinate.as_str(), text);
            true
        }
        None => false,
    }
}

#[test]
fn parse_accepts_integers() {
    assert!(accepted("0"));
    assert!(accepted("7"));
    assert!(accepted("120"));
    assert!(accepted("-0"));
    assert!(accepted("-15"));
    assert!(accepted("18446744073709551616"));
}

#[test]
fn parse_accepts_fractions() {
    assert!(accepted("120.5"));
    assert!(accepted("80.0"));
    assert!(accepted("0.001"));
    assert!(accepted("-0.0"));
    assert!(accepted("-12.25"));
}

#[test]
fn parse_accepts_exponents() {
    assert!(accepted("1e21"));
    assert!(accepted("1E21"));
    assert!(accepted("1e-7"));
    assert!(accepted("1.5e+10"));
    assert!(accepted("-2.5E-3"));
    assert!(accepted("0e0"));
}

#[test]
fn parse_refuses_empty_and_sign_only() {
    assert!(!accepted(""));
    assert!(!accepted("-"));
    assert!(!accepted("+"));
    assert!(!accepted("+1"));
    assert!(!accepted("--1"));
}

#[test]
fn parse_refuses_leading_zeros() {
    assert!(!accepted("01"));
    assert!(!accepted("00"));
    assert!(!accepted("-01"));
    assert!(!accepted("007.5"));
}

#[test]
fn parse_refuses_incomplete_fraction() {
    assert!(!accepted("1."));
    assert!(!accepted(".5"));
    assert!(!accepted("-.5"));
    assert!(!accepted("1.e5"));
    assert!(!accepted("1..5"));
}

#[test]
fn parse_refuses_incomplete_exponent() {
    assert!(!accepted("1e"));
    assert!(!accepted("1e+"));
    assert!(!accepted("1e-"));
    assert!(!accepted("1E"));
    assert!(!accepted("e5"));
    assert!(!accepted("1e5e5"));
    assert!(!accepted("1e5.5"));
}

#[test]
fn parse_refuses_surrounding_text() {
    assert!(!accepted(" 1"));
    assert!(!accepted("1 "));
    assert!(!accepted("1,5"));
    assert!(!accepted("1.5x"));
    assert!(!accepted("0x10"));
    assert!(!accepted("1\n"));
}

#[test]
fn parse_refuses_words() {
    assert!(!accepted("null"));
    assert!(!accepted("NaN"));
    assert!(!accepted("inf"));
    assert!(!accepted("Infinity"));
    assert!(!accepted("true"));
}

#[test]
fn parse_refuses_other_scripts() {
    assert!(!accepted("\u{0661}\u{0662}"));
    assert!(!accepted("1\u{00e9}"));
    assert!(!accepted("\u{ff11}"));
    assert!(!accepted("1\u{2212}2"));
}

#[test]
fn parse_takes_what_the_serializer_writes() {
    let samples: [f64; 10] = [
        0.0, -0.0, 120.5, 80.0, 1e21, 1e-7, -3.25e300, 1920.0, 0.1, 123456789.125,
    ];
    for sample in samples {
        let text = serde_json::to_string(&sample).unwrap();
        assert!(accepted(&text), "{}", text);
        let back: f64 = text.parse().unwrap();
        assert_eq!(back, sample);
    }
}

#[test]
fn parse_refuses_what_stands_for_no_number() {
    let text = serde_json::to_string(&f64::NAN).unwrap();
    assert_eq!(text, "null");
    assert!(!accepted(&text));
    let text = serde_json::to_string(&f64::INFINITY).unwrap();
    assert!(!accepted(&text));
}

#[test]
fn clone_keeps_the_literal() {
    let coordinate = Coordinate::parse("-12.25").unwrap();
    let copy = coordinate.clone();
    assert_eq!(copy.as_str(), "-12.25");
    assert_eq!(coordinate.as_str(), "-12.25");
}

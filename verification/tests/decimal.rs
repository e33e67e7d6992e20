use moldyn::io::decimal::classify;
use moldyn::io::decimal::NumberClass;
use moldyn::io::input::Number;

fn by_value(text: &str) -> Option<NumberClass> {
    let value = match text {
        ".inf" | ".Inf" | ".INF" | "+.inf" | "+.Inf" | "+.INF" => Some(f64::INFINITY),
        "-.inf" | "-.Inf" | "-.INF" => Some(f64::NEG_INFINITY),
        ".nan" | "NaN" | ".NAN" => Some(f64::NAN),
        other => other.parse::<f64>().ok(),
    };
    value.map(|value| {
        if value.is_nan() {
            NumberClass::NotANumber
        } else if value > 0.0 {
            NumberClass::Positive
        } else if value < 0.0 {
            NumberClass::Negative
        } else {
            NumberClass::Zero
        }
    })
}

#[test]
fn numerals_in_digits() {
    assert_eq!(classify("1"), Some(NumberClass::Positive));
    assert_eq!(classify("0.001"), Some(NumberClass::Positive));
    assert_eq!(classify("+2.5"), Some(NumberClass::Positive));
    assert_eq!(classify("-2.5"), Some(NumberClass::Negative));
    assert_eq!(classify("5."), Some(NumberClass::Positive));
    assert_eq!(classify(".5"), Some(NumberClass::Positive));
    assert_eq!(classify("1e5"), Some(NumberClass::Positive));
    assert_eq!(classify("1.66053907e-27"), Some(NumberClass::Positive));
    assert_eq!(classify("-1.5E+3"), Some(NumberClass::Negative));
    assert_eq!(classify("0"), Some(NumberClass::Zero));
    assert_eq!(classify("-0.0"), Some(NumberClass::Zero));
    assert_eq!(classify("+000.000e9"), Some(NumberClass::Zero));
    assert_eq!(classify("0e1"), Some(NumberClass::Zero));
    assert_eq!(classify("0.0001"), Some(NumberClass::Positive));
    assert_eq!(classify("0e5"), Some(NumberClass::Zero));
}

#[test]
fn numerals_in_words() {
    assert_eq!(classify("inf"), Some(NumberClass::Positive));
    assert_eq!(classify("+Infinity"), Some(NumberClass::Positive));
    assert_eq!(classify("-INF"), Some(NumberClass::Negative));
    assert_eq!(classify(".inf"), Some(NumberClass::Positive));
    assert_eq!(classify("-.Inf"), Some(NumberClass::Negative));
    assert_eq!(classify("+.INF"), Some(NumberClass::Positive));
    assert_eq!(classify("nan"), Some(NumberClass::NotANumber));
    assert_eq!(classify("NaN"), Some(NumberClass::NotANumber));
    assert_eq!(classify("-nan"), Some(NumberClass::NotANumber));
    assert_eq!(classify(".nan"), Some(NumberClass::NotANumber));
    assert_eq!(classify(".NAN"), Some(NumberClass::NotANumber));
}

#[test]
fn texts_that_are_no_numerals() {
    for text in [
        "", "+", "-", ".", "+.", "e5", ".e5", "1e", "1e+", "1e-", "1.2.3", "--1", "+-1", "1e5.0",
        "1e5e5", " 1", "1 ", "1_000", "0x10", "1,5", "one", "no", "in", "infinit", "infinityy",
        "na", "nann", ".NaN", "-.nan", "+.nan", ".iNf", "..inf", "1f", "1.0f64", "\u{661}",
        "\u{ff11}", "1e\u{663}", "12\u{e9}", "1e+-5", "+e5", "- 1",
    ] {
        assert_eq!(classify(text), None, "{:?}", text);
    }
}

#[test]
fn numerals_are_what_the_machine_reads() {
    let heads = ["", "+", "-", ".", "0", "7", "00", "12", "e", "i", "n"];
    let middles = ["", ".", "0", "5", ".0", ".5", "0.", "e", "E", "nf", "an", "inf"];
    let tails = ["", "e5", "E-3", "e+0", "e", "0", "9", ".", "inity", "n", "-", " "];
    for head in heads {
        for middle in middles {
            for tail in tails {
                let text = format!("{}{}{}", head, middle, tail);
                assert_eq!(classify(&text), by_value(&text), "{:?}", text);
            }
        }
    }
    for text in [
        "inf", "INF", "Inf", "iNf", "infinity", "INFINITY", "InFiNiTy", "+inf", "-infinity", "nan",
        "NAN", "nAn", "+nan", "-NaN", ".inf", ".Inf", ".INF", "+.inf", "-.INF", ".nan", ".NAN",
        "NaN", ".NaN", "-.nan", "3.4", "39.948", "6.0221366516752e26", "1e-10", "-1e-9",
    ] {
        assert_eq!(classify(text), by_value(text), "{:?}", text);
    }
}

#[test]
fn class_goes_by_the_notation() {
    assert_eq!(classify("1e-400"), Some(NumberClass::Positive));
    assert_eq!(classify("-1e-400"), Some(NumberClass::Negative));
    assert_eq!(classify("1e400"), Some(NumberClass::Positive));
    assert_eq!(classify("0e400"), Some(NumberClass::Zero));
}

#[test]
fn class_of_a_number() {
    assert_eq!(Number::Integer(3).class(), Some(NumberClass::Positive));
    assert_eq!(Number::Integer(0).class(), Some(NumberClass::Zero));
    assert_eq!(Number::Integer(-3).class(), Some(NumberClass::Negative));
    assert_eq!(Number::Integer(i64::MIN).class(), Some(NumberClass::Negative));
    assert_eq!(Number::Decimal("2.5".to_string()).class(), Some(NumberClass::Positive));
    assert_eq!(Number::Decimal("-0".to_string()).class(), Some(NumberClass::Zero));
    assert_eq!(Number::Decimal("two".to_string()).class(), None);
    assert!(Number::Integer(1).is_positive());
    assert!(!Number::Integer(0).is_positive());
    assert!(Number::Integer(0).is_not_negative());
    assert!(!Number::Integer(-1).is_not_negative());
    assert!(Number::Decimal("1e-3".to_string()).is_positive());
    assert!(!Number::Decimal("0.0".to_string()).is_positive());
    assert!(Number::Decimal("0.0".to_string()).is_not_negative());
    assert!(!Number::Decimal("nan".to_string()).is_not_negative());
    assert!(!Number::Decimal("-1".to_string()).is_not_negative());
    assert!(!Number::Decimal("x".to_string()).is_positive());
    assert!(!Number::Decimal("x".to_string()).is_not_negative());
}

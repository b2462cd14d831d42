use gurufocus_api::decimal::{signed_text, unsigned_text};
use gurufocus_api::hexnum::HexNum;
use gurufocus_api::scalar::JsonScalar;
use gurufocus_api::strnum::{is_float_literal, numeric_reading, NumericReading};

fn scalar_of(v: &serde_json::Value) -> JsonScalar {
    match v {
        serde_json::Value::Null => JsonScalar::Null,
        serde_json::Value::String(s) => JsonScalar::Text(s.clone()),
        serde_json::Value::Number(n) => {
            if let Some(u) = n.as_u64() {
                JsonScalar::Unsigned(u)
            } else if let Some(i) = n.as_i64() {
                JsonScalar::Signed(i)
            } else {
                JsonScalar::Float
            }
        }
        _ => panic!("not a scalar"),
    }
}

fn text(s: &str) -> JsonScalar {
    JsonScalar::Text(s.to_string())
}

#[test]
fn convert_hex_num() {
    let str_num = "2".to_string();
    let num: f64 = str_num.parse().unwrap();
    assert_eq!(num, 2.0);

    let json: serde_json::Value =
        serde_json::from_str("{\"x\":\"1a\",\"y\":3,\"z\":null}").unwrap();
    let x = HexNum::from_scalar(&scalar_of(&json["x"])).unwrap();
    let y = HexNum::from_scalar(&scalar_of(&json["y"])).unwrap();
    let z = HexNum::from_scalar(&scalar_of(&json["z"])).unwrap();
    assert_eq!(&x.0, "1a");
    assert_eq!(&y.0, "3");
    assert_eq!(&z.0, "0");
}

#[test]
fn hex_num_of_other_scalars() {
    assert_eq!(HexNum::from_scalar(&JsonScalar::Signed(-5)).unwrap().0, "-5");
    assert_eq!(
        HexNum::from_scalar(&JsonScalar::Unsigned(u64::MAX)).unwrap().text(),
        "18446744073709551615"
    );
    assert!(HexNum::from_scalar(&JsonScalar::Float).is_none());
    assert_eq!(HexNum::default().0, "0");
}

#[test]
fn decimal_texts() {
    assert_eq!(unsigned_text(0), "0");
    assert_eq!(unsigned_text(10), "10");
    assert_eq!(unsigned_text(u64::MAX), "18446744073709551615");
    assert_eq!(signed_text(0), "0");
    assert_eq!(signed_text(-7), "-7");
    assert_eq!(signed_text(i64::MIN), "-9223372036854775808");
    assert_eq!(signed_text(i64::MAX), "9223372036854775807");
}

#[test]
fn empty_text_and_null_read_as_zero() {
    assert_eq!(numeric_reading(&text("")), NumericReading::Zero);
    assert_eq!(numeric_reading(&JsonScalar::Null), NumericReading::Zero);
}

#[test]
fn numbers_read_as_sent() {
    assert_eq!(
        numeric_reading(&JsonScalar::Unsigned(3)),
        NumericReading::Unsigned(3)
    );
    assert_eq!(
        numeric_reading(&JsonScalar::Signed(-42)),
        NumericReading::Signed(-42)
    );
    assert_eq!(numeric_reading(&JsonScalar::Float), NumericReading::Float);
}

#[test]
fn number_texts_read_as_literals() {
    assert_eq!(numeric_reading(&text("3.4")), NumericReading::Literal);
    assert_eq!(numeric_reading(&text("42")), NumericReading::Literal);
    assert_eq!("3.4".parse::<f64>().unwrap(), 3.4);
    assert_eq!("42".parse::<f64>().unwrap(), 42.0);
}

#[test]
fn error_text_reads_as_not_a_number() {
    assert_eq!(
        numeric_reading(&text("Negative Tangible Equity")),
        NumericReading::NotANumber
    );
    assert_eq!(numeric_reading(&text("N/A")), NumericReading::NotANumber);
}

#[test]
fn float_literals_agree_with_rust_parser() {
    let cases = [
        "0", "3.4", "-3.14", "+7", "2.5E10", "2.5e10", "2.5E-10", "1e+5", "5.", ".5", "inf",
        "-inf", "+infinity", "Infinity", "NaN", "nan", "-NAN", "iNf", "", ".", "-", "+", "e5",
        "1e", "1e+", "1.2.3", " 1", "1 ", "1,5", "0x10", "infinit", "infinityy", "--1", "+-1",
        "1e5.5", "..5", "5..", "1_000", "\u{661}", "Negative Tangible Equity", "1E-", ".e1", "0.e1",
    ];
    for c in cases {
        assert_eq!(is_float_literal(c), c.parse::<f64>().is_ok(), "{:?}", c);
    }
}

//! Exact-value tests of the scalar text conversions and the error taxonomy.

use xpath_reader::FromXmlError;
use xpath_reader::XpathError;
use xpath_reader::scalar::bool_from_text;
use xpath_reader::scalar::i16_from_text;
use xpath_reader::scalar::i32_from_text;
use xpath_reader::scalar::i64_from_text;
use xpath_reader::scalar::i8_from_text;
use xpath_reader::scalar::u16_from_text;
use xpath_reader::scalar::u32_from_text;
use xpath_reader::scalar::u64_from_text;
use xpath_reader::scalar::u8_from_text;

#[test]
fn unsigned_text_parses_exact_values() {
    assert_eq!(u8_from_text("42").unwrap(), 42u8);
    assert_eq!(u8_from_text("0").unwrap(), 0u8);
    assert_eq!(u8_from_text("255").unwrap(), 255u8);
    assert_eq!(u8_from_text("+42").unwrap(), 42u8);
    assert_eq!(u16_from_text("65535").unwrap(), 65535u16);
    assert_eq!(u32_from_text("4294967295").unwrap(), 4294967295u32);
    assert_eq!(u64_from_text("18446744073709551615").unwrap(), 18446744073709551615u64);
}

#[test]
fn unsigned_text_rejects_out_of_range_and_malformed() {
    assert!(matches!(u8_from_text("256"), Err(XpathError::FromXmlError(_))));
    assert!(matches!(u8_from_text("-1"), Err(XpathError::FromXmlError(_))));
    assert!(matches!(u8_from_text(""), Err(XpathError::FromXmlError(_))));
    assert!(matches!(u8_from_text("+"), Err(XpathError::FromXmlError(_))));
    assert!(matches!(u8_from_text("4 2"), Err(XpathError::FromXmlError(_))));
    assert!(matches!(u8_from_text("12a"), Err(XpathError::FromXmlError(_))));
    assert!(matches!(
        u64_from_text("18446744073709551616"),
        Err(XpathError::FromXmlError(_))
    ));
}

#[test]
fn signed_text_parses_exact_values() {
    assert_eq!(i8_from_text("42").unwrap(), 42i8);
    assert_eq!(i8_from_text("-128").unwrap(), -128i8);
    assert_eq!(i8_from_text("127").unwrap(), 127i8);
    assert_eq!(i8_from_text("+7").unwrap(), 7i8);
    assert_eq!(i8_from_text("-0").unwrap(), 0i8);
    assert_eq!(i16_from_text("-32768").unwrap(), -32768i16);
    assert_eq!(i32_from_text("-2147483648").unwrap(), -2147483648i32);
    assert_eq!(i64_from_text("-9223372036854775808").unwrap(), i64::MIN);
    assert_eq!(i64_from_text("9223372036854775807").unwrap(), i64::MAX);
}

#[test]
fn signed_text_rejects_out_of_range_and_malformed() {
    assert!(matches!(i8_from_text("128"), Err(XpathError::FromXmlError(_))));
    assert!(matches!(i8_from_text("-129"), Err(XpathError::FromXmlError(_))));
    assert!(matches!(i8_from_text(""), Err(XpathError::FromXmlError(_))));
    assert!(matches!(i8_from_text("-"), Err(XpathError::FromXmlError(_))));
    assert!(matches!(i8_from_text("--1"), Err(XpathError::FromXmlError(_))));
    assert!(matches!(
        i64_from_text("-9223372036854775809"),
        Err(XpathError::FromXmlError(_))
    ));
    assert!(matches!(
        i64_from_text("9223372036854775808"),
        Err(XpathError::FromXmlError(_))
    ));
}

#[test]
fn bool_text_is_exactly_true_or_false() {
    assert_eq!(bool_from_text("true").unwrap(), true);
    assert_eq!(bool_from_text("false").unwrap(), false);
    assert!(matches!(bool_from_text("True"), Err(XpathError::FromXmlError(_))));
    assert!(matches!(bool_from_text("1"), Err(XpathError::FromXmlError(_))));
    assert!(matches!(bool_from_text(""), Err(XpathError::FromXmlError(_))));
    assert!(matches!(bool_from_text(" true"), Err(XpathError::FromXmlError(_))));
}

#[test]
fn error_messages_name_what_failed() {
    let not_found = XpathError::NodeNotFound("//title".to_string());
    assert_eq!(
        not_found.message(),
        "XPath expression '//title' failed to find a node.".to_string()
    );

    let missing = XpathError::MissingValue("the artist name".to_string());
    assert_eq!(
        missing.message(),
        "A required value was missing from the document: the artist name".to_string()
    );

    let conversion = XpathError::FromXmlError("bad digit".to_string());
    assert_eq!(
        conversion.message(),
        "Conversion from XML failed: bad digit".to_string()
    );

    let plain = XpathError::Message("just words".to_string());
    assert_eq!(plain.message(), "just words".to_string());
}

#[test]
fn from_xml_error_unwraps_to_the_taxonomy() {
    let inner = XpathError::NodeNotFound("//a".to_string());
    let wrapped = FromXmlError::from(inner.clone());
    assert_eq!(wrapped.message(), inner.message());
    assert_eq!(wrapped.into_xpath_error(), inner);

    let other = FromXmlError::Other(XpathError::Message("m".to_string()));
    assert_eq!(
        other.description(),
        "There was an error converting this type from XML."
    );
}

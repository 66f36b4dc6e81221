use ftpd_conf::conf::de::{Deserializer, Error};
use ftpd_conf::conf::number::int_error;
use ftpd_conf::conf::parse::{OkIter, Parser};
use ftpd_conf::conf::value::{bool_of, char_or_str, truth, CharOrStr};

fn value(text: &str) -> Deserializer<Parser<OkIter<String>>> {
    Deserializer::new(Parser::from_str(&format!("key={}", text)))
}

#[test]
fn boolean_words_for_true() {
    for word in ["TRUE", "yes", "1", "true", "Yes", "YES", "tRuE"] {
        assert!(bool_of(word), "{}", word);
        assert!(value(word).deserialize_bool().unwrap(), "{}", word);
    }
}

#[test]
fn boolean_words_for_false() {
    for word in ["FALSE", "no", "0", "false", "No"] {
        assert!(!bool_of(word), "{}", word);
        assert!(!value(word).deserialize_bool().unwrap(), "{}", word);
    }
}

#[test]
fn any_other_word_is_false() {
    for word in ["", "maybe", "2", "on", "truee", " yes", "y", "t", "01"] {
        assert!(!bool_of(word), "{:?}", word);
    }
    assert!(!value("maybe").deserialize_bool().unwrap());
    assert!(!value("").deserialize_bool().unwrap());
}

#[test]
fn truth_reads_lower_case_only() {
    assert!(truth("true"));
    assert!(truth("yes"));
    assert!(truth("1"));
    assert!(!truth("TRUE"));
    assert!(!truth("Yes"));
    assert!(!truth("false"));
    assert!(!truth("no"));
    assert!(!truth("0"));
    assert!(!truth(""));
}

#[test]
fn boolean_at_the_end_is_invalid_state() {
    let mut de = Deserializer::new(Parser::from_str(""));
    assert!(matches!(de.deserialize_bool(), Err(Error::InvalidState)));
}

#[test]
fn boolean_consumes_the_value() {
    let mut de = Deserializer::new(Parser::from_str("a=yes\nb=no"));
    assert!(de.deserialize_bool().unwrap());
    assert!(!de.deserialize_bool().unwrap());
    assert!(de.assert_eof().is_ok());
}

#[test]
fn unsigned_integers() {
    assert_eq!(value("21").deserialize_u32().unwrap(), 21);
    assert_eq!(value("0").deserialize_u8().unwrap(), 0);
    assert_eq!(value("255").deserialize_u8().unwrap(), 255);
    assert_eq!(value("65535").deserialize_u16().unwrap(), 65535);
    assert_eq!(value("4294967295").deserialize_u32().unwrap(), 4294967295);
    assert_eq!(value("18446744073709551615").deserialize_u64().unwrap(), u64::MAX);
    assert_eq!(value("+7").deserialize_u8().unwrap(), 7);
    assert_eq!(value("007").deserialize_u8().unwrap(), 7);
    assert_eq!(value("0000000000000000000000255").deserialize_u8().unwrap(), 255);
}

#[test]
fn signed_integers() {
    assert_eq!(value("-128").deserialize_i8().unwrap(), -128);
    assert_eq!(value("127").deserialize_i8().unwrap(), 127);
    assert_eq!(value("-32768").deserialize_i16().unwrap(), -32768);
    assert_eq!(value("-2147483648").deserialize_i32().unwrap(), i32::MIN);
    assert_eq!(value("2147483647").deserialize_i32().unwrap(), i32::MAX);
    assert_eq!(value("-9223372036854775808").deserialize_i64().unwrap(), i64::MIN);
    assert_eq!(value("9223372036854775807").deserialize_i64().unwrap(), i64::MAX);
    assert_eq!(value("+5").deserialize_i32().unwrap(), 5);
    assert_eq!(value("-0").deserialize_i32().unwrap(), 0);
    assert_eq!(value("-007").deserialize_i16().unwrap(), -7);
}

#[test]
fn integers_out_of_range_are_refused() {
    assert!(matches!(value("256").deserialize_u8(), Err(Error::Custom(_))));
    assert!(matches!(value("65536").deserialize_u16(), Err(Error::Custom(_))));
    assert!(matches!(value("4294967296").deserialize_u32(), Err(Error::Custom(_))));
    assert!(matches!(value("18446744073709551616").deserialize_u64(), Err(Error::Custom(_))));
    assert!(matches!(value("128").deserialize_i8(), Err(Error::Custom(_))));
    assert!(matches!(value("-129").deserialize_i8(), Err(Error::Custom(_))));
    assert!(matches!(value("32768").deserialize_i16(), Err(Error::Custom(_))));
    assert!(matches!(value("-2147483649").deserialize_i32(), Err(Error::Custom(_))));
    assert!(matches!(value("9223372036854775808").deserialize_i64(), Err(Error::Custom(_))));
}

#[test]
fn integers_that_are_no_numbers_are_refused() {
    for text in ["", "abc", "1.5", "1 2", "0x10", "1_000", "+", "-", "++1", "+-1", "1-", "٣"] {
        assert!(matches!(value(text).deserialize_u32(), Err(Error::Custom(_))), "{:?}", text);
        assert!(matches!(value(text).deserialize_i32(), Err(Error::Custom(_))), "{:?}", text);
    }
}

#[test]
fn unsigned_integers_take_no_minus() {
    assert!(matches!(value("-1").deserialize_u8(), Err(Error::Custom(_))));
    assert!(matches!(value("-0").deserialize_u16(), Err(Error::Custom(_))));
    assert!(matches!(value("-5").deserialize_u32(), Err(Error::Custom(_))));
    assert!(matches!(value("-5").deserialize_u64(), Err(Error::Custom(_))));
}

#[test]
fn integer_error_names_the_value_and_carries_the_words_of_std() {
    match value("abc").deserialize_u32() {
        Err(Error::Custom(msg)) => {
            assert_eq!(msg, format!("abc: {}", "abc".parse::<u32>().unwrap_err()));
            assert_eq!(msg, "abc: invalid digit found in string");
        },
        other => panic!("not a message: {:?}", other),
    }
    match value("300").deserialize_u8() {
        Err(Error::Custom(msg)) => {
            assert_eq!(msg, format!("300: {}", "300".parse::<u8>().unwrap_err()));
            assert!(msg.starts_with("300: "));
        },
        other => panic!("not a message: {:?}", other),
    }
    match value("-129").deserialize_i8() {
        Err(Error::Custom(msg)) => {
            assert_eq!(msg, format!("-129: {}", "-129".parse::<i8>().unwrap_err()))
        },
        other => panic!("not a message: {:?}", other),
    }
    match value("").deserialize_i64() {
        Err(Error::Custom(msg)) => {
            assert_eq!(msg, format!(": {}", "".parse::<i64>().unwrap_err()))
        },
        other => panic!("not a message: {:?}", other),
    }
}

#[test]
fn every_width_names_the_refused_value() {
    let text = "12x";
    let expected = format!("12x: {}", "12x".parse::<u32>().unwrap_err());
    let messages = [
        value(text).deserialize_i8().map(|_| ()),
        value(text).deserialize_i16().map(|_| ()),
        value(text).deserialize_i32().map(|_| ()),
        value(text).deserialize_i64().map(|_| ()),
        value(text).deserialize_u8().map(|_| ()),
        value(text).deserialize_u16().map(|_| ()),
        value(text).deserialize_u32().map(|_| ()),
        value(text).deserialize_u64().map(|_| ()),
    ];
    for message in messages {
        match message {
            Err(Error::Custom(msg)) => assert_eq!(msg, expected),
            other => panic!("not a message: {:?}", other),
        }
    }
}

#[test]
fn int_error_builds_the_message_from_the_value() {
    let failure = "k9".parse::<u16>().unwrap_err();
    let words = failure.to_string();
    match int_error("k9", failure) {
        Error::Custom(msg) => assert_eq!(msg, format!("k9: {}", words)),
        other => panic!("not a message: {:?}", other),
    }
}

#[test]
fn refused_integer_is_consumed() {
    let mut de = Deserializer::new(Parser::from_str("a=x\nb=2"));
    assert!(matches!(de.deserialize_u32(), Err(Error::Custom(_))));
    assert_eq!(de.next_key().unwrap(), "b");
    assert_eq!(de.deserialize_u32().unwrap(), 2);
}

#[test]
fn integer_at_the_end_is_unexpected_eof() {
    let mut de = Deserializer::new(Parser::from_str(""));
    assert!(matches!(de.deserialize_u32(), Err(Error::UnexpectedEOF)));
    assert!(matches!(de.deserialize_i64(), Err(Error::UnexpectedEOF)));
}

#[test]
fn single_character_is_a_char() {
    assert!(matches!(char_or_str("x".to_string()), CharOrStr::Char('x')));
    assert!(matches!(char_or_str("é".to_string()), CharOrStr::Char('é')));
    assert!(matches!(char_or_str("越".to_string()), CharOrStr::Char('越')));
    assert!(matches!(value("x").deserialize_char(), Ok(CharOrStr::Char('x'))));
}

#[test]
fn longer_text_stays_a_string() {
    match char_or_str("xy".to_string()) {
        CharOrStr::Str(s) => assert_eq!(s, "xy"),
        other => panic!("not a string: {:?}", other),
    }
    match value("xy").deserialize_char() {
        Ok(CharOrStr::Str(s)) => assert_eq!(s, "xy"),
        other => panic!("not a string: {:?}", other),
    }
}

#[test]
fn empty_text_stays_a_string() {
    match char_or_str(String::new()) {
        CharOrStr::Str(s) => assert_eq!(s, ""),
        other => panic!("not a string: {:?}", other),
    }
    match value("").deserialize_char() {
        Ok(CharOrStr::Str(s)) => assert_eq!(s, ""),
        other => panic!("not a string: {:?}", other),
    }
}

#[test]
fn char_at_the_end_is_unexpected_eof() {
    let mut de = Deserializer::new(Parser::from_str(""));
    assert!(matches!(de.deserialize_char(), Err(Error::UnexpectedEOF)));
}

#[test]
fn strings_come_verbatim() {
    assert_eq!(value("hello  world").deserialize_str().unwrap(), "hello  world");
    assert_eq!(value("Hello").deserialize_string().unwrap(), "Hello");
    assert_eq!(value("a=b").deserialize_identifier().unwrap(), "a=b");
    assert_eq!(value("").deserialize_string().unwrap(), "");
}

#[test]
fn string_at_the_end_is_unexpected_eof() {
    let mut de = Deserializer::new(Parser::from_str(""));
    assert!(matches!(de.deserialize_str(), Err(Error::UnexpectedEOF)));
    assert!(matches!(de.deserialize_string(), Err(Error::UnexpectedEOF)));
    assert!(matches!(de.deserialize_identifier(), Err(Error::UnexpectedEOF)));
}

#[test]
fn enum_variant_is_the_value_itself() {
    assert_eq!(value("Passive").deserialize_enum().unwrap(), "Passive");
    let mut de = Deserializer::new(Parser::from_str(""));
    assert!(matches!(de.deserialize_enum(), Err(Error::InvalidState)));
}

#[test]
fn untyped_value_is_the_string() {
    assert_eq!(value("anything").deserialize_any().unwrap(), "anything");
    let mut de = Deserializer::new(Parser::from_str(""));
    assert!(matches!(de.deserialize_any(), Err(Error::InvalidState)));
}

#[test]
fn nested_shapes_are_refused() {
    let mut de = value("1,2,3");
    assert!(matches!(de.deserialize_nested(), Err(Error::InvalidState)));
    assert_eq!(de.next_key().unwrap(), "key");
}

#[test]
fn pending_error_wins_over_the_shape() {
    let text = "justsometext";
    assert!(matches!(Deserializer::new(Parser::from_str(text)).deserialize_bool(), Err(Error::Custom(_))));
    assert!(matches!(Deserializer::new(Parser::from_str(text)).deserialize_u32(), Err(Error::Custom(_))));
    assert!(matches!(Deserializer::new(Parser::from_str(text)).deserialize_char(), Err(Error::Custom(_))));
    assert!(matches!(Deserializer::new(Parser::from_str(text)).deserialize_enum(), Err(Error::Custom(_))));
    assert!(matches!(Deserializer::new(Parser::from_str(text)).deserialize_any(), Err(Error::Custom(_))));
}

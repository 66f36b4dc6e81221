use ftpd_conf::conf::error::{Error as ConfError, Message};
use ftpd_conf::conf::de::Error as DeError;
use ftpd_conf::conf::parse::{Error as ParseError, OkIter, SyntaxError};
use ftpd_conf::conf::result::{ResultIterExt, ResultOptionExt};
use ftpd_conf::conf::void::{ResultVoidErrExt, ResultVoidExt, Void};
use ftpd_conf::defaults::{
    accept_timeout_default, connect_timeout_default, data_connection_timeout_default,
    download_max_rate_default, idle_session_timeout_default, listen_port_default,
    local_umask_default, max_clients_default, max_per_ip_default, pasv_enable_default,
    port_enable_default, upload_max_rate_default,
};
use ftpd_conf::tool::Trim;
use std::collections::VecDeque;

#[test]
fn option_of_result_inverts() {
    let some_ok: Option<Result<u8, String>> = Some(Ok(1));
    let some_err: Option<Result<u8, String>> = Some(Err("e".to_string()));
    let none: Option<Result<u8, String>> = None;
    assert_eq!(some_ok.invert(), Ok(Some(1)));
    assert_eq!(some_err.invert(), Err("e".to_string()));
    assert_eq!(none.invert(), Ok(None));
}

#[test]
fn result_of_option_inverts() {
    let ok_some: Result<Option<u8>, String> = Ok(Some(1));
    let ok_none: Result<Option<u8>, String> = Ok(None);
    let err: Result<Option<u8>, String> = Err("e".to_string());
    assert_eq!(ok_some.invert(), Some(Ok(1)));
    assert_eq!(ok_none.invert(), None);
    assert_eq!(err.invert(), Some(Err("e".to_string())));
}

#[test]
fn inverting_twice_gives_the_value_back() {
    let values: Vec<Option<Result<u8, u8>>> = vec![Some(Ok(1)), Some(Err(2)), None];
    for v in values {
        assert_eq!(v.invert().invert(), v);
    }
}

#[test]
fn queue_of_results_hands_out_front_to_back() {
    let mut source: VecDeque<Result<u8, String>> = VecDeque::new();
    source.push_back(Ok(1));
    source.push_back(Err("e".to_string()));
    source.push_back(Ok(3));
    assert_eq!(source.next_invert(), Ok(Some(1)));
    assert_eq!(source.next_invert(), Err("e".to_string()));
    assert_eq!(source.next_invert(), Ok(Some(3)));
    assert_eq!(source.next_invert(), Ok(None));
    assert_eq!(source.next_invert(), Ok(None));
}

#[test]
fn ok_iter_never_fails() {
    let mut items: VecDeque<u8> = VecDeque::new();
    items.push_back(5);
    items.push_back(6);
    let mut source = OkIter::new(items);
    assert_eq!(source.next_invert().void_unwrap(), Some(5));
    assert_eq!(source.next_invert().void_unwrap(), Some(6));
    assert_eq!(source.next_invert().void_unwrap(), None);
}

#[test]
fn void_unwrap_gives_the_value() {
    let r: Result<u32, Void> = Ok(21);
    assert_eq!(r.void_unwrap(), 21);
}

#[test]
fn void_unwrap_err_gives_the_error() {
    let r: Result<Void, String> = Err("e".to_string());
    assert_eq!(r.void_unwrap_err(), "e");
}

#[test]
fn defaults_are_as_documented() {
    assert!(pasv_enable_default());
    assert!(port_enable_default());
    assert_eq!(local_umask_default(), "077");
    assert_eq!(listen_port_default(), 21);
    assert_eq!(max_clients_default(), 3);
    assert_eq!(max_per_ip_default(), 2);
    assert_eq!(accept_timeout_default(), 60);
    assert_eq!(connect_timeout_default(), 100);
    assert_eq!(idle_session_timeout_default(), 300);
    assert_eq!(data_connection_timeout_default(), 900);
    assert_eq!(upload_max_rate_default(), 102400);
    assert_eq!(download_max_rate_default(), 204800);
}

#[test]
fn trim_all_removes_every_whitespace() {
    let mut s = "  a b\tc \n d\u{a0}e ".to_string();
    assert_eq!(s.trim_all(), "abcde");
    assert_eq!(s, "  a b\tc \n d\u{a0}e ");
}

#[test]
fn trim_all_of_whitespace_is_empty() {
    let mut s = " \t\r\n".to_string();
    assert_eq!(s.trim_all(), "");
    let mut empty = String::new();
    assert_eq!(empty.trim_all(), "");
}

#[test]
fn trim_all_keeps_text_without_whitespace() {
    let mut s = "k=v;#".to_string();
    assert_eq!(s.trim_all(), "k=v;#");
}

#[test]
fn messages_of_the_deserializer() {
    assert_eq!(DeError::UnexpectedEOF.message(), "unexpected EOF");
    assert_eq!(DeError::InvalidState.message(), "invalid state error");
    assert_eq!(DeError::Custom("bad port".to_string()).message(), "bad port");
}

#[test]
fn messages_of_the_line_layer() {
    assert_eq!(SyntaxError::MissingEquals.message(), "missing '='");
    let syntax: ParseError<String> = ParseError::Syntax(SyntaxError::MissingEquals);
    assert_eq!(syntax.message(), "syntax error missing '='");
    let inner: ParseError<String> = ParseError::Inner("disk on fire".to_string());
    assert_eq!(inner.message(), "disk on fire");
}

#[test]
fn line_error_folds_into_a_message() {
    let syntax: ParseError<String> = ParseError::Syntax(SyntaxError::MissingEquals);
    match DeError::from(syntax) {
        DeError::Custom(msg) => assert_eq!(msg, "syntax error missing '='"),
        other => panic!("not a message: {:?}", other),
    }
    let inner: ParseError<String> = ParseError::Inner("disk on fire".to_string());
    match DeError::from(inner) {
        DeError::Custom(msg) => assert_eq!(msg, "disk on fire"),
        other => panic!("not a message: {:?}", other),
    }
}

#[test]
fn message_of_the_public_error() {
    assert_eq!(ConfError::Custom("oops".to_string()).message(), "oops");
}

#[test]
fn deserializer_error_becomes_its_message() {
    match ConfError::from(DeError::UnexpectedEOF) {
        ConfError::Custom(msg) => assert_eq!(msg, "unexpected EOF"),
    }
    match ConfError::from(DeError::InvalidState) {
        ConfError::Custom(msg) => assert_eq!(msg, "invalid state error"),
    }
    match ConfError::from(DeError::Custom("bad port".to_string())) {
        ConfError::Custom(msg) => assert_eq!(msg, "bad port"),
    }
}

fn is_listed_whitespace(c: char) -> bool {
    matches!(
        c,
        '\u{9}'..='\u{d}'
            | ' '
            | '\u{85}'
            | '\u{a0}'
            | '\u{1680}'
            | '\u{2000}'..='\u{200a}'
            | '\u{2028}'
            | '\u{2029}'
            | '\u{202f}'
            | '\u{205f}'
            | '\u{3000}'
    )
}

#[test]
fn whitespace_is_the_twenty_five_characters() {
    let mut count = 0;
    for code in 0..=0x10ffffu32 {
        if let Some(c) = char::from_u32(code) {
            let mut s = c.to_string();
            let removed = s.trim_all().is_empty();
            assert_eq!(removed, is_listed_whitespace(c), "U+{:04X}", code);
            if removed {
                count += 1;
            }
        }
    }
    assert_eq!(count, 25);
}

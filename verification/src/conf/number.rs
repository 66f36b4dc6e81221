use super::de::{Deserializer, Error, ErrorView, NextExt};
use super::result::head;
use super::value::{after_value, pending_value};
use std::num::ParseIntError;
use vstd::prelude::*;
use vstd::string::StringExecFns;

verus! {

/// Whether `c` is one of the decimal digits `0` to `9`.
pub open spec fn is_digit(c: char) -> bool {
    '0' <= c <= '9'
}

/// The number that a sequence of decimal digits denotes.
pub open spec fn digits_value(s: Seq<char>) -> int
    decreases s.len(),
{
    if s.len() == 0 {
        0
    } else {
        10 * digits_value(s.drop_last()) + (s.last() as int - '0' as int)
    }
}

/// Whether `s` is one decimal digit or more, and nothing else.
pub open spec fn all_digits(s: Seq<char>) -> bool {
    s.len() > 0 && forall|i: int| 0 <= i < s.len() ==> is_digit(#[trigger] s[i])
}

/// The number that `s` denotes where it is digits behind an optional `+`.
pub open spec fn unsigned_literal(s: Seq<char>) -> Option<int> {
    let digits = if s.len() > 0 && s[0] == '+' {
        s.drop_first()
    } else {
        s
    };
    if all_digits(digits) {
        Some(digits_value(digits))
    } else {
        None
    }
}

/// The number that `s` denotes where it is digits behind an optional `+` or `-`.
pub open spec fn signed_literal(s: Seq<char>) -> Option<int> {
    if s.len() > 0 && s[0] == '-' {
        if all_digits(s.drop_first()) {
            Some(-digits_value(s.drop_first()))
        } else {
            None
        }
    } else {
        unsigned_literal(s)
    }
}

/// The number between `min` and `max` that `literal` denotes, if there is one.
pub open spec fn in_range(literal: Option<int>, min: int, max: int) -> Option<int> {
    match literal {
        Some(v) if min <= v <= max => Some(v),
        _ => None,
    }
}

/// Why std could not read a string as an integer.
#[verifier::external_type_specification]
#[verifier::external_body]
pub struct ExParseIntError(ParseIntError);

/// The words that std has for a failure to read an integer, as
/// `ParseIntError`'s `to_string` gives them.
pub uninterp spec fn int_error_words(e: ParseIntError) -> Seq<char>;

/// `ParseIntError`'s `to_string`: the words that std has for the failure.
#[verifier::external_body]
fn int_error_text(e: &ParseIntError) -> (out: String)
    ensures
        out@ == int_error_words(*e),
{
    e.to_string()
}

/// The message for a value that is no integer: the value as it stands, a
/// colon and a space, and the words for what is wrong with it.
pub open spec fn refusal(value: Seq<char>, words: Seq<char>) -> Seq<char> {
    value + ": "@ + words
}

/// Whether `message` is the message for `value` and some failure to read an
/// integer.
pub open spec fn is_refusal(message: Seq<char>, value: Seq<char>) -> bool {
    exists|e: ParseIntError| message == refusal(value, #[trigger] int_error_words(e))
}

/// The message for a refused value begins with the value.
pub proof fn lemma_refusal_names_value(message: Seq<char>, value: Seq<char>)
    requires
        is_refusal(message, value),
    ensures
        value.is_prefix_of(message),
        (value + ": "@).is_prefix_of(message),
{
    let e = choose|e: ParseIntError| message == refusal(value, #[trigger] int_error_words(e));
    let head = value + ": "@;
    assert(message.subrange(0, head.len() as int) =~= head);
    assert(message.subrange(0, value.len() as int) =~= value);
}

/// Folds a failure to read `value` as an integer into a message that names
/// the value.
pub fn int_error(value: &str, e: ParseIntError) -> (out: Error)
    ensures
        out@ == ErrorView::Custom(refusal(value@, int_error_words(e))),
{
    let words = int_error_text(&e);
    Error::Custom(value.to_owned().concat(": ").concat(words.as_str()))
}

/// `str::parse::<i8>`: digits behind an optional sign, nothing else, and a
/// number that fits.
#[verifier::external_body]
fn parse_i8(s: &str) -> (out: Result<i8, ParseIntError>)
    ensures
        match in_range(signed_literal(s@), i8::MIN as int, i8::MAX as int) {
            Some(v) => out matches Ok(n) && n == v,
            None => out is Err,
        },
{
    s.parse::<i8>()
}

/// `str::parse::<i16>`: digits behind an optional sign, nothing else, and a
/// number that fits.
#[verifier::external_body]
fn parse_i16(s: &str) -> (out: Result<i16, ParseIntError>)
    ensures
        match in_range(signed_literal(s@), i16::MIN as int, i16::MAX as int) {
            Some(v) => out matches Ok(n) && n == v,
            None => out is Err,
        },
{
    s.parse::<i16>()
}

/// `str::parse::<i32>`: digits behind an optional sign, nothing else, and a
/// number that fits.
#[verifier::external_body]
fn parse_i32(s: &str) -> (out: Result<i32, ParseIntError>)
    ensures
        match in_range(signed_literal(s@), i32::MIN as int, i32::MAX as int) {
            Some(v) => out matches Ok(n) && n == v,
            None => out is Err,
        },
{
    s.parse::<i32>()
}

/// `str::parse::<i64>`: digits behind an optional sign, nothing else, and a
/// number that fits.
#[verifier::external_body]
fn parse_i64(s: &str) -> (out: Result<i64, ParseIntError>)
    ensures
        match in_range(signed_literal(s@), i64::MIN as int, i64::MAX as int) {
            Some(v) => out matches Ok(n) && n == v,
            None => out is Err,
        },
{
    s.parse::<i64>()
}

/// `str::parse::<u8>`: digits behind an optional `+`, nothing else, and a
/// number that fits.
#[verifier::external_body]
fn parse_u8(s: &str) -> (out: Result<u8, ParseIntError>)
    ensures
        match in_range(unsigned_literal(s@), 0, u8::MAX as int) {
            Some(v) => out matches Ok(n) && n == v,
            None => out is Err,
        },
{
    s.parse::<u8>()
}

/// `str::parse::<u16>`: digits behind an optional `+`, nothing else, and a
/// number that fits.
#[verifier::external_body]
fn parse_u16(s: &str) -> (out: Result<u16, ParseIntError>)
    ensures
        match in_range(unsigned_literal(s@), 0, u16::MAX as int) {
            Some(v) => out matches Ok(n) && n == v,
            None => out is Err,
        },
{
    s.parse::<u16>()
}

/// `str::parse::<u32>`: digits behind an optional `+`, nothing else, and a
/// number that fits.
#[verifier::external_body]
fn parse_u32(s: &str) -> (out: Result<u32, ParseIntError>)
    ensures
        match in_range(unsigned_literal(s@), 0, u32::MAX as int) {
            Some(v) => out matches Ok(n) && n == v,
            None => out is Err,
        },
{
    s.parse::<u32>()
}

/// `str::parse::<u64>`: digits behind an optional `+`, nothing else, and a
/// number that fits.
#[verifier::external_body]
fn parse_u64(s: &str) -> (out: Result<u64, ParseIntError>)
    ensures
        match in_range(unsigned_literal(s@), 0, u64::MAX as int) {
            Some(v) => out matches Ok(n) && n == v,
            None => out is Err,
        },
{
    s.parse::<u64>()
}

impl<T: NextExt> Deserializer<T> {
    /// The pending value as an `i8`: a value that is not the decimal form of
    /// one is consumed and refused with a message that names it.
    pub fn deserialize_i8(&mut self) -> (out: Result<i8, Error>)
        requires
            old(self).wf(),
        ensures
            final(self).wf(),
            final(self).source().upcoming() == old(self).unread(),
            match head(old(self).ahead()) {
                Some(Ok(_)) => final(self).slot() is Uninitialized,
                _ => final(self).slot() is Exhausted,
            },
            final(self).ahead() == after_value(old(self).ahead()),
            match pending_value(old(self).ahead(), ErrorView::UnexpectedEOF) {
                Ok(text) => match in_range(signed_literal(text), i8::MIN as int, i8::MAX as int) {
                    Some(v) => out matches Ok(n) && n == v,
                    None => out matches Err(Error::Custom(m)) && is_refusal(m@, text),
                },
                Err(e) => out matches Err(x) && x@ == e,
            },
    {
        match self.next_value() {
            Ok(value) => match parse_i8(value.as_str()) {
                Ok(n) => Ok(n),
                Err(e) => Err(int_error(value.as_str(), e)),
            },
            Err(e) => Err(e),
        }
    }

    /// The pending value as an `i16`: a value that is not the decimal form of
    /// one is consumed and refused with a message that names it.
    pub fn deserialize_i16(&mut self) -> (out: Result<i16, Error>)
        requires
            old(self).wf(),
        ensures
            final(self).wf(),
            final(self).source().upcoming() == old(self).unread(),
            match head(old(self).ahead()) {
                Some(Ok(_)) => final(self).slot() is Uninitialized,
                _ => final(self).slot() is Exhausted,
            },
            final(self).ahead() == after_value(old(self).ahead()),
            match pending_value(old(self).ahead(), ErrorView::UnexpectedEOF) {
                Ok(text) => match in_range(signed_literal(text), i16::MIN as int, i16::MAX as int) {
                    Some(v) => out matches Ok(n) && n == v,
                    None => out matches Err(Error::Custom(m)) && is_refusal(m@, text),
                },
                Err(e) => out matches Err(x) && x@ == e,
            },
    {
        match self.next_value() {
            Ok(value) => match parse_i16(value.as_str()) {
                Ok(n) => Ok(n),
                Err(e) => Err(int_error(value.as_str(), e)),
            },
            Err(e) => Err(e),
        }
    }

    /// The pending value as an `i32`: a value that is not the decimal form of
    /// one is consumed and refused with a message that names it.
    pub fn deserialize_i32(&mut self) -> (out: Result<i32, Error>)
        requires
            old(self).wf(),
        ensures
            final(self).wf(),
            final(self).source().upcoming() == old(self).unread(),
            match head(old(self).ahead()) {
                Some(Ok(_)) => final(self).slot() is Uninitialized,
                _ => final(self).slot() is Exhausted,
            },
            final(self).ahead() == after_value(old(self).ahead()),
            match pending_value(old(self).ahead(), ErrorView::UnexpectedEOF) {
                Ok(text) => match in_range(signed_literal(text), i32::MIN as int, i32::MAX as int) {
                    Some(v) => out matches Ok(n) && n == v,
                    None => out matches Err(Error::Custom(m)) && is_refusal(m@, text),
                },
                Err(e) => out matches Err(x) && x@ == e,
            },
    {
        match self.next_value() {
            Ok(value) => match parse_i32(value.as_str()) {
                Ok(n) => Ok(n),
                Err(e) => Err(int_error(value.as_str(), e)),
            },
            Err(e) => Err(e),
        }
    }

    /// The pending value as an `i64`: a value that is not the decimal form of
    /// one is consumed and refused with a message that names it.
    pub fn deserialize_i64(&mut self) -> (out: Result<i64, Error>)
        requires
            old(self).wf(),
        ensures
            final(self).wf(),
            final(self).source().upcoming() == old(self).unread(),
            match head(old(self).ahead()) {
                Some(Ok(_)) => final(self).slot() is Uninitialized,
                _ => final(self).slot() is Exhausted,
            },
            final(self).ahead() == after_value(old(self).ahead()),
            match pending_value(old(self).ahead(), ErrorView::UnexpectedEOF) {
                Ok(text) => match in_range(signed_literal(text), i64::MIN as int, i64::MAX as int) {
                    Some(v) => out matches Ok(n) && n == v,
                    None => out matches Err(Error::Custom(m)) && is_refusal(m@, text),
                },
                Err(e) => out matches Err(x) && x@ == e,
            },
    {
        match self.next_value() {
            Ok(value) => match parse_i64(value.as_str()) {
                Ok(n) => Ok(n),
                Err(e) => Err(int_error(value.as_str(), e)),
            },
            Err(e) => Err(e),
        }
    }

    /// The pending value as an `u8`: a value that is not the decimal form of
    /// one is consumed and refused with a message that names it.
    pub fn deserialize_u8(&mut self) -> (out: Result<u8, Error>)
        requires
            old(self).wf(),
        ensures
            final(self).wf(),
            final(self).source().upcoming() == old(self).unread(),
            match head(old(self).ahead()) {
                Some(Ok(_)) => final(self).slot() is Uninitialized,
                _ => final(self).slot() is Exhausted,
            },
            final(self).ahead() == after_value(old(self).ahead()),
            match pending_value(old(self).ahead(), ErrorView::UnexpectedEOF) {
                Ok(text) => match in_range(unsigned_literal(text), 0, u8::MAX as int) {
                    Some(v) => out matches Ok(n) && n == v,
                    None => out matches Err(Error::Custom(m)) && is_refusal(m@, text),
                },
                Err(e) => out matches Err(x) && x@ == e,
            },
    {
        match self.next_value() {
            Ok(value) => match parse_u8(value.as_str()) {
                Ok(n) => Ok(n),
                Err(e) => Err(int_error(value.as_str(), e)),
            },
            Err(e) => Err(e),
        }
    }

    /// The pending value as an `u16`: a value that is not the decimal form of
    /// one is consumed and refused with a message that names it.
    pub fn deserialize_u16(&mut self) -> (out: Result<u16, Error>)
        requires
            old(self).wf(),
        ensures
            final(self).wf(),
            final(self).source().upcoming() == old(self).unread(),
            match head(old(self).ahead()) {
                Some(Ok(_)) => final(self).slot() is Uninitialized,
                _ => final(self).slot() is Exhausted,
            },
            final(self).ahead() == after_value(old(self).ahead()),
            match pending_value(old(self).ahead(), ErrorView::UnexpectedEOF) {
                Ok(text) => match in_range(unsigned_literal(text), 0, u16::MAX as int) {
                    Some(v) => out matches Ok(n) && n == v,
                    None => out matches Err(Error::Custom(m)) && is_refusal(m@, text),
                },
                Err(e) => out matches Err(x) && x@ == e,
            },
    {
        match self.next_value() {
            Ok(value) => match parse_u16(value.as_str()) {
                Ok(n) => Ok(n),
                Err(e) => Err(int_error(value.as_str(), e)),
            },
            Err(e) => Err(e),
        }
    }

    /// The pending value as an `u32`: a value that is not the decimal form of
    /// one is consumed and refused with a message that names it.
    pub fn deserialize_u32(&mut self) -> (out: Result<u32, Error>)
        requires
            old(self).wf(),
        ensures
            final(self).wf(),
            final(self).source().upcoming() == old(self).unread(),
            match head(old(self).ahead()) {
                Some(Ok(_)) => final(self).slot() is Uninitialized,
                _ => final(self).slot() is Exhausted,
            },
            final(self).ahead() == after_value(old(self).ahead()),
            match pending_value(old(self).ahead(), ErrorView::UnexpectedEOF) {
                Ok(text) => match in_range(unsigned_literal(text), 0, u32::MAX as int) {
                    Some(v) => out matches Ok(n) && n == v,
                    None => out matches Err(Error::Custom(m)) && is_refusal(m@, text),
                },
                Err(e) => out matches Err(x) && x@ == e,
            },
    {
        match self.next_value() {
            Ok(value) => match parse_u32(value.as_str()) {
                Ok(n) => Ok(n),
                Err(e) => Err(int_error(value.as_str(), e)),
            },
            Err(e) => Err(e),
        }
    }

    /// The pending value as an `u64`: a value that is not the decimal form of
    /// one is consumed and refused with a message that names it.
    pub fn deserialize_u64(&mut self) -> (out: Result<u64, Error>)
        requires
            old(self).wf(),
        ensures
            final(self).wf(),
            final(self).source().upcoming() == old(self).unread(),
            match head(old(self).ahead()) {
                Some(Ok(_)) => final(self).slot() is Uninitialized,
                _ => final(self).slot() is Exhausted,
            },
            final(self).ahead() == after_value(old(self).ahead()),
            match pending_value(old(self).ahead(), ErrorView::UnexpectedEOF) {
                Ok(text) => match in_range(unsigned_literal(text), 0, u64::MAX as int) {
                    Some(v) => out matches Ok(n) && n == v,
                    None => out matches Err(Error::Custom(m)) && is_refusal(m@, text),
                },
                Err(e) => out matches Err(x) && x@ == e,
            },
    {
        match self.next_value() {
            Ok(value) => match parse_u64(value.as_str()) {
                Ok(n) => Ok(n),
                Err(e) => Err(int_error(value.as_str(), e)),
            },
            Err(e) => Err(e),
        }
    }
}

} // verus!

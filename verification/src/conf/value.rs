use super::de::{Deserializer, Error, ErrorView, NextExt, PeekKind};
use super::parse::ItemView;
use super::result::head;
use vstd::prelude::*;
use vstd::std_specs::iter::IteratorSpec;

verus! {

broadcast use vstd::string::group_string_axioms;

/// A string in lower case, as `str::to_lowercase` gives it.
pub uninterp spec fn lowercase(s: Seq<char>) -> Seq<char>;

/// `str::to_lowercase`: the string with each character in lower case.
#[verifier::external_body]
fn lowered(s: &str) -> (out: String)
    ensures
        out@ == lowercase(s@),
{
    s.to_lowercase()
}

/// Whether two strings hold the same characters.
fn same_text(a: &str, b: &str) -> (out: bool)
    ensures
        out == (a@ == b@),
{
    let left = a.to_owned();
    let right = b.to_owned();
    left == right
}

/// Whether a word in lower case stands for `true`: `true`, `yes` and `1` do,
/// and nothing else does.
pub open spec fn is_truth(word: Seq<char>) -> bool {
    word == "true"@ || word == "yes"@ || word == "1"@
}

/// Reads a word in lower case as a boolean. Any word but `true`, `yes` and
/// `1` is `false`, the words `false`, `no` and `0` among them.
pub fn truth(word: &str) -> (out: bool)
    ensures
        out == is_truth(word@),
{
    same_text(word, "true") || same_text(word, "yes") || same_text(word, "1")
}

/// Reads a value as a boolean, whatever its case.
pub fn bool_of(value: &str) -> (out: bool)
    ensures
        out == is_truth(lowercase(value@)),
{
    let word = lowered(value);
    truth(word.as_str())
}

/// What a value comes to where a single character is asked for.
#[derive(Debug)]
pub enum CharOrStr {
    Char(char),
    Str(String),
}

/// Reads a value as a character: a value of exactly one character is that
/// character, any other is kept whole.
pub fn char_or_str(value: String) -> (out: CharOrStr)
    ensures
        match out {
            CharOrStr::Char(c) => value@ == seq![c],
            CharOrStr::Str(s) => s@ == value@ && value@.len() != 1,
        },
{
    let mut chars = value.as_str().chars();
    let first = chars.next();
    let second = chars.next();
    match (first, second) {
        (Some(c), None) => {
            proof {
                assert(value@ =~= seq![c]);
            }
            CharOrStr::Char(c)
        },
        _ => CharOrStr::Str(value),
    }
}

/// What a request for the pending value finds: the value's text, or the error
/// that is handed out in its place, which at the end of the document is
/// `at_end`.
pub open spec fn pending_value(
    ahead: Seq<Result<ItemView, ErrorView>>,
    at_end: ErrorView,
) -> Result<Seq<char>, ErrorView> {
    match head(ahead) {
        None => Err(at_end),
        Some(Err(e)) => Err(e),
        Some(Ok(ItemView::Value { key, value })) => Ok(value),
        Some(Ok(_)) => Err(ErrorView::InvalidState),
    }
}

/// What is left once the pending value was asked for: the items behind it, or
/// nothing after an error.
pub open spec fn after_value(ahead: Seq<Result<ItemView, ErrorView>>) -> Seq<
    Result<ItemView, ErrorView>,
> {
    match head(ahead) {
        Some(Ok(_)) => ahead.drop_first(),
        _ => Seq::empty(),
    }
}

impl<T: NextExt> Deserializer<T> {
    /// The pending value as it stands, where the target states no shape.
    pub fn deserialize_any(&mut self) -> (out: Result<String, Error>)
        requires
            old(self).wf(),
        ensures
            final(self).wf(),
            final(self).source().upcoming() == old(self).unread(),
            match head(old(self).ahead()) {
                Some(Ok(_)) => final(self).slot() is Uninitialized,
                _ => final(self).slot() is Exhausted,
            },
            final(self).ahead() == after_value(old(self).ahead()),
            match pending_value(old(self).ahead(), ErrorView::InvalidState) {
                Ok(text) => out matches Ok(s) && s@ == text,
                Err(e) => out matches Err(x) && x@ == e,
            },
    {
        match self.peek_kind() {
            Ok(Some(PeekKind::Value)) => self.deserialize_str(),
            Ok(None) => Err(Error::InvalidState),
            Err(e) => Err(e),
        }
    }

    /// The pending value as a boolean.
    pub fn deserialize_bool(&mut self) -> (out: Result<bool, Error>)
        requires
            old(self).wf(),
        ensures
            final(self).wf(),
            final(self).source().upcoming() == old(self).unread(),
            match head(old(self).ahead()) {
                Some(Ok(_)) => final(self).slot() is Uninitialized,
                _ => final(self).slot() is Exhausted,
            },
            final(self).ahead() == after_value(old(self).ahead()),
            match pending_value(old(self).ahead(), ErrorView::InvalidState) {
                Ok(text) => out matches Ok(b) && b == is_truth(lowercase(text)),
                Err(e) => out matches Err(x) && x@ == e,
            },
    {
        match self.peek_kind() {
            Ok(Some(PeekKind::Value)) => match self.next_value() {
                Ok(value) => Ok(bool_of(value.as_str())),
                Err(e) => Err(e),
            },
            Ok(None) => Err(Error::InvalidState),
            Err(e) => Err(e),
        }
    }

    /// The pending value as a character, or whole where it is not one
    /// character.
    pub fn deserialize_char(&mut self) -> (out: Result<CharOrStr, Error>)
        requires
            old(self).wf(),
        ensures
            final(self).wf(),
            final(self).source().upcoming() == old(self).unread(),
            match head(old(self).ahead()) {
                Some(Ok(_)) => final(self).slot() is Uninitialized,
                _ => final(self).slot() is Exhausted,
            },
            final(self).ahead() == after_value(old(self).ahead()),
            match pending_value(old(self).ahead(), ErrorView::UnexpectedEOF) {
                Ok(text) => match out {
                    Ok(CharOrStr::Char(c)) => text == seq![c],
                    Ok(CharOrStr::Str(s)) => s@ == text && text.len() != 1,
                    Err(_) => false,
                },
                Err(e) => out matches Err(x) && x@ == e,
            },
    {
        match self.next_value() {
            Ok(value) => Ok(char_or_str(value)),
            Err(e) => Err(e),
        }
    }

    /// The pending value as a string.
    pub fn deserialize_str(&mut self) -> (out: Result<String, Error>)
        requires
            old(self).wf(),
        ensures
            final(self).wf(),
            final(self).source().upcoming() == old(self).unread(),
            match head(old(self).ahead()) {
                Some(Ok(_)) => final(self).slot() is Uninitialized,
                _ => final(self).slot() is Exhausted,
            },
            final(self).ahead() == after_value(old(self).ahead()),
            match pending_value(old(self).ahead(), ErrorView::UnexpectedEOF) {
                Ok(text) => out matches Ok(s) && s@ == text,
                Err(e) => out matches Err(x) && x@ == e,
            },
    {
        self.next_value()
    }

    /// The pending value as a string that the caller keeps.
    pub fn deserialize_string(&mut self) -> (out: Result<String, Error>)
        requires
            old(self).wf(),
        ensures
            final(self).wf(),
            final(self).source().upcoming() == old(self).unread(),
            match head(old(self).ahead()) {
                Some(Ok(_)) => final(self).slot() is Uninitialized,
                _ => final(self).slot() is Exhausted,
            },
            final(self).ahead() == after_value(old(self).ahead()),
            match pending_value(old(self).ahead(), ErrorView::UnexpectedEOF) {
                Ok(text) => out matches Ok(s) && s@ == text,
                Err(e) => out matches Err(x) && x@ == e,
            },
    {
        self.next_value()
    }

    /// The pending value as the name of an enum's variant. The name is the
    /// value itself; variants that carry data cannot be written.
    pub fn deserialize_enum(&mut self) -> (out: Result<String, Error>)
        requires
            old(self).wf(),
        ensures
            final(self).wf(),
            final(self).source().upcoming() == old(self).unread(),
            match head(old(self).ahead()) {
                Some(Ok(_)) => final(self).slot() is Uninitialized,
                _ => final(self).slot() is Exhausted,
            },
            final(self).ahead() == after_value(old(self).ahead()),
            match pending_value(old(self).ahead(), ErrorView::InvalidState) {
                Ok(text) => out matches Ok(s) && s@ == text,
                Err(e) => out matches Err(x) && x@ == e,
            },
    {
        match self.peek_kind() {
            Ok(Some(PeekKind::Value)) => self.next_value(),
            Ok(None) => Err(Error::InvalidState),
            Err(e) => Err(e),
        }
    }

    /// A field name: the pending value as a string.
    pub fn deserialize_identifier(&mut self) -> (out: Result<String, Error>)
        requires
            old(self).wf(),
        ensures
            final(self).wf(),
            final(self).source().upcoming() == old(self).unread(),
            match head(old(self).ahead()) {
                Some(Ok(_)) => final(self).slot() is Uninitialized,
                _ => final(self).slot() is Exhausted,
            },
            final(self).ahead() == after_value(old(self).ahead()),
            match pending_value(old(self).ahead(), ErrorView::UnexpectedEOF) {
                Ok(text) => out matches Ok(s) && s@ == text,
                Err(e) => out matches Err(x) && x@ == e,
            },
    {
        self.deserialize_str()
    }

    /// Refuses a sequence, a tuple, a map or a struct as the shape of a value:
    /// a line cannot hold one. Nothing is consumed.
    pub fn deserialize_nested(&self) -> (out: Result<(), Error>)
        ensures
            out matches Err(Error::InvalidState),
    {
        Err(Error::InvalidState)
    }
}

} // verus!

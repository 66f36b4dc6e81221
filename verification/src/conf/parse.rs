use super::result::{head, tail, ResultIterExt, ResultOptionExt};
use super::void::Void;
use std::collections::VecDeque;
use vstd::prelude::*;
use vstd::std_specs::convert::FromSpecImpl;
use vstd::string::StrSliceExecFns;

verus! {

/// Whether a character is whitespace: one of the 25 characters that have
/// Unicode's `White_Space` property, which are those that
/// `char::is_whitespace` accepts.
pub open spec fn is_whitespace(c: char) -> bool {
    ||| '\u{9}' <= c <= '\u{d}'
    ||| c == ' '
    ||| c == '\u{85}'
    ||| c == '\u{a0}'
    ||| c == '\u{1680}'
    ||| '\u{2000}' <= c <= '\u{200a}'
    ||| c == '\u{2028}'
    ||| c == '\u{2029}'
    ||| c == '\u{202f}'
    ||| c == '\u{205f}'
    ||| c == '\u{3000}'
}

/// `char::is_whitespace`: whether `c` has the `White_Space` property.
#[verifier::external_body]
pub(crate) fn has_white_space(c: char) -> (out: bool)
    ensures
        out == is_whitespace(c),
{
    c.is_whitespace()
}

/// `s` without its leading whitespace.
pub open spec fn trim_start(s: Seq<char>) -> Seq<char>
    decreases s.len(),
{
    if s.len() > 0 && is_whitespace(s[0]) {
        trim_start(s.drop_first())
    } else {
        s
    }
}

/// `s` without its trailing whitespace.
pub open spec fn trim_end(s: Seq<char>) -> Seq<char>
    decreases s.len(),
{
    if s.len() > 0 && is_whitespace(s.last()) {
        trim_end(s.drop_last())
    } else {
        s
    }
}

/// `s` without its leading and trailing whitespace; what lies between is kept.
pub open spec fn trim(s: Seq<char>) -> Seq<char> {
    trim_end(trim_start(s))
}

/// The index of the first `c` in `s`, or the length of `s` where it has none.
pub open spec fn position(s: Seq<char>, c: char) -> int
    decreases s.len(),
{
    if s.len() == 0 || s[0] == c {
        0
    } else {
        1 + position(s.drop_first(), c)
    }
}

/// The classified content of one line.
#[derive(Debug)]
pub enum Item {
    Empty,
    Value { key: String, value: String },
    Comment { text: String },
}

/// An [`Item`] with its strings as sequences of characters.
pub enum ItemView {
    Empty,
    Value { key: Seq<char>, value: Seq<char> },
    Comment { text: Seq<char> },
}

impl View for Item {
    type V = ItemView;

    open spec fn view(&self) -> ItemView {
        match *self {
            Item::Empty => ItemView::Empty,
            Item::Value { key, value } => ItemView::Value { key: key@, value: value@ },
            Item::Comment { text } => ItemView::Comment { text: text@ },
        }
    }
}

/// What can be wrong with a line.
#[derive(Debug, Copy, Clone, Eq, PartialEq, Ord, PartialOrd)]
pub enum SyntaxError {
    MissingEquals,
}

/// Whether a line is a comment: its first character is `;` or `#`.
pub open spec fn is_comment(line: Seq<char>) -> bool {
    line.len() > 0 && (line[0] == ';' || line[0] == '#')
}

/// The item that a line stands for.
///
/// A comment is kept whole. Any other line is split at its first `=` into a
/// key and a value, both trimmed. A line without `=` is empty or malformed.
pub open spec fn classify(line: Seq<char>) -> Result<ItemView, SyntaxError> {
    let at = position(line, '=');
    if is_comment(line) {
        Ok(ItemView::Comment { text: line })
    } else if at < line.len() {
        Ok(
            ItemView::Value {
                key: trim(line.subrange(0, at)),
                value: trim(line.subrange(at + 1, line.len() as int)),
            },
        )
    } else if line.len() == 0 {
        Ok(ItemView::Empty)
    } else {
        Err(SyntaxError::MissingEquals)
    }
}

/// `str::trim`: the slice without leading and trailing whitespace, where
/// whitespace is what `char::is_whitespace` accepts.
#[verifier::external_body]
fn trimmed(s: &str) -> (out: &str)
    ensures
        out@ == trim(s@),
{
    s.trim()
}

/// `str::split_once` with a character as delimiter: the parts before and after
/// the first occurrence of `c`, or `None` where `s` has none.
#[verifier::external_body]
fn split_at_first(s: &str, c: char) -> (out: Option<(&str, &str)>)
    ensures
        match out {
            Some((before, after)) => {
                &&& !before@.contains(c)
                &&& s@ == before@ + seq![c] + after@
            },
            None => !s@.contains(c),
        },
{
    s.split_once(c)
}

/// The first occurrence of `c` in `s` is where [`position`] says.
pub proof fn lemma_position(s: Seq<char>, c: char)
    ensures
        0 <= position(s, c) <= s.len(),
        position(s, c) < s.len() ==> s[position(s, c)] == c,
        forall|i: int| 0 <= i < position(s, c) ==> s[i] != c,
        position(s, c) == s.len() <==> !s.contains(c),
    decreases s.len(),
{
    if s.len() == 0 || s[0] == c {
    } else {
        let t = s.drop_first();
        lemma_position(t, c);
        assert forall|i: int| 0 <= i < position(s, c) implies s[i] != c by {
            if i > 0 {
                assert(s[i] == t[i - 1]);
            }
        }
        if position(s, c) < s.len() {
            assert(s[position(s, c)] == t[position(t, c)]);
        }
        if t.contains(c) {
            let j = choose|j: int| 0 <= j < t.len() && t[j] == c;
            assert(s[j + 1] == c);
        }
        if s.contains(c) {
            let j = choose|j: int| 0 <= j < s.len() && s[j] == c;
            assert(t[j - 1] == c);
        }
    }
}

/// A split at a delimiter that the first part lacks is the split at [`position`].
pub proof fn lemma_split_is_at_position(s: Seq<char>, before: Seq<char>, after: Seq<char>, c: char)
    requires
        !before.contains(c),
        s == before + seq![c] + after,
    ensures
        position(s, c) == before.len(),
        before == s.subrange(0, position(s, c)),
        after == s.subrange(position(s, c) + 1, s.len() as int),
{
    lemma_position(s, c);
    let at = position(s, c);
    let n = before.len() as int;
    assert(s[n] == c);
    if at < n {
        assert(before[at] == s[at]);
        assert(before.contains(c));
    }
    assert(before =~= s.subrange(0, n));
    assert(after =~= s.subrange(n + 1, s.len() as int));
}

/// Whether every character of `s` is whitespace.
pub open spec fn all_whitespace(s: Seq<char>) -> bool {
    forall|i: int| 0 <= i < s.len() ==> is_whitespace(#[trigger] s[i])
}

/// Whether `s` neither begins nor ends with whitespace.
pub open spec fn is_trimmed(s: Seq<char>) -> bool {
    s.len() > 0 ==> !is_whitespace(s[0]) && !is_whitespace(s.last())
}

/// Whitespace in front of a text that does not begin with whitespace is what
/// `trim_start` removes.
pub proof fn lemma_trim_start(space: Seq<char>, rest: Seq<char>)
    requires
        all_whitespace(space),
        rest.len() > 0 ==> !is_whitespace(rest[0]),
    ensures
        trim_start(space + rest) == rest,
    decreases space.len(),
{
    if space.len() == 0 {
        assert(space + rest =~= rest);
    } else {
        assert((space + rest)[0] == space[0]);
        assert((space + rest).drop_first() =~= space.drop_first() + rest);
        assert forall|i: int| 0 <= i < space.drop_first().len() implies is_whitespace(
            #[trigger] space.drop_first()[i],
        ) by {
            assert(space.drop_first()[i] == space[i + 1]);
        }
        lemma_trim_start(space.drop_first(), rest);
    }
}

/// Whitespace behind a text that does not end with whitespace is what
/// `trim_end` removes.
pub proof fn lemma_trim_end(rest: Seq<char>, space: Seq<char>)
    requires
        all_whitespace(space),
        rest.len() > 0 ==> !is_whitespace(rest.last()),
    ensures
        trim_end(rest + space) == rest,
    decreases space.len(),
{
    if space.len() == 0 {
        assert(rest + space =~= rest);
    } else {
        assert((rest + space).last() == space.last());
        assert((rest + space).drop_last() =~= rest + space.drop_last());
        assert forall|i: int| 0 <= i < space.drop_last().len() implies is_whitespace(
            #[trigger] space.drop_last()[i],
        ) by {
            assert(space.drop_last()[i] == space[i]);
        }
        lemma_trim_end(rest, space.drop_last());
    }
}

/// Trimming removes the whitespace around a text and keeps the text as it is,
/// whitespace inside it included.
pub proof fn lemma_trim(lead: Seq<char>, text: Seq<char>, trail: Seq<char>)
    requires
        all_whitespace(lead),
        all_whitespace(trail),
        is_trimmed(text),
    ensures
        trim(lead + text + trail) == text,
{
    if text.len() == 0 {
        assert(lead + text + trail =~= (lead + trail) + text);
        lemma_trim_start(lead + trail, text);
    } else {
        assert(lead + text + trail =~= lead + (text + trail));
        assert((text + trail)[0] == text[0]);
        lemma_trim_start(lead, text + trail);
        lemma_trim_end(text, trail);
    }
}

/// A line that is a key, `=` and a value, with any whitespace around each of
/// them, is classified as that key and that value: the whitespace around them
/// is gone, and what is inside them is kept as it stands.
pub proof fn lemma_key_value_line(
    lead: Seq<char>,
    key: Seq<char>,
    before_equals: Seq<char>,
    after_equals: Seq<char>,
    value: Seq<char>,
    trail: Seq<char>,
)
    requires
        all_whitespace(lead),
        all_whitespace(before_equals),
        all_whitespace(after_equals),
        all_whitespace(trail),
        is_trimmed(key),
        is_trimmed(value),
        !(lead + key + before_equals).contains('='),
        !is_comment(lead + key + before_equals + seq!['='] + after_equals + value + trail),
    ensures
        classify(lead + key + before_equals + seq!['='] + after_equals + value + trail) == Ok::<
            ItemView,
            SyntaxError,
        >(ItemView::Value { key, value }),
{
    let left = lead + key + before_equals;
    let right = after_equals + value + trail;
    let line = lead + key + before_equals + seq!['='] + after_equals + value + trail;
    assert(line =~= left + seq!['='] + right);
    lemma_split_is_at_position(line, left, right, '=');
    lemma_trim(lead, key, before_equals);
    lemma_trim(after_equals, value, trail);
}

/// A line is malformed exactly where it is not empty, is no comment and has
/// no `=`.
pub proof fn lemma_missing_equals(line: Seq<char>)
    ensures
        classify(line) is Err <==> line.len() > 0 && !is_comment(line) && !line.contains('='),
{
    lemma_position(line, '=');
}

/// What went wrong at one line: the source failed, or the line is malformed.
#[derive(Debug, Clone, Eq, PartialEq, Ord, PartialOrd)]
pub enum Error<E> {
    Inner(E),
    Syntax(SyntaxError),
}

impl<E> From<E> for Error<E> {
    fn from(e: E) -> (out: Self) {
        Error::Inner(e)
    }
}

impl<E> FromSpecImpl<E> for Error<E> {
    open spec fn obeys_from_spec() -> bool {
        true
    }

    open spec fn from_spec(e: E) -> Self {
        Error::Inner(e)
    }
}

/// What one pull from a line source comes to: the item that the line stands
/// for, the line's syntax error, or the source's own error.
pub open spec fn parse_line<E>(line: Result<String, E>) -> Result<ItemView, Error<E>> {
    match line {
        Ok(text) => match classify(text@) {
            Ok(item) => Ok(item),
            Err(e) => Err(Error::Syntax(e)),
        },
        Err(e) => Err(Error::Inner(e)),
    }
}

/// A source that cannot fail: it hands out each of its values as `Ok`.
pub struct OkIter<T> {
    items: VecDeque<T>,
}

impl<T> OkIter<T> {
    /// A source that hands out `items` from front to back.
    pub fn new(items: VecDeque<T>) -> (out: Self)
        ensures
            out@ == items@,
    {
        OkIter { items }
    }
}

impl<T> View for OkIter<T> {
    type V = Seq<T>;

    closed spec fn view(&self) -> Seq<T> {
        self.items@
    }
}

impl<T> ResultIterExt for OkIter<T> {
    type Val = T;

    type Err = Void;

    open spec fn pending(&self) -> Seq<Result<T, Void>> {
        Seq::new(self@.len(), |i: int| Ok(self@[i]))
    }

    fn next_invert(&mut self) -> (out: Result<Option<T>, Void>) {
        let next = self.items.pop_front();
        proof {
            assert(self.pending() =~= tail(old(self).pending()));
        }
        Ok(next)
    }
}

/// A line without the carriage return that ends it, if one does.
pub open spec fn without_cr(line: Seq<char>) -> Seq<char> {
    if line.len() > 0 && line.last() == '\r' {
        line.drop_last()
    } else {
        line
    }
}

/// The lines of a text. A line ends at `\n` or at `\r\n`, neither of which
/// belongs to it; the last line needs no line ending, and a carriage return
/// without a line feed behind it ends nothing.
pub open spec fn str_lines(s: Seq<char>) -> Seq<Seq<char>>
    decreases s.len(),
{
    let at = position(s, '\n');
    if s.len() == 0 {
        Seq::empty()
    } else if 0 <= at < s.len() {
        seq![without_cr(s.subrange(0, at))] + str_lines(s.subrange(at + 1, s.len() as int))
    } else {
        seq![s]
    }
}

/// `str::lines`, collected: the text split at every `\n`, the line endings
/// `\n` and `\r\n` left out, and no empty line for a line ending at the very
/// end.
#[verifier::external_body]
fn lines_of(s: &str) -> (out: Vec<&str>)
    ensures
        out@.len() == str_lines(s@).len(),
        forall|i: int| 0 <= i < out@.len() ==> (#[trigger] out@[i])@ == str_lines(s@)[i],
{
    s.lines().collect()
}

/// Classifies the lines of a source, one for each pull.
pub struct Parser<T> {
    input: T,
}

impl<T> Parser<T> {
    pub fn new(input: T) -> (out: Self)
        ensures
            out.source() == input,
    {
        Parser { input }
    }

    /// The source that the lines come from.
    pub closed spec fn source(self) -> T {
        self.input
    }
}

impl Parser<OkIter<String>> {
    /// A parser over the lines of `s`.
    pub fn from_str(s: &str) -> (out: Self)
        ensures
            out.source()@.len() == str_lines(s@).len(),
            forall|i: int|
                0 <= i < str_lines(s@).len() ==> (#[trigger] out.source()@[i])@ == str_lines(s@)[i],
    {
        let lines = lines_of(s);
        let mut owned: VecDeque<String> = VecDeque::new();
        let mut i: usize = 0;
        while i < lines.len()
            invariant
                i <= lines@.len(),
                owned@.len() == i,
                forall|j: int| 0 <= j < i ==> (#[trigger] owned@[j])@ == lines@[j]@,
            decreases lines@.len() - i,
        {
            owned.push_back(lines[i].to_owned());
            i += 1;
        }
        Self::new(OkIter::new(owned))
    }
}

impl<E> Parser<VecDeque<Result<String, E>>> {
    /// A parser over lines that were read one by one, each of which may have
    /// failed.
    pub fn from_buf_read(lines: VecDeque<Result<String, E>>) -> (out: Self)
        ensures
            out.source() == lines,
    {
        Self::new(lines)
    }
}

impl<T> Parser<T> {
    /// Classifies one line, or passes on that there is none.
    pub fn parse_next<E>(line: Option<&str>) -> (out: Result<Option<Item>, Error<E>>)
        ensures
            match line {
                None => out matches Ok(None),
                Some(text) => match classify(text@) {
                    Ok(item) => out matches Ok(Some(found)) && found@ == item,
                    Err(e) => out == Err::<Option<Item>, Error<E>>(Error::Syntax(e)),
                },
            },
    {
        let line = match line {
            Some(line) => line,
            None => return Ok(None),
        };
        if !line.is_empty() && (line.get_char(0) == ';' || line.get_char(0) == '#') {
            Ok(Some(Item::Comment { text: line.to_owned() }))
        } else {
            proof {
                lemma_position(line@, '=');
            }
            match split_at_first(line, '=') {
                Some((key, value)) => {
                    proof {
                        lemma_split_is_at_position(line@, key@, value@, '=');
                    }
                    Ok(
                        Some(
                            Item::Value {
                                key: trimmed(key).to_owned(),
                                value: trimmed(value).to_owned(),
                            },
                        ),
                    )
                },
                None => {
                    if line.is_empty() {
                        Ok(Some(Item::Empty))
                    } else {
                        Err(Error::Syntax(SyntaxError::MissingEquals))
                    }
                },
            }
        }
    }
}

impl<T: ResultIterExt<Val = String>> Parser<T> {
    /// What the parser has yet to hand out: one result for each pending line.
    pub open spec fn stream(self) -> Seq<Result<ItemView, Error<T::Err>>> {
        Seq::new(self.source().pending().len(), |i: int| parse_line(self.source().pending()[i]))
    }

    /// Pulls one line from the source and classifies it.
    pub fn next(&mut self) -> (out: Option<Result<Item, Error<T::Err>>>)
        ensures
            match head(old(self).stream()) {
                None => out is None,
                Some(Ok(item)) => out matches Some(Ok(found)) && found@ == item,
                Some(Err(e)) => out == Some(Err::<Item, Error<T::Err>>(e)),
            },
            final(self).stream() == tail(old(self).stream()),
    {
        let pulled = self.input.next_invert();
        proof {
            assert(self.stream() =~= tail(old(self).stream()));
        }
        match pulled {
            Ok(line) => {
                let parsed = match line {
                    Some(text) => Self::parse_next(Some(text.as_str())),
                    None => Self::parse_next(None),
                };
                parsed.invert()
            },
            Err(e) => Some(Err(Error::Inner(e))),
        }
    }
}

} // verus!

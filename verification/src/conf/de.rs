use super::error::Message;
use super::parse::{
    classify, is_comment, lemma_missing_equals, str_lines, Error as ParseError, Item, ItemView,
    Parser,
};
use super::result::{head, tail, ResultIterExt};
use std::collections::VecDeque;
use vstd::prelude::*;
use vstd::std_specs::convert::FromSpecImpl;

verus! {

/// Why a document could not be read into its target.
#[derive(Debug, Clone)]
pub enum Error {
    Custom(String),
    UnexpectedEOF,
    InvalidState,
}

/// An [`Error`] with its message as a sequence of characters.
pub enum ErrorView {
    Custom(Seq<char>),
    UnexpectedEOF,
    InvalidState,
}

impl View for Error {
    type V = ErrorView;

    open spec fn view(&self) -> ErrorView {
        match *self {
            Error::Custom(msg) => ErrorView::Custom(msg@),
            Error::UnexpectedEOF => ErrorView::UnexpectedEOF,
            Error::InvalidState => ErrorView::InvalidState,
        }
    }
}

impl Message for Error {
    open spec fn text(&self) -> Seq<char> {
        match *self {
            Error::Custom(msg) => msg@,
            Error::UnexpectedEOF => "unexpected EOF"@,
            Error::InvalidState => "invalid state error"@,
        }
    }

    fn message(&self) -> (out: String) {
        match self {
            Error::Custom(msg) => msg.clone(),
            Error::UnexpectedEOF => "unexpected EOF".to_owned(),
            Error::InvalidState => "invalid state error".to_owned(),
        }
    }
}

impl<E: Message> From<ParseError<E>> for Error {
    /// Folds an error of the line layer into a message.
    fn from(e: ParseError<E>) -> (out: Self)
        ensures
            out@ == ErrorView::Custom(e.text()),
    {
        Error::Custom(e.message())
    }
}

/// The message is a new `String`, of which only the characters are known:
/// `from` states its result by its view, and nothing is claimed through
/// `from_spec`.
impl<E: Message> FromSpecImpl<ParseError<E>> for Error {
    open spec fn obeys_from_spec() -> bool {
        false
    }

    open spec fn from_spec(e: ParseError<E>) -> Self {
        arbitrary()
    }
}

/// The view of a classified line or of the error that came in its place.
pub open spec fn result_view(r: Result<Item, Error>) -> Result<ItemView, ErrorView> {
    match r {
        Ok(item) => Ok(item@),
        Err(e) => Err(e@),
    }
}

/// A source of classified lines whose errors are already folded into [`Error`].
pub trait NextExt {
    /// What the source has yet to hand out, in order.
    spec fn upcoming(&self) -> Seq<Result<ItemView, ErrorView>>;

    /// Hands out the next item or error, or `None` once nothing is left.
    fn next(&mut self) -> (out: Option<Result<Item, Error>>)
        ensures
            match out {
                Some(r) => head(old(self).upcoming()) == Some(result_view(r)),
                None => head(old(self).upcoming()) is None,
            },
            final(self).upcoming() == tail(old(self).upcoming()),
    ;
}

/// A result of the line layer as the deserializer sees it.
pub open spec fn folded<E: Message>(r: Result<ItemView, ParseError<E>>) -> Result<
    ItemView,
    ErrorView,
> {
    match r {
        Ok(item) => Ok(item),
        Err(e) => Err(ErrorView::Custom(e.text())),
    }
}

impl<T: ResultIterExt<Val = String>> NextExt for Parser<T> where T::Err: Message {
    open spec fn upcoming(&self) -> Seq<Result<ItemView, ErrorView>> {
        Seq::new(self.stream().len(), |i: int| folded(self.stream()[i]))
    }

    fn next(&mut self) -> (out: Option<Result<Item, Error>>) {
        let pulled = Parser::next(self);
        proof {
            assert(self.upcoming() =~= tail(old(self).upcoming()));
        }
        match pulled {
            Some(Ok(item)) => Some(Ok(item)),
            Some(Err(e)) => Some(Err(Error::from(e))),
            None => None,
        }
    }
}

/// What a pending item is. Blank lines and comments never become pending, so
/// a key with its value is the only kind.
#[derive(Debug, Copy, Clone, PartialEq, Eq)]
pub enum PeekKind {
    Value,
}

/// The lookahead slot: nothing decided yet, the end of the source, or one
/// pending result.
#[derive(Debug, Copy, Clone)]
pub enum Next<T> {
    Uninitialized,
    Exhausted,
    Pending(T),
}

/// Whether a result is an item that consumers never see: a blank line or a
/// comment.
pub open spec fn is_skipped(r: Result<ItemView, ErrorView>) -> bool {
    r is Ok && !(r->Ok_0 is Value)
}

/// What consumers see of a stream: its key-value items up to and including the
/// first error. Blank lines and comments are passed over, and nothing follows
/// an error.
pub open spec fn significant(s: Seq<Result<ItemView, ErrorView>>) -> Seq<
    Result<ItemView, ErrorView>,
>
    decreases s.len(),
{
    if s.len() == 0 {
        Seq::empty()
    } else if is_skipped(s[0]) {
        significant(s.drop_first())
    } else if s[0] is Err {
        seq![s[0]]
    } else {
        seq![s[0]] + significant(s.drop_first())
    }
}

/// The slot that one pulled result makes of a waiting slot: a blank line or
/// a comment leaves it waiting, an item or an error becomes pending, and the
/// end of the source exhausts it.
pub open spec fn slot_for(pulled: Option<Result<ItemView, ErrorView>>) -> Next<
    Result<ItemView, ErrorView>,
> {
    match pulled {
        None => Next::Exhausted,
        Some(r) => if is_skipped(r) {
            Next::Uninitialized
        } else {
            Next::Pending(r)
        },
    }
}

/// What is left of a stream once the slot was filled from it: the blank lines
/// and comments at its front are gone, and so is the result behind them.
pub open spec fn after_fill(s: Seq<Result<ItemView, ErrorView>>) -> Seq<Result<ItemView, ErrorView>>
    decreases s.len(),
{
    if s.len() == 0 {
        s
    } else if is_skipped(s[0]) {
        after_fill(s.drop_first())
    } else {
        s.drop_first()
    }
}

/// Reads a flat `key=value` document item by item, with one item of lookahead.
#[derive(Debug)]
pub struct Deserializer<T> {
    input: T,
    next: Next<Result<Item, Error>>,
}

impl<T> Deserializer<T> {
    /// A deserializer that has pulled nothing from `input` yet.
    pub fn new(input: T) -> (out: Self)
        ensures
            out.source() == input,
            out.slot() is Uninitialized,
    {
        Deserializer { input, next: Next::Uninitialized }
    }

    /// The source that items are pulled from.
    pub closed spec fn source(self) -> T {
        self.input
    }

    /// The lookahead slot, with the pending result as its view.
    pub closed spec fn slot(self) -> Next<Result<ItemView, ErrorView>> {
        match self.next {
            Next::Uninitialized => Next::Uninitialized,
            Next::Exhausted => Next::Exhausted,
            Next::Pending(r) => Next::Pending(result_view(r)),
        }
    }
}

impl<T: NextExt> Deserializer<T> {
    /// Whether the slot holds what `populate` can have put there: never a blank
    /// line or a comment. This holds of a new deserializer and every method
    /// keeps it, so it holds of every deserializer that callers can have.
    pub open spec fn wf(self) -> bool {
        self.slot() matches Next::Pending(r) ==> !is_skipped(r)
    }

    /// What the source still holds once the slot is filled. Nothing is pulled
    /// from the source but to fill the slot, so this is what the source holds
    /// after any operation.
    pub open spec fn unread(self) -> Seq<Result<ItemView, ErrorView>> {
        if self.slot() is Uninitialized {
            after_fill(self.source().upcoming())
        } else {
            self.source().upcoming()
        }
    }

    /// Everything that is still to be consumed: the pending result, then what
    /// consumers will see of the source.
    pub open spec fn ahead(self) -> Seq<Result<ItemView, ErrorView>> {
        match self.slot() {
            Next::Uninitialized => significant(self.source().upcoming()),
            Next::Exhausted => Seq::empty(),
            Next::Pending(Err(e)) => seq![Err(e)],
            Next::Pending(Ok(item)) => seq![Ok(item)] + significant(self.source().upcoming()),
        }
    }

    /// Whether the slot still waits for a pull from the source.
    pub fn undecided(&self) -> (out: bool)
        ensures
            out == (self.slot() is Uninitialized),
    {
        match self.next {
            Next::Uninitialized => true,
            _ => false,
        }
    }

    /// Fills the slot from the source, passing over blank lines and comments.
    pub fn populate(&mut self)
        requires
            old(self).wf(),
        ensures
            final(self).wf(),
            !(final(self).slot() is Uninitialized),
            final(self).ahead() == old(self).ahead(),
            final(self).slot() is Exhausted <==> old(self).ahead().len() == 0,
            final(self).source().upcoming() == old(self).unread(),
            !(old(self).slot() is Uninitialized) ==> *final(self) == *old(self),
    {
        while self.undecided()
            invariant
                self.wf(),
                self.ahead() == old(self).ahead(),
                self.unread() == old(self).unread(),
                !(old(self).slot() is Uninitialized) ==> *self == *old(self),
            ensures
                !(self.slot() is Uninitialized),
            decreases
                self.input.upcoming().len() + (if self.slot() is Uninitialized {
                    1nat
                } else {
                    0nat
                }),
        {
            let next = self.input.next();
            self.settle(next);
        }
    }

    /// Decides the slot by one pulled result: a blank line or a comment
    /// leaves it waiting, an item or an error becomes pending, and the end of
    /// the source exhausts it.
    fn settle(&mut self, pulled: Option<Result<Item, Error>>)
        ensures
            final(self).source() == old(self).source(),
            final(self).slot() == slot_for(
                match pulled {
                    Some(r) => Some(result_view(r)),
                    None => None,
                },
            ),
    {
        self.next = match pulled {
            Some(Ok(Item::Comment { .. })) => Next::Uninitialized,
            Some(Ok(Item::Empty)) => Next::Uninitialized,
            Some(v) => Next::Pending(v),
            None => Next::Exhausted,
        };
    }

    /// Fills the waiting slot with a line that the caller has read itself, or
    /// with the end of its input, in place of a pull from the source. A caller
    /// that reads line by line feeds the slot whenever it is undecided, and
    /// the source is then never asked.
    pub fn feed<E: Message>(&mut self, line: Option<Result<String, E>>)
        requires
            old(self).wf(),
            old(self).slot() is Uninitialized,
        ensures
            final(self).wf(),
            final(self).source() == old(self).source(),
            final(self).slot() == slot_for(
                match line {
                    Some(read) => Some(read_result(read)),
                    None => None,
                },
            ),
    {
        let pulled = match line {
            Some(Ok(text)) => match Parser::<T>::parse_next::<E>(Some(text.as_str())) {
                Ok(Some(item)) => Some(Ok(item)),
                Ok(None) => None,
                Err(e) => Some(Err(Error::from(e))),
            },
            Some(Err(e)) => Some(Err(Error::from(ParseError::Inner(e)))),
            None => None,
        };
        self.settle(pulled);
    }
}

impl<T: NextExt> Deserializer<T> {
    /// Lends the pending item without consuming it. A pending error is taken
    /// out and handed over instead, and the slot is exhausted from then on.
    fn peek_item(&mut self) -> (out: Result<Option<&mut Item>, Error>)
        requires
            !(old(self).slot() is Uninitialized),
        ensures
            final(self).input == old(self).input,
            match old(self).next {
                Next::Pending(Ok(item)) => out matches Ok(Some(r)) && *r == item && final(self).next
                    == Next::Pending(Ok::<Item, Error>(*final(r))),
                Next::Pending(Err(e)) => out == Err::<Option<&mut Item>, Error>(e)
                    && final(self).next is Exhausted,
                _ => out matches Ok(None) && final(self).next == old(self).next,
            },
    {
        if self.failed() {
            let mut taken = Next::Exhausted;
            std::mem::swap(&mut self.next, &mut taken);
            match taken {
                Next::Pending(Err(e)) => Err(e),
                _ => Ok(None),
            }
        } else {
            match &mut self.next {
                Next::Pending(Ok(v)) => Ok(Some(v)),
                _ => Ok(None),
            }
        }
    }

    /// Whether an error is pending.
    fn failed(&self) -> (out: bool)
        ensures
            out == (self.slot() matches Next::Pending(Err(_))),
    {
        match &self.next {
            Next::Pending(Err(_)) => true,
            _ => false,
        }
    }
}

impl<T: NextExt> Deserializer<T> {
    /// Consumes what the slot holds. After an item the slot waits for the next
    /// pull; after an error, or at the end, it stays exhausted.
    fn next_item(&mut self) -> (out: Result<Item, Error>)
        requires
            !(old(self).slot() is Uninitialized),
        ensures
            final(self).input == old(self).input,
            match old(self).next {
                Next::Pending(Ok(item)) => out == Ok::<Item, Error>(item) && final(self).next
                    is Uninitialized,
                Next::Pending(Err(e)) => out == Err::<Item, Error>(e) && final(self).next
                    is Exhausted,
                _ => out matches Err(Error::UnexpectedEOF) && final(self).next is Exhausted,
            },
    {
        let mut next = if self.ended() {
            Next::Exhausted
        } else {
            Next::Uninitialized
        };
        std::mem::swap(&mut self.next, &mut next);
        match next {
            Next::Pending(v) => v,
            _ => Err(Error::UnexpectedEOF),
        }
    }

    /// Whether the slot is exhausted or about to be: an error is terminal.
    fn ended(&self) -> (out: bool)
        ensures
            out == !(self.slot() matches Next::Pending(Ok(_)) || self.slot() is Uninitialized),
    {
        match &self.next {
            Next::Exhausted => true,
            Next::Pending(Err(_)) => true,
            _ => false,
        }
    }

    /// Reports what is pending, without consuming it: a key with its value, or
    /// nothing at the end of the document. A pending error is handed out, once,
    /// and ends the document.
    pub fn peek_kind(&mut self) -> (out: Result<Option<PeekKind>, Error>)
        requires
            old(self).wf(),
        ensures
            final(self).wf(),
            final(self).source().upcoming() == old(self).unread(),
            !(final(self).slot() is Uninitialized),
            match head(old(self).ahead()) {
                None => out matches Ok(None) && final(self).ahead() == old(self).ahead(),
                Some(Ok(_)) => out matches Ok(Some(PeekKind::Value)) && final(self).ahead() == old(
                    self,
                ).ahead(),
                Some(Err(e)) => out matches Err(x) && x@ == e && final(self).ahead().len() == 0,
            },
    {
        self.populate();
        match self.peek_item() {
            Ok(Some(_)) => Ok(Some(PeekKind::Value)),
            Ok(None) => Ok(None),
            Err(e) => Err(e),
        }
    }

    /// Hands out the key of the pending item and leaves an empty key in its
    /// place; the value stays pending.
    pub fn next_key(&mut self) -> (out: Result<String, Error>)
        requires
            old(self).wf(),
        ensures
            final(self).wf(),
            final(self).source().upcoming() == old(self).unread(),
            !(final(self).slot() is Uninitialized),
            match head(old(self).ahead()) {
                None => out matches Err(Error::UnexpectedEOF) && final(self).ahead().len() == 0,
                Some(Ok(ItemView::Value { key, value })) => {
                    &&& out matches Ok(k) && k@ == key
                    &&& final(self).ahead() == old(self).ahead().update(
                        0,
                        Ok(ItemView::Value { key: Seq::empty(), value }),
                    )
                },
                Some(Ok(_)) => false,
                Some(Err(e)) => out matches Err(x) && x@ == e && final(self).ahead().len() == 0,
            },
    {
        self.populate();
        match self.peek_item() {
            Ok(Some(item)) => match item {
                Item::Value { key, .. } => {
                    let mut taken = String::new();
                    std::mem::swap(key, &mut taken);
                    Ok(taken)
                },
                _ => Err(Error::InvalidState),
            },
            Ok(None) => Err(Error::UnexpectedEOF),
            Err(e) => Err(e),
        }
    }

    /// Consumes the pending item and hands out its value.
    pub fn next_value(&mut self) -> (out: Result<String, Error>)
        requires
            old(self).wf(),
        ensures
            final(self).wf(),
            final(self).source().upcoming() == old(self).unread(),
            match head(old(self).ahead()) {
                Some(Ok(_)) => final(self).slot() is Uninitialized,
                _ => final(self).slot() is Exhausted,
            },
            match head(old(self).ahead()) {
                None => out matches Err(Error::UnexpectedEOF) && final(self).ahead().len() == 0,
                Some(Ok(ItemView::Value { key, value })) => {
                    &&& out matches Ok(v) && v@ == value
                    &&& final(self).ahead() == old(self).ahead().drop_first()
                },
                Some(Ok(_)) => false,
                Some(Err(e)) => out matches Err(x) && x@ == e && final(self).ahead().len() == 0,
            },
    {
        self.populate();
        match self.next_item() {
            Ok(item) => match item {
                Item::Value { value, .. } => Ok(value),
                _ => Err(Error::InvalidState),
            },
            Err(e) => Err(e),
        }
    }

    /// Succeeds only at the end of the document: an item that is still pending
    /// is a key that nobody asked for.
    pub fn assert_eof(&mut self) -> (out: Result<(), Error>)
        requires
            old(self).wf(),
        ensures
            final(self).wf(),
            final(self).source().upcoming() == old(self).unread(),
            !(final(self).slot() is Uninitialized),
            match head(old(self).ahead()) {
                None => out is Ok && final(self).ahead().len() == 0,
                Some(Ok(_)) => out matches Err(Error::InvalidState) && final(self).ahead() == old(
                    self,
                ).ahead(),
                Some(Err(e)) => out matches Err(x) && x@ == e && final(self).ahead().len() == 0,
            },
    {
        self.populate();
        match self.peek_item() {
            Ok(Some(_)) => Err(Error::InvalidState),
            Ok(None) => Ok(()),
            Err(e) => Err(e),
        }
    }
}

/// One entry of the mapping that a document is: a key and its value.
pub type Entry = (Seq<char>, Seq<char>);

/// The entries that consumers find in what lies ahead, in order, or the error
/// that ends the traversal.
pub open spec fn entries_of(ahead: Seq<Result<ItemView, ErrorView>>) -> Result<Seq<Entry>, ErrorView>
    decreases ahead.len(),
{
    if ahead.len() == 0 {
        Ok(Seq::empty())
    } else {
        match ahead[0] {
            Err(e) => Err(e),
            Ok(ItemView::Value { key, value }) => prepend((key, value), entries_of(ahead.drop_first())),
            Ok(_) => entries_of(ahead.drop_first()),
        }
    }
}

/// `rest` with `entry` in front, or the error that `rest` is.
pub open spec fn prepend(entry: Entry, rest: Result<Seq<Entry>, ErrorView>) -> Result<
    Seq<Entry>,
    ErrorView,
> {
    match rest {
        Ok(entries) => Ok(seq![entry] + entries),
        Err(e) => Err(e),
    }
}

/// The entries of `found` followed by `rest`, or the error that `rest` is.
pub open spec fn followed_by(found: Seq<Entry>, rest: Result<Seq<Entry>, ErrorView>) -> Result<
    Seq<Entry>,
    ErrorView,
> {
    match rest {
        Ok(entries) => Ok(found + entries),
        Err(e) => Err(e),
    }
}

/// Entries as sequences of characters.
pub open spec fn entry_views(entries: Seq<(String, String)>) -> Seq<Entry> {
    Seq::new(entries.len(), |i: int| (entries[i].0@, entries[i].1@))
}

/// Whether `out` is what `expected` says: the same entries, or the same error.
pub open spec fn is_outcome(
    out: Result<Vec<(String, String)>, Error>,
    expected: Result<Seq<Entry>, ErrorView>,
) -> bool {
    match expected {
        Ok(entries) => out matches Ok(found) && entry_views(found@) == entries,
        Err(e) => out matches Err(x) && x@ == e,
    }
}

impl<T: NextExt> Deserializer<T> {
    /// The key of the next entry of the mapping, or `None` where the document
    /// has no more entries. The entry's value stays pending.
    pub fn next_entry_key(&mut self) -> (out: Result<Option<String>, Error>)
        requires
            old(self).wf(),
        ensures
            final(self).wf(),
            final(self).source().upcoming() == old(self).unread(),
            !(final(self).slot() is Uninitialized),
            match head(old(self).ahead()) {
                None => out matches Ok(None) && final(self).ahead().len() == 0,
                Some(Ok(ItemView::Value { key, value })) => {
                    &&& out matches Ok(Some(k)) && k@ == key
                    &&& final(self).ahead() == old(self).ahead().update(
                        0,
                        Ok(ItemView::Value { key: Seq::empty(), value }),
                    )
                },
                Some(Ok(_)) => false,
                Some(Err(e)) => out matches Err(x) && x@ == e && final(self).ahead().len() == 0,
            },
    {
        match self.peek_kind() {
            Ok(Some(PeekKind::Value)) => match self.next_key() {
                Ok(key) => Ok(Some(key)),
                Err(e) => Err(e),
            },
            Ok(None) => Ok(None),
            Err(e) => Err(e),
        }
    }

    /// Makes sure that the value of the entry whose key was read is pending,
    /// so that it can be asked for in the shape that the target expects.
    pub fn next_entry_value(&mut self) -> (out: Result<(), Error>)
        requires
            old(self).wf(),
        ensures
            final(self).wf(),
            final(self).source().upcoming() == old(self).unread(),
            !(final(self).slot() is Uninitialized),
            match head(old(self).ahead()) {
                None => out matches Err(Error::UnexpectedEOF) && final(self).ahead().len() == 0,
                Some(Ok(_)) => out is Ok && final(self).ahead() == old(self).ahead(),
                Some(Err(e)) => out matches Err(x) && x@ == e && final(self).ahead().len() == 0,
            },
    {
        match self.peek_kind() {
            Ok(Some(PeekKind::Value)) => Ok(()),
            Ok(None) => Err(Error::UnexpectedEOF),
            Err(e) => Err(e),
        }
    }

    /// Traverses what is left of the document as the mapping that it is, and
    /// collects its entries in input order, each value as it stands.
    pub fn entries(&mut self) -> (out: Result<Vec<(String, String)>, Error>)
        requires
            old(self).wf(),
        ensures
            final(self).wf(),
            is_outcome(out, entries_of(old(self).ahead())),
            final(self).ahead().len() == 0,
            final(self).slot() is Exhausted,
    {
        let mut found: Vec<(String, String)> = Vec::new();
        loop
            invariant
                self.wf(),
                entries_of(old(self).ahead()) == followed_by(
                    entry_views(found@),
                    entries_of(self.ahead()),
                ),
            ensures
                self.wf(),
                self.ahead().len() == 0,
                self.slot() is Exhausted,
                entries_of(old(self).ahead()) == Ok::<Seq<Entry>, ErrorView>(entry_views(found@)),
            decreases self.ahead().len(),
        {
            let ghost before = self.ahead();
            let key = match self.next_entry_key() {
                Ok(Some(key)) => key,
                Ok(None) => {
                    proof {
                        assert(entry_views(found@) + Seq::<Entry>::empty() =~= entry_views(found@));
                    }
                    break ;
                },
                Err(e) => {
                    return Err(e);
                },
            };
            match self.next_entry_value() {
                Ok(()) => {},
                Err(e) => {
                    return Err(e);
                },
            }
            let value = match self.next_value() {
                Ok(value) => value,
                Err(e) => {
                    return Err(e);
                },
            };
            proof {
                assert(self.ahead() =~= before.drop_first());
                let entry = (key@, value@);
                let rest = entries_of(self.ahead());
                assert(entry_views(found@.push((key, value))) =~= entry_views(found@).push(entry));
                if let Ok(entries) = rest {
                    assert(entry_views(found@) + (seq![entry] + entries) =~= entry_views(
                        found@,
                    ).push(entry) + entries);
                }
            }
            found.push((key, value));
        }
        Ok(found)
    }
}

/// The entry that a key-value item is.
pub open spec fn entry_of(r: Result<ItemView, ErrorView>) -> Entry {
    match r {
        Ok(ItemView::Value { key, value }) => (key, value),
        _ => (Seq::empty(), Seq::empty()),
    }
}

/// Blank lines and comments are transparent, wherever they stand: a stream
/// and the same stream without them look the same to consumers.
pub proof fn lemma_skipped_are_transparent(s: Seq<Result<ItemView, ErrorView>>)
    ensures
        significant(s) == significant(s.filter(|r: Result<ItemView, ErrorView>| !is_skipped(r))),
    decreases s.len(),
{
    let keep = |r: Result<ItemView, ErrorView>| !is_skipped(r);
    if s.len() == 0 {
        assert(s.filter(keep) =~= s);
    } else {
        let first = seq![s[0]];
        let rest = s.drop_first();
        assert(s =~= first + rest);
        Seq::filter_distributes_over_add(first, rest, keep);
        reveal_with_fuel(Seq::filter, 2);
        assert(first.drop_last() =~= Seq::empty());
        lemma_skipped_are_transparent(rest);
        if is_skipped(s[0]) {
            assert(first.filter(keep) =~= Seq::empty());
            assert(s.filter(keep) =~= rest.filter(keep));
        } else {
            assert(first.filter(keep) =~= first);
            assert(s.filter(keep) =~= first + rest.filter(keep));
            assert(s.filter(keep)[0] == s[0]);
            assert(s.filter(keep).drop_first() =~= rest.filter(keep));
        }
    }
}

/// A stream of key-value items alone yields one entry for each of them, in
/// the order of the items.
pub proof fn lemma_values_are_entries(s: Seq<Result<ItemView, ErrorView>>)
    requires
        forall|i: int| 0 <= i < s.len() ==> (#[trigger] s[i] matches Ok(ItemView::Value { .. })),
    ensures
        significant(s) == s,
        entries_of(s) == Ok::<Seq<Entry>, ErrorView>(Seq::new(s.len(), |i: int| entry_of(s[i]))),
    decreases s.len(),
{
    if s.len() > 0 {
        let rest = s.drop_first();
        assert forall|i: int| 0 <= i < rest.len() implies (#[trigger] rest[i] matches Ok(
            ItemView::Value { .. },
        )) by {
            assert(rest[i] == s[i + 1]);
        }
        lemma_values_are_entries(rest);
        assert(s[0] matches Ok(ItemView::Value { .. }));
        assert(significant(s) =~= s);
        assert(seq![entry_of(s[0])] + Seq::new(rest.len(), |i: int| entry_of(rest[i])) =~= Seq::new(
            s.len(),
            |i: int| entry_of(s[i]),
        ));
    } else {
        assert(Seq::new(s.len(), |i: int| entry_of(s[i])) =~= Seq::<Entry>::empty());
    }
}

/// One error in a stream makes the traversal of the whole stream fail: no
/// entries come out of it.
pub proof fn lemma_error_fails_traversal(s: Seq<Result<ItemView, ErrorView>>, at: int)
    requires
        0 <= at < s.len(),
        s[at] is Err,
    ensures
        entries_of(significant(s)) is Err,
    decreases s.len(),
{
    let rest = s.drop_first();
    if s[0] is Err {
    } else {
        assert(rest[at - 1] == s[at]);
        lemma_error_fails_traversal(rest, at - 1);
        if !is_skipped(s[0]) {
            assert((seq![s[0]] + significant(rest)).drop_first() =~= significant(rest));
        }
    }
}

/// A document with a line that is not empty, is no comment and has no `=`
/// cannot be read, whatever its other lines hold.
pub proof fn lemma_missing_equals_fails_document(lines: Seq<Seq<char>>, at: int)
    requires
        0 <= at < lines.len(),
        lines[at].len() > 0,
        !is_comment(lines[at]),
        !lines[at].contains('='),
    ensures
        entries_of(significant(text_stream(lines))) is Err,
{
    lemma_missing_equals(lines[at]);
    lemma_error_fails_traversal(text_stream(lines), at);
}

/// What a line comes to for consumers: its item, or the message of its syntax
/// error.
pub open spec fn line_result(line: Seq<char>) -> Result<ItemView, ErrorView> {
    match classify(line) {
        Ok(item) => Ok(item),
        Err(e) => Err(ErrorView::Custom("syntax error "@ + e.text())),
    }
}

/// The stream of results that the lines of a text come to.
pub open spec fn text_stream(lines: Seq<Seq<char>>) -> Seq<Result<ItemView, ErrorView>> {
    Seq::new(lines.len(), |i: int| line_result(lines[i]))
}

/// What a line that was read, or the failure to read it, comes to for
/// consumers.
pub open spec fn read_result<E: Message>(line: Result<String, E>) -> Result<ItemView, ErrorView> {
    match line {
        Ok(text) => line_result(text@),
        Err(e) => Err(ErrorView::Custom(e.text())),
    }
}

/// The stream of results that lines come to which were read one by one.
pub open spec fn read_stream<E: Message>(lines: Seq<Result<String, E>>) -> Seq<
    Result<ItemView, ErrorView>,
> {
    Seq::new(lines.len(), |i: int| read_result(lines[i]))
}

impl<E: Message> Deserializer<Parser<VecDeque<Result<String, E>>>> {
    /// A deserializer over lines that were read one by one, each of which may
    /// have failed.
    pub fn from_buf_read(lines: VecDeque<Result<String, E>>) -> (out: Self)
        ensures
            out.wf(),
            out.ahead() == significant(read_stream(lines@)),
    {
        let parser = Parser::from_buf_read(lines);
        proof {
            assert(parser.upcoming() =~= read_stream(lines@));
        }
        Deserializer::new(parser)
    }
}

/// Reads a document from a text: the entries of the mapping that it is, in
/// input order, or the error of its first malformed line.
pub fn from_str(s: &str) -> (out: Result<Vec<(String, String)>, Error>)
    ensures
        is_outcome(out, entries_of(significant(text_stream(str_lines(s@))))),
{
    let parser = Parser::from_str(s);
    proof {
        assert(parser.upcoming() =~= text_stream(str_lines(s@)));
    }
    let mut de = Deserializer::new(parser);
    let found = match de.entries() {
        Ok(found) => found,
        Err(e) => {
            return Err(e);
        },
    };
    match de.assert_eof() {
        Ok(()) => Ok(found),
        Err(e) => Err(e),
    }
}

/// Reads a document from lines that were read one by one: the entries of the
/// mapping that it is, in input order, or the error of the first line that is
/// malformed or could not be read.
pub fn from_buf_read<E: Message>(lines: VecDeque<Result<String, E>>) -> (out: Result<
    Vec<(String, String)>,
    Error,
>)
    ensures
        is_outcome(out, entries_of(significant(read_stream(lines@)))),
{
    let mut de = Deserializer::from_buf_read(lines);
    let found = match de.entries() {
        Ok(found) => found,
        Err(e) => {
            return Err(e);
        },
    };
    match de.assert_eof() {
        Ok(()) => Ok(found),
        Err(e) => Err(e),
    }
}

} // verus!

use crate::conf::parse::{has_white_space, is_whitespace};
use vstd::prelude::*;
use vstd::std_specs::iter::IteratorSpec;

verus! {

broadcast use vstd::string::group_string_axioms;

/// The characters of `s` that are not whitespace, in their order.
pub open spec fn without_whitespace(s: Seq<char>) -> Seq<char>
    decreases s.len(),
{
    if s.len() == 0 {
        s
    } else if is_whitespace(s.last()) {
        without_whitespace(s.drop_last())
    } else {
        without_whitespace(s.drop_last()).push(s.last())
    }
}

/// `String::push`: appends one character.
#[verifier::external_body]
fn push_char(s: &mut String, c: char)
    ensures
        final(s)@ == old(s)@.push(c),
{
    s.push(c)
}

/// Removal of all whitespace, not only at the ends.
pub trait Trim {
    /// The text that is looked at.
    spec fn text(&self) -> Seq<char>;

    /// A copy without any whitespace; the string itself stays as it is.
    fn trim_all(&mut self) -> (out: String)
        ensures
            out@ == without_whitespace(old(self).text()),
            final(self).text() == old(self).text(),
    ;
}

impl Trim for String {
    open spec fn text(&self) -> Seq<char> {
        self@
    }

    fn trim_all(&mut self) -> (out: String) {
        let mut out = String::new();
        let mut rest = self.as_str().chars();
        let ghost mut done: Seq<char> = Seq::empty();
        loop
            invariant
                self@ == old(self)@,
                done + rest.remaining() == self@,
                out@ == without_whitespace(done),
                rest.obeys_prophetic_iter_laws(),
                rest.decrease() is Some,
            ensures
                self@ == old(self)@,
                out@ == without_whitespace(self@),
            decreases rest.decrease()->0,
        {
            let ghost before = rest.remaining();
            match rest.next() {
                Some(c) => {
                    proof {
                        assert(done.push(c).drop_last() =~= done);
                        assert(done.push(c) + rest.remaining() =~= done + before);
                        done = done.push(c);
                    }
                    if !has_white_space(c) {
                        push_char(&mut out, c);
                    }
                },
                None => {
                    proof {
                        assert(done =~= self@);
                    }
                    break ;
                },
            }
        }
        out
    }
}

} // verus!

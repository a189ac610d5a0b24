//! The query text that the user edits.

use vstd::prelude::*;

verus! {

/// `String::push` appends the character to the end of the string.
pub assume_specification[ String::push ](text: &mut String, ch: char)
    ensures
        final(text)@ == old(text)@.push(ch),
;

/// `String::pop` removes the last character and returns it, or returns
/// `None` and leaves the string as it is where the string is empty.
pub assume_specification[ String::pop ](text: &mut String) -> (last: Option<char>)
    ensures
        old(text)@.len() == 0 ==> last is None && final(text)@ == old(text)@,
        old(text)@.len() > 0 ==> last == Some(old(text)@.last()) && final(text)@ == old(text)@.drop_last(),
;

/// `String::clear` removes all contents of the string.
pub assume_specification[ String::clear ](text: &mut String)
    ensures
        final(text)@ == Seq::<char>::empty(),
;

/// A text without its last character; the empty text stays empty.
pub open spec fn popped(text: Seq<char>) -> Seq<char> {
    if text.len() == 0 {
        text
    } else {
        text.drop_last()
    }
}

/// A text with everything removed.
pub open spec fn cleared(text: Seq<char>) -> Seq<char> {
    Seq::empty()
}

/// The search query: a text that grows and shrinks by whole characters.
/// Any text is accepted, whatever it would mean as a pattern.
pub struct SearchEntry {
    text: String,
}

impl View for SearchEntry {
    type V = Seq<char>;

    closed spec fn view(&self) -> Seq<char> {
        self.text@
    }
}

impl SearchEntry {
    /// An empty query.
    pub fn new() -> (entry: Self)
        ensures
            entry@ == Seq::<char>::empty(),
    {
        Self { text: String::new() }
    }

    /// The current text.
    pub fn text(&self) -> (text: &str)
        ensures
            text@ == self@,
    {
        self.text.as_str()
    }

    /// Appends one character.
    pub fn push(&mut self, c: char)
        ensures
            final(self)@ == old(self)@.push(c),
    {
        self.text.push(c);
    }

    /// Removes the last character, if there is one.
    pub fn pop(&mut self)
        ensures
            final(self)@ == popped(old(self)@),
    {
        self.text.pop();
    }

    /// Removes everything.
    pub fn clear(&mut self)
        ensures
            final(self)@ == cleared(old(self)@),
            final(self)@.len() == 0,
    {
        self.text.clear();
    }
}

/// Clearing is idempotent: a cleared text is empty, and clearing it again
/// leaves it empty.
pub proof fn lemma_clear_twice(text: Seq<char>)
    ensures
        cleared(text) == Seq::<char>::empty(),
        cleared(cleared(text)) == cleared(text),
{
}

} // verus!

//! The commit message hook: when a message gets an emoji, and how.

use crate::emoji::Emoji;
use vstd::prelude::*;
use vstd::string::StringSliceAdditionalSpecFns;

verus! {

/// `needle` occurs in `haystack`: some run of consecutive characters of
/// `haystack` is `needle`.
pub open spec fn occurs_in(needle: Seq<char>, haystack: Seq<char>) -> bool {
    exists|start: int|
        0 <= start <= haystack.len() - needle.len()
            && #[trigger] haystack.subrange(start, start + needle.len()) == needle
}

/// `str::contains` with a text as the pattern: whether the text occurs in
/// the string.
#[verifier::external_body]
fn text_contains(haystack: &str, needle: &str) -> (found: bool)
    ensures
        found == occurs_in(needle@, haystack@),
{
    haystack.contains(needle)
}

/// Where a commit message comes from, as git tells the hook.
#[derive(Clone, Copy, Debug, PartialEq, Eq)]
pub enum MessageSource {
    Message,
    Template,
    Merge,
    Squash,
    Commit,
}

/// The sources whose messages get an emoji: a message given on the command
/// line, a merge, and a message of no stated source.
pub open spec fn takes_emoji(source: Option<MessageSource>) -> bool {
    match source {
        None => true,
        Some(MessageSource::Message) => true,
        Some(MessageSource::Merge) => true,
        Some(MessageSource::Template) => false,
        Some(MessageSource::Squash) => false,
        Some(MessageSource::Commit) => false,
    }
}

/// Whether a message from this source gets an emoji.
pub fn wants_emoji(source: Option<MessageSource>) -> (wanted: bool)
    ensures
        wanted == takes_emoji(source),
{
    match source {
        None | Some(MessageSource::Message | MessageSource::Merge) => true,
        Some(MessageSource::Template | MessageSource::Squash | MessageSource::Commit) => false,
    }
}

/// A line mentions a record when the record's emoji or its code occurs in
/// the line.
pub open spec fn mentions(line: Seq<char>, record: Emoji) -> bool {
    occurs_in(record.emoji@, line) || occurs_in(record.code@, line)
}

/// A line has an emoji when it is not empty and mentions a record of the
/// catalog.
pub open spec fn has_emoji(line: Seq<char>, catalog: Seq<Emoji>) -> bool {
    line.len() > 0 && exists|i: int| 0 <= i < catalog.len() && mentions(line, #[trigger] catalog[i])
}

/// Whether the first line of a message already holds an emoji of the
/// catalog, as the emoji itself or as its code.
pub fn already_has_emoji(first_line: &str, catalog: &[Emoji]) -> (found: bool)
    ensures
        found == has_emoji(first_line@, catalog@),
{
    if first_line.is_empty() {
        return false;
    }
    let mut i: usize = 0;
    while i < catalog.len()
        invariant
            i <= catalog.len(),
            first_line@.len() > 0,
            forall|k: int| 0 <= k < i ==> !mentions(first_line@, #[trigger] catalog@[k]),
        decreases catalog.len() - i,
    {
        let record: &Emoji = &catalog[i];
        if text_contains(first_line, record.emoji) || text_contains(first_line, record.code) {
            return true;
        }
        i += 1;
    }
    false
}

/// The message with the emoji put in front: the emoji, a space, and the
/// message as it was.
pub fn with_emoji(emoji: &str, message: &[u8]) -> (marked: Vec<u8>)
    ensures
        marked@ == emoji.spec_bytes() + seq![0x20u8] + message@,
{
    let mut marked: Vec<u8> = Vec::new();
    marked.extend_from_slice(emoji.as_bytes());
    marked.push(0x20u8);
    marked.extend_from_slice(message);
    proof {
        assert(marked@ =~= emoji.spec_bytes() + seq![0x20u8] + message@);
    }
    marked
}

} // verus!

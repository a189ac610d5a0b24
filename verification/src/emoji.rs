//! The records of the catalog and the test of one record against a pattern.

use crate::pattern::regex_language;
use regex::Regex;
use vstd::prelude::*;

verus! {

/// One entry of the catalog.
#[derive(Debug)]
pub struct Emoji {
    /// Short code, unique within a catalog.
    pub code: &'static str,
    /// Free-text description.
    pub description: &'static str,
    /// The emoji itself: what a selection hands back.
    pub emoji: &'static str,
    /// Entity form of the emoji.
    pub entity: &'static str,
    /// Canonical name.
    pub name: &'static str,
}

impl Emoji {
    /// A record is matched by a language when any one of its five fields
    /// belongs to it.
    pub open spec fn matched_by(self, language: Set<Seq<char>>) -> bool {
        ||| language.contains(self.code@)
        ||| language.contains(self.description@)
        ||| language.contains(self.emoji@)
        ||| language.contains(self.entity@)
        ||| language.contains(self.name@)
    }

    /// Whether the pattern matches any field of this record.
    pub fn contains(&self, pattern: &Regex) -> (found: bool)
        ensures
            found == self.matched_by(regex_language(*pattern)),
    {
        pattern.is_match(self.code)
            || pattern.is_match(self.description)
            || pattern.is_match(self.emoji)
            || pattern.is_match(self.entity)
            || pattern.is_match(self.name)
    }
}

} // verus!

//! Which color scheme to draw in: the order in which the sources of a
//! choice are asked.

use vstd::prelude::*;

verus! {

/// `==` on `str`: two texts are equal when they hold the same characters.
#[verifier::external_body]
fn same_text(left: &str, right: &str) -> (same: bool)
    ensures
        same == (left@ == right@),
{
    left == right
}

/// A color scheme.
#[derive(Clone, Copy, Debug, PartialEq, Eq)]
pub enum ColorScheme {
    Light,
    Dark,
}

/// The scheme that a name stands for: `light` or `dark`, spelled so.
pub open spec fn named(name: Seq<char>) -> Option<ColorScheme> {
    if name == "light"@ {
        Some(ColorScheme::Light)
    } else if name == "dark"@ {
        Some(ColorScheme::Dark)
    } else {
        None
    }
}

/// The choice that is made before the terminal is asked: what the
/// environment names, where it names a scheme; else what was passed as an
/// argument.
pub open spec fn preferred(environment: Option<Seq<char>>, argument: Option<ColorScheme>) -> Option<ColorScheme> {
    match environment {
        Some(name) => match named(name) {
            Some(scheme) => Some(scheme),
            None => argument,
        },
        None => argument,
    }
}

/// The text of an optional value.
pub open spec fn text_of(value: Option<&str>) -> Option<Seq<char>> {
    match value {
        Some(text) => Some(text@),
        None => None,
    }
}

impl ColorScheme {
    /// The scheme that `name` stands for, if any.
    pub fn from_name(name: &str) -> (scheme: Option<ColorScheme>)
        ensures
            scheme == named(name@),
    {
        if same_text(name, "light") {
            Some(ColorScheme::Light)
        } else if same_text(name, "dark") {
            Some(ColorScheme::Dark)
        } else {
            None
        }
    }

    /// The scheme chosen without asking the terminal, by precedence: the
    /// environment's value, then the argument. `None` leaves the choice to
    /// detection.
    pub fn pick(environment: Option<&str>, argument: Option<ColorScheme>) -> (scheme: Option<ColorScheme>)
        ensures
            scheme == preferred(text_of(environment), argument),
    {
        match environment {
            Some(name) => match ColorScheme::from_name(name) {
                Some(scheme) => Some(scheme),
                None => argument,
            },
            None => argument,
        }
    }

    /// The scheme where detection has the last word: what was detected, or
    /// dark where nothing was.
    pub fn or_default(detected: Option<ColorScheme>) -> (scheme: ColorScheme)
        ensures
            scheme == (match detected {
                Some(found) => found,
                None => ColorScheme::Dark,
            }),
    {
        match detected {
            Some(found) => found,
            None => ColorScheme::Dark,
        }
    }
}

} // verus!

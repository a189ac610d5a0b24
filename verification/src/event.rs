//! Key presses and what they do: the transition rule of the picker.

use crate::emoji::Emoji;
use crate::search_entry::{popped, SearchEntry};
use crate::selection_view::{moved_down, moved_up, FilteredView};
use vstd::prelude::*;

verus! {

/// The key of a key press, as far as the picker tells keys apart.
#[derive(Clone, Copy, Debug, PartialEq, Eq)]
pub enum KeyCode {
    Backspace,
    Enter,
    Up,
    Down,
    Tab,
    BackTab,
    Esc,
    /// A character key, with the character it gives.
    Char(char),
    /// Any other key.
    Other,
}

/// A key press: the key, and whether Control was held.
#[derive(Clone, Copy, Debug, PartialEq, Eq)]
pub struct KeyEvent {
    pub code: KeyCode,
    pub control: bool,
}

/// What a key press asks for.
#[derive(Clone, Copy, Debug, PartialEq, Eq)]
pub enum Input {
    /// Take the highlighted row.
    Enter,
    /// Clear the query, or leave where it is clear already.
    Escape,
    /// Highlight the next row.
    Down,
    /// Highlight the previous row.
    Up,
    /// Add a character to the query.
    Printable(char),
    /// Leave at once.
    Interrupt,
    /// Remove the last character of the query.
    Backspace,
    /// Nothing.
    Other,
}

/// How the picker answers a key press.
#[derive(Clone, Copy, Debug, PartialEq, Eq)]
pub enum EventResponse {
    /// The session goes on.
    Noop,
    /// The session ends with this emoji.
    EmojiSelected(&'static str),
    /// The session ends without a selection.
    Exit,
}

impl Default for EventResponse {
    fn default() -> (response: Self)
        ensures
            response == EventResponse::Noop,
    {
        EventResponse::Noop
    }
}

impl KeyEvent {
    /// What this key press asks for. Tab stands for Down and BackTab for
    /// Up; Control with `c` interrupts; every other character is typed.
    pub open spec fn meaning(self) -> Input {
        match self.code {
            KeyCode::Enter => Input::Enter,
            KeyCode::Esc => Input::Escape,
            KeyCode::Down => Input::Down,
            KeyCode::Tab => Input::Down,
            KeyCode::Up => Input::Up,
            KeyCode::BackTab => Input::Up,
            KeyCode::Char(ch) => if ch == 'c' && self.control {
                Input::Interrupt
            } else {
                Input::Printable(ch)
            },
            KeyCode::Backspace => Input::Backspace,
            KeyCode::Other => Input::Other,
        }
    }

    /// What this key press asks for.
    pub fn input(&self) -> (input: Input)
        ensures
            input == self.meaning(),
    {
        match self.code {
            KeyCode::Enter => Input::Enter,
            KeyCode::Esc => Input::Escape,
            KeyCode::Down | KeyCode::Tab => Input::Down,
            KeyCode::Up | KeyCode::BackTab => Input::Up,
            KeyCode::Char(ch) => {
                if ch == 'c' && self.control {
                    Input::Interrupt
                } else {
                    Input::Printable(ch)
                }
            },
            KeyCode::Backspace => Input::Backspace,
            KeyCode::Other => Input::Other,
        }
    }
}

/// The answer to an input, given the query, the rows shown and the
/// highlight among them. Enter takes the highlighted row's emoji, where a
/// row is highlighted; Escape leaves where the query is empty; an interrupt
/// always leaves; everything else goes on.
pub open spec fn response_to(
    input: Input,
    query: Seq<char>,
    rows: Seq<Emoji>,
    highlighted: Option<nat>,
) -> EventResponse {
    match input {
        Input::Enter => match highlighted {
            Some(i) => EventResponse::EmojiSelected(rows[i as int].emoji),
            None => EventResponse::Noop,
        },
        Input::Escape => if query.len() == 0 {
            EventResponse::Exit
        } else {
            EventResponse::Noop
        },
        Input::Interrupt => EventResponse::Exit,
        _ => EventResponse::Noop,
    }
}

/// The query after an input: Escape clears it, a character is appended,
/// Backspace removes the last character; nothing else touches it.
pub open spec fn query_after(input: Input, query: Seq<char>) -> Seq<char> {
    match input {
        Input::Escape => Seq::empty(),
        Input::Printable(ch) => query.push(ch),
        Input::Backspace => popped(query),
        _ => query,
    }
}

/// The highlight among `n` rows after an input: Down and Up move it round;
/// nothing else touches it.
pub open spec fn highlight_after(input: Input, highlighted: Option<nat>, n: nat) -> Option<nat> {
    match input {
        Input::Down => moved_down(highlighted, n),
        Input::Up => moved_up(highlighted, n),
        _ => highlighted,
    }
}

/// Applies one key press to the query and to the view of the rows that the
/// query shows, and says how the session goes on.
pub fn handle_key_event(
    event: KeyEvent,
    search_entry: &mut SearchEntry,
    filtered_view: &mut FilteredView,
) -> (response: EventResponse)
    ensures
        response == response_to(
            event.meaning(),
            old(search_entry)@,
            old(filtered_view).rows(),
            old(filtered_view).highlighted(),
        ),
        final(search_entry)@ == query_after(event.meaning(), old(search_entry)@),
        final(filtered_view).rows() == old(filtered_view).rows(),
        final(filtered_view).highlighted() == highlight_after(
            event.meaning(),
            old(filtered_view).highlighted(),
            old(filtered_view).rows().len(),
        ),
{
    match event.input() {
        Input::Enter => match filtered_view.selected() {
            Some(emoji) => EventResponse::EmojiSelected(emoji.emoji),
            None => EventResponse::default(),
        },
        Input::Escape => {
            if search_entry.text().is_empty() {
                EventResponse::Exit
            } else {
                search_entry.clear();
                EventResponse::Noop
            }
        },
        Input::Down => {
            filtered_view.move_down();
            EventResponse::Noop
        },
        Input::Up => {
            filtered_view.move_up();
            EventResponse::Noop
        },
        Input::Printable(ch) => {
            search_entry.push(ch);
            EventResponse::Noop
        },
        Input::Interrupt => EventResponse::Exit,
        Input::Backspace => {
            search_entry.pop();
            EventResponse::Noop
        },
        Input::Other => EventResponse::Noop,
    }
}

} // verus!

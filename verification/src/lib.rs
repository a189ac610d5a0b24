//! The selection engine of an emoji picker: a query that is edited one
//! character at a time, the rows of a fixed catalog that the query matches,
//! the highlighted row, and the rule that turns a key press into the next
//! state of the three. Beside it stand the rules of the commit message hook
//! and of the choice of a color scheme.
//!
//! The engine draws nothing and reads no keys: a host shows what
//! `Session::current_view` hands out and passes each key press to
//! `Session::handle_event`, until the answer ends the session.

pub mod color_scheme;
pub mod emoji;
pub mod event;
pub mod filter;
pub mod hook;
pub mod pattern;
pub mod search_entry;
pub mod selection_view;
pub mod session;

pub use emoji::Emoji;
pub use event::{EventResponse, KeyCode, KeyEvent};
pub use pattern::QueryError;
pub use session::{begin_session, Session, Snapshot};

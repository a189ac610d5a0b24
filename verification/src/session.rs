//! One run of the picker: the query, the selection, and the cycle that shows
//! the rows and takes a key press.

use crate::emoji::Emoji;
use crate::event::{
    handle_key_event, highlight_after, query_after, response_to, EventResponse, Input, KeyEvent,
};
use crate::filter::{filtered, records_of};
use crate::pattern::QueryError;
use crate::search_entry::SearchEntry;
use crate::selection_view::{position, reconciled, valid_for, FilteredView, SelectionView};
use vstd::prelude::*;

verus! {

/// The rows on display for a query: the rows that it shows of the catalog,
/// and none where it does not compile.
pub open spec fn displayed_rows(catalog: Seq<Emoji>, query: Seq<char>) -> Seq<Emoji> {
    match filtered(catalog, query) {
        Some(rows) => rows,
        None => Seq::empty(),
    }
}

/// The selection once it has been fitted to what a query shows. A query
/// that does not compile leaves it as it is.
pub open spec fn settled(catalog: Seq<Emoji>, query: Seq<char>, selected: Option<nat>) -> Option<nat> {
    match filtered(catalog, query) {
        Some(rows) => reconciled(selected, rows.len()),
        None => selected,
    }
}

/// The highlight on display: the settled selection, and none where the
/// query does not compile.
pub open spec fn displayed_highlight(catalog: Seq<Emoji>, query: Seq<char>, selected: Option<nat>) -> Option<nat> {
    match filtered(catalog, query) {
        Some(rows) => reconciled(selected, rows.len()),
        None => None,
    }
}

/// The selection after a key press: the settled selection, moved as the
/// input asks among the rows on display. While the query does not compile
/// nothing moves.
pub open spec fn selection_after(input: Input, catalog: Seq<Emoji>, query: Seq<char>, selected: Option<nat>) -> Option<nat> {
    match filtered(catalog, query) {
        Some(rows) => highlight_after(input, reconciled(selected, rows.len()), rows.len()),
        None => selected,
    }
}

/// Showing is idempotent: once the selection has been fitted to what a query
/// shows, fitting it again changes nothing, and the highlight on display is
/// the same. So a key press acts on the very rows and highlight that were
/// shown before it.
pub proof fn lemma_showing_twice(catalog: Seq<Emoji>, query: Seq<char>, selected: Option<nat>)
    ensures
        settled(catalog, query, settled(catalog, query, selected)) == settled(catalog, query, selected),
        displayed_highlight(catalog, query, settled(catalog, query, selected))
            == displayed_highlight(catalog, query, selected),
        valid_for(displayed_highlight(catalog, query, selected), displayed_rows(catalog, query).len()),
{
}

/// What there is to draw: the query, the rows it shows, and the highlight.
pub struct Snapshot<'c> {
    /// The query as typed.
    pub query_text: String,
    /// The rows shown, in catalog order.
    pub rows: Vec<&'c Emoji>,
    /// The index of the highlighted row among `rows`.
    pub highlighted_index: Option<usize>,
    /// Set where the query does not compile; no rows are shown then.
    pub query_error: Option<QueryError>,
}

/// A session of the picker over a catalog.
pub struct Session<'c> {
    catalog: &'c [Emoji],
    search_entry: SearchEntry,
    selection_view: SelectionView,
}

/// Starts a session: an empty query, and the top row of the catalog
/// highlighted.
pub fn begin_session<'c>(catalog: &'c [Emoji]) -> (session: Session<'c>)
    ensures
        session.catalog() == catalog@,
        session.query() == Seq::<char>::empty(),
        session.selected() == reconciled(None, catalog@.len()),
{
    Session { catalog, search_entry: SearchEntry::new(), selection_view: SelectionView::new(catalog) }
}

impl<'c> Session<'c> {
    /// The catalog that the session picks from.
    pub closed spec fn catalog(self) -> Seq<Emoji> {
        self.catalog@
    }

    /// The query text.
    pub closed spec fn query(self) -> Seq<char> {
        self.search_entry@
    }

    /// The selection kept from cycle to cycle.
    pub closed spec fn selected(self) -> Option<nat> {
        self.selection_view@
    }

    /// Filters the catalog by the query, fits the selection to the rows and
    /// hands out what there is to draw.
    ///
    /// A query that does not compile shows no rows and no highlight, is
    /// reported in the view, and leaves the selection untouched.
    pub fn current_view(&mut self) -> (view: Snapshot<'c>)
        ensures
            final(self).catalog() == old(self).catalog(),
            final(self).query() == old(self).query(),
            final(self).selected() == settled(old(self).catalog(), old(self).query(), old(self).selected()),
            view.query_text@ == old(self).query(),
            records_of(view.rows@) == displayed_rows(old(self).catalog(), old(self).query()),
            position(view.highlighted_index) == displayed_highlight(old(self).catalog(), old(self).query(), old(self).selected()),
            valid_for(position(view.highlighted_index), view.rows@.len()),
            view.query_error is Some <==> filtered(old(self).catalog(), old(self).query()) is None,
            view.query_error is Some ==> view.query_error == Some(QueryError::InvalidPattern),
            old(self).query().len() == 0 ==> records_of(view.rows@) == old(self).catalog(),
    {
        let query_text: String = self.search_entry.text().to_owned();
        match self.selection_view.filtered_view(self.catalog, self.search_entry.text()) {
            Ok(shown) => {
                let highlighted_index: Option<usize> = shown.highlighted_index();
                Snapshot { query_text, rows: shown.into_emojis(), highlighted_index, query_error: None }
            },
            Err(e) => {
                let rows: Vec<&'c Emoji> = Vec::new();
                proof {
                    assert(records_of(rows@) =~= Seq::<Emoji>::empty());
                }
                Snapshot { query_text, rows, highlighted_index: None, query_error: Some(e) }
            },
        }
    }

    /// Takes one key press: filters and fits the selection as
    /// `current_view` does, then applies the key to what is on display.
    ///
    /// While the query does not compile there are no rows to take or to
    /// move among, and the selection stays untouched; the keys that edit
    /// the query or end the session work as ever.
    pub fn handle_event(&mut self, event: KeyEvent) -> (response: EventResponse)
        ensures
            final(self).catalog() == old(self).catalog(),
            response == response_to(
                event.meaning(),
                old(self).query(),
                displayed_rows(old(self).catalog(), old(self).query()),
                displayed_highlight(old(self).catalog(), old(self).query(), old(self).selected()),
            ),
            final(self).query() == query_after(event.meaning(), old(self).query()),
            final(self).selected() == selection_after(
                event.meaning(),
                old(self).catalog(),
                old(self).query(),
                old(self).selected(),
            ),
    {
        match self.selection_view.filtered_view(self.catalog, self.search_entry.text()) {
            Ok(mut shown) => {
                let response = handle_key_event(event, &mut self.search_entry, &mut shown);
                self.selection_view.adopt(&shown);
                response
            },
            Err(_) => {
                let mut nothing = FilteredView::empty();
                handle_key_event(event, &mut self.search_entry, &mut nothing)
            },
        }
    }
}

} // verus!

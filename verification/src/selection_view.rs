//! The highlighted row: which position of the rows currently shown is
//! selected, how it is kept valid when the rows change, and how it moves.

use crate::emoji::Emoji;
use crate::filter::{filter, filtered, records_of};
use crate::pattern::QueryError;
use vstd::arithmetic::div_mod::{lemma_mod_self_0, lemma_small_mod};
use vstd::prelude::*;

verus! {

/// A selection is valid for `n` rows when it is a position among them, or
/// nothing where there are no rows.
pub open spec fn valid_for(selected: Option<nat>, n: nat) -> bool {
    match selected {
        Some(i) => i < n,
        None => n == 0,
    }
}

/// The selection that fits `n` rows: nothing where there are no rows; the
/// old position where it is still among the rows; the top row otherwise.
pub open spec fn reconciled(selected: Option<nat>, n: nat) -> Option<nat> {
    if n == 0 {
        None
    } else {
        match selected {
            Some(i) => if i < n {
                Some(i)
            } else {
                Some(0)
            },
            None => Some(0),
        }
    }
}

/// One step down among `n` rows, from the last row round to the first.
pub open spec fn moved_down(selected: Option<nat>, n: nat) -> Option<nat> {
    match selected {
        Some(i) => if n == 0 {
            selected
        } else {
            Some((i + 1) % n)
        },
        None => None,
    }
}

/// One step up among `n` rows, from the first row round to the last.
pub open spec fn moved_up(selected: Option<nat>, n: nat) -> Option<nat> {
    match selected {
        Some(i) => if n == 0 {
            selected
        } else if i == 0 {
            Some((n - 1) as nat)
        } else {
            Some((i - 1) as nat)
        },
        None => None,
    }
}

/// A step down from row `i` of `n` lands on the next row, and on the first
/// row from the last.
pub proof fn lemma_step_down(i: nat, n: nat)
    requires
        i < n,
    ensures
        moved_down(Some(i), n) == Some(if i + 1 == n { 0nat } else { i + 1 }),
{
    if i + 1 == n {
        lemma_mod_self_0(n as int);
    } else {
        lemma_small_mod(i + 1, n);
    }
}

/// `times` steps down among `n` rows.
pub open spec fn moved_down_by(selected: Option<nat>, n: nat, times: nat) -> Option<nat>
    decreases times,
{
    if times == 0 {
        selected
    } else {
        moved_down(moved_down_by(selected, n, (times - 1) as nat), n)
    }
}

/// `times` steps up among `n` rows.
pub open spec fn moved_up_by(selected: Option<nat>, n: nat, times: nat) -> Option<nat>
    decreases times,
{
    if times == 0 {
        selected
    } else {
        moved_up(moved_up_by(selected, n, (times - 1) as nat), n)
    }
}

/// Where up to `n` steps down lead from row `i` of `n`.
proof fn lemma_steps_down(i: nat, n: nat, times: nat)
    requires
        i < n,
        times <= n,
    ensures
        moved_down_by(Some(i), n, times) == Some(
            if i + times < n {
                i + times
            } else {
                (i + times - n) as nat
            },
        ),
    decreases times,
{
    if times > 0 {
        let before = (times - 1) as nat;
        lemma_steps_down(i, n, before);
        lemma_step_down(
            if i + before < n {
                i + before
            } else {
                (i + before - n) as nat
            },
            n,
        );
    }
}

/// Where up to `n` steps up lead from row `i` of `n`.
proof fn lemma_steps_up(i: nat, n: nat, times: nat)
    requires
        i < n,
        times <= n,
    ensures
        moved_up_by(Some(i), n, times) == Some(
            if times <= i {
                (i - times) as nat
            } else {
                (i - times + n) as nat
            },
        ),
    decreases times,
{
    if times > 0 {
        lemma_steps_up(i, n, (times - 1) as nat);
    }
}

/// Wraparound, downwards: as many steps down as there are rows bring a
/// valid selection back to where it started.
pub proof fn lemma_move_down_wraps(selected: Option<nat>, n: nat)
    requires
        valid_for(selected, n),
    ensures
        moved_down_by(selected, n, n) == selected,
{
    match selected {
        Some(i) => {
            lemma_steps_down(i, n, n);
        },
        None => {},
    }
}

/// Wraparound, upwards: as many steps up as there are rows bring a valid
/// selection back to where it started.
pub proof fn lemma_move_up_wraps(selected: Option<nat>, n: nat)
    requires
        valid_for(selected, n),
    ensures
        moved_up_by(selected, n, n) == selected,
{
    match selected {
        Some(i) => {
            lemma_steps_up(i, n, n);
        },
        None => {},
    }
}

/// Fitting is idempotent: a selection that has been fitted to `n` rows is
/// valid for them, and fitting it to `n` rows again changes nothing.
pub proof fn lemma_reconcile_twice(selected: Option<nat>, n: nat)
    ensures
        valid_for(reconciled(selected, n), n),
        reconciled(reconciled(selected, n), n) == reconciled(selected, n),
        valid_for(selected, n) ==> reconciled(selected, n) == selected,
{
}

/// The position that an index stands for.
pub open spec fn position(index: Option<usize>) -> Option<nat> {
    match index {
        Some(i) => Some(i as nat),
        None => None,
    }
}

/// The selection that outlives the rows: the index of the highlighted row
/// among the rows last shown.
#[derive(Clone, Copy, Debug)]
pub struct SelectionView {
    selected: Option<usize>,
}

impl View for SelectionView {
    type V = Option<nat>;

    closed spec fn view(&self) -> Option<nat> {
        position(self.selected)
    }
}

impl SelectionView {
    /// The selection at the start: the top row of the catalog, or nothing
    /// for an empty catalog.
    pub fn new(catalog: &[Emoji]) -> (selection: Self)
        ensures
            selection@ == reconciled(None, catalog@.len()),
    {
        if catalog.len() == 0 {
            Self { selected: None }
        } else {
            Self { selected: Some(0) }
        }
    }

    /// The index of the highlighted row.
    pub fn selected_index(&self) -> (index: Option<usize>)
        ensures
            position(index) == self@,
    {
        self.selected
    }

    /// Fits the selection to `n` rows. Whatever it was before, it is valid
    /// for `n` afterwards.
    pub fn reconcile(&mut self, n: usize)
        ensures
            final(self)@ == reconciled(old(self)@, n as nat),
            valid_for(final(self)@, n as nat),
    {
        if n == 0 {
            self.selected = None;
        } else {
            match self.selected {
                Some(i) => {
                    if i >= n {
                        self.selected = Some(0);
                    }
                },
                None => {
                    self.selected = Some(0);
                },
            }
        }
    }

    /// Filters the catalog by the search text and fits the selection to the
    /// rows found.
    ///
    /// Fails exactly where the text does not compile, and then leaves the
    /// selection as it was. Otherwise the view holds the rows that the text
    /// matches, in catalog order, and the reconciled selection, which is
    /// valid for them.
    pub fn filtered_view<'c>(&mut self, catalog: &'c [Emoji], search_text: &str) -> (result: Result<FilteredView<'c>, QueryError>)
        ensures
            match result {
                Ok(view) => {
                    &&& filtered(catalog@, search_text@) == Some(view.rows())
                    &&& view.highlighted() == reconciled(old(self)@, view.rows().len())
                    &&& valid_for(view.highlighted(), view.rows().len())
                    &&& final(self)@ == view.highlighted()
                },
                Err(e) => {
                    &&& e == QueryError::InvalidPattern
                    &&& filtered(catalog@, search_text@) is None
                    &&& final(self)@ == old(self)@
                },
            },
            search_text@.len() == 0 ==> result is Ok && result->Ok_0.rows() == catalog@,
    {
        match filter(catalog, search_text) {
            Ok(emojis) => {
                self.reconcile(emojis.len());
                Ok(FilteredView { emojis, state: *self })
            },
            Err(e) => Err(e),
        }
    }

    /// Takes over the selection of a view, as the moves made on the view
    /// have left it.
    pub fn adopt(&mut self, view: &FilteredView)
        ensures
            final(self)@ == view.highlighted(),
    {
        self.selected = view.state.selected;
    }
}

/// The rows that a query shows, with the selection among them. The rows live
/// for one cycle; the selection is a copy that the owner takes back.
pub struct FilteredView<'c> {
    emojis: Vec<&'c Emoji>,
    state: SelectionView,
}

impl<'c> FilteredView<'c> {
    #[verifier::type_invariant]
    spec fn well_formed(self) -> bool {
        valid_for(self.state@, self.emojis@.len())
    }

    /// The records shown, in order.
    pub closed spec fn rows(self) -> Seq<Emoji> {
        records_of(self.emojis@)
    }

    /// The position of the highlighted row.
    pub closed spec fn highlighted(self) -> Option<nat> {
        self.state@
    }

    /// The record under the highlight.
    pub open spec fn selected_record(self) -> Option<Emoji> {
        match self.highlighted() {
            Some(i) => Some(self.rows()[i as int]),
            None => None,
        }
    }

    /// A view without rows, and so without a highlight.
    pub fn empty() -> (view: Self)
        ensures
            view.rows() == Seq::<Emoji>::empty(),
            view.highlighted() is None,
    {
        let view = FilteredView { emojis: Vec::new(), state: SelectionView { selected: None } };
        proof {
            assert(view.rows() =~= Seq::<Emoji>::empty());
        }
        view
    }

    /// Gives up the view for its rows.
    pub fn into_emojis(self) -> (rows: Vec<&'c Emoji>)
        ensures
            records_of(rows@) == self.rows(),
    {
        self.emojis
    }

    /// The rows shown, in order.
    pub fn emojis(&self) -> (rows: &Vec<&'c Emoji>)
        ensures
            records_of(rows@) == self.rows(),
    {
        &self.emojis
    }

    /// The index of the highlighted row: a row of the view, or nothing
    /// where the view is empty.
    pub fn highlighted_index(&self) -> (index: Option<usize>)
        ensures
            position(index) == self.highlighted(),
            valid_for(self.highlighted(), self.rows().len()),
    {
        proof {
            use_type_invariant(self);
        }
        self.state.selected
    }

    /// The highlighted record, or nothing where the view is empty.
    pub fn selected(&self) -> (record: Option<&'c Emoji>)
        ensures
            match record {
                Some(r) => self.selected_record() == Some(*r),
                None => self.selected_record() is None,
            },
    {
        proof {
            use_type_invariant(self);
        }
        match self.state.selected {
            Some(i) => Some(self.emojis[i]),
            None => None,
        }
    }

    /// Moves the highlight one row up; from the first row it goes to the
    /// last. Nothing happens in an empty view.
    pub fn move_up(&mut self)
        ensures
            final(self).rows() == old(self).rows(),
            final(self).highlighted() == moved_up(old(self).highlighted(), old(self).rows().len()),
            valid_for(final(self).highlighted(), final(self).rows().len()),
    {
        proof {
            use_type_invariant(&*self);
        }
        match self.state.selected {
            Some(i) => {
                if i > 0 {
                    self.state.selected = Some(i - 1);
                } else {
                    self.state.selected = Some(self.emojis.len() - 1);
                }
            },
            None => {},
        }
    }

    /// Moves the highlight one row down; from the last row it goes to the
    /// first. Nothing happens in an empty view.
    pub fn move_down(&mut self)
        ensures
            final(self).rows() == old(self).rows(),
            final(self).highlighted() == moved_down(old(self).highlighted(), old(self).rows().len()),
            valid_for(final(self).highlighted(), final(self).rows().len()),
    {
        proof {
            use_type_invariant(&*self);
        }
        match self.state.selected {
            Some(i) => {
                proof {
                    lemma_step_down(i as nat, self.emojis@.len());
                }
                if i == self.emojis.len() - 1 {
                    self.state.selected = Some(0);
                } else {
                    self.state.selected = Some(i + 1);
                }
            },
            None => {},
        }
    }
}

} // verus!

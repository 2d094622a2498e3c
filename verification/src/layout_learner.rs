use vstd::prelude::*;

use crate::key_event::key_code::{lemma_names_distinct, lemma_text_round_trip, KeyCode};
use crate::key_event::matrix_mapper::{Layout, LayoutItem, LayoutItemView, MatrixPosition};
use crate::key_event::KeyEvent;

verus! {

/// What is known while a layout is learned from key presses.
///
/// The cells of a matrix of `rows` by `cols` are asked for one by one, row by
/// row. `cell` is the one asked for now, or `None` when all have been. The
/// key pressed for the first cell becomes `skip`: pressed again for a later
/// cell, it tells that the cell has no key. `items` are the cells learned so
/// far.
pub struct LearnerView {
    pub rows: u8,
    pub cols: u8,
    pub cell: Option<(u8, u8)>,
    pub skip: KeyCode,
    pub items: Seq<LayoutItemView>,
}

/// Learns a layout from key presses.
pub struct LayoutLearner {
    rows: u8,
    cols: u8,
    row: u8,
    col: u8,
    skip: KeyCode,
    items: Vec<LayoutItem>,
}

/// The item that stands for the key `key` at the cell in row `row` and
/// column `col`: it is drawn where it sits, and labelled with the name of
/// the key.
pub open spec fn learned_item(row: u8, col: u8, key: KeyCode) -> LayoutItemView {
    LayoutItemView { matrix: MatrixPosition { row, col }, x: col, y: row, label: key.name() }
}

/// The cell that is asked for after the one in row `row` and column `col`:
/// the next one in the row, or the first one of the next row, or none after
/// the last.
pub open spec fn next_cell(rows: u8, cols: u8, row: u8, col: u8) -> Option<(u8, u8)> {
    if col + 1 < cols {
        Some((row, (col + 1) as u8))
    } else if row + 1 < rows {
        Some(((row + 1) as u8, 0u8))
    } else {
        None
    }
}

/// Whether the cell `a` is asked for before the cell `b`.
pub open spec fn comes_before(a: (u8, u8), b: (u8, u8)) -> bool {
    a.0 < b.0 || (a.0 == b.0 && a.1 < b.1)
}

impl LearnerView {
    /// The state before any key was pressed.
    pub open spec fn start(rows: u8, cols: u8) -> LearnerView {
        LearnerView {
            rows,
            cols,
            cell: if rows > 0 && cols > 0 {
                Some((0u8, 0u8))
            } else {
                None
            },
            skip: KeyCode::NONE,
            items: Seq::empty(),
        }
    }

    /// The key that an event brings for the cell asked for, if it brings
    /// one: only the first press of a key does, and only while a cell is
    /// asked for.
    pub open spec fn pressed(self, event: KeyEvent) -> Option<KeyCode> {
        match event {
            KeyEvent::Press(key, false, _) if self.cell is Some => Some(key),
            _ => None,
        }
    }

    /// Whether the key `key`, pressed for the cell asked for, tells that the
    /// cell has no key: the skip key does, and so does the key that stands
    /// for no key.
    pub open spec fn skips(self, key: KeyCode) -> bool {
        key == self.skip || key == KeyCode::NONE
    }

    /// The state after an event. An event that brings no key leaves it as
    /// it is. A key moves on to the next cell; unless it skips the cell, the
    /// cell is learned with it; and for the first cell it becomes the skip
    /// key.
    pub open spec fn step(self, event: KeyEvent) -> LearnerView {
        match self.pressed(event) {
            Some(key) => {
                let (row, col) = self.cell.unwrap();
                LearnerView {
                    rows: self.rows,
                    cols: self.cols,
                    cell: next_cell(self.rows, self.cols, row, col),
                    skip: if key != self.skip && row == 0 && col == 0 {
                        key
                    } else {
                        self.skip
                    },
                    items: if self.skips(key) {
                        self.items
                    } else {
                        self.items.push(learned_item(row, col, key))
                    },
                }
            },
            None => self,
        }
    }

    /// The state after a run of events.
    pub open spec fn run(self, events: Seq<KeyEvent>) -> LearnerView
        decreases events.len(),
    {
        if events.len() == 0 {
            self
        } else {
            self.run(events.drop_last()).step(events.last())
        }
    }

    /// The cell of an item, as (row, column).
    pub open spec fn cell_of(item: LayoutItemView) -> (u8, u8) {
        (item.matrix.row, item.matrix.col)
    }

    /// What holds of every state that a run of events leads to.
    ///
    /// The cell asked for lies in the matrix, and the skip key is not yet
    /// set while the first cell is asked for. Every item stands for a key
    /// other than the one for no key, at a cell of the matrix that was asked
    /// for already, and the items stand in the order of their cells. No item
    /// but the one at the first cell stands for the skip key.
    pub open spec fn wf(self) -> bool {
        &&& self.cell matches Some((row, col)) ==> row < self.rows && col < self.cols
        &&& self.cell == Some((0u8, 0u8)) ==> self.skip == KeyCode::NONE && self.items.len() == 0
        &&& forall|i: int|
            0 <= i < self.items.len() ==> {
                let item = #[trigger] self.items[i];
                &&& item.matrix.row < self.rows
                &&& item.matrix.col < self.cols
                &&& self.cell matches Some(cell) ==> comes_before(Self::cell_of(item), cell)
                &&& exists|key: KeyCode|
                    key != KeyCode::NONE && item == learned_item(
                        item.matrix.row,
                        item.matrix.col,
                        key,
                    )
                &&& Self::cell_of(item) != (0u8, 0u8) ==> item.label != self.skip.name()
            }
        &&& forall|i: int, j: int|
            0 <= i < j < self.items.len() ==> comes_before(
                Self::cell_of(#[trigger] self.items[i]),
                Self::cell_of(#[trigger] self.items[j]),
            )
    }
}

impl View for LayoutLearner {
    type V = LearnerView;

    closed spec fn view(&self) -> LearnerView {
        LearnerView {
            rows: self.rows,
            cols: self.cols,
            cell: if self.row < self.rows && self.col < self.cols {
                Some((self.row, self.col))
            } else {
                None
            },
            skip: self.skip,
            items: self.items@.map_values(|item: LayoutItem| item@),
        }
    }
}

impl LayoutLearner {
    /// Starts to learn the layout of a matrix of `rows` by `cols`.
    pub fn new(rows: u8, cols: u8) -> (learner: LayoutLearner)
        ensures
            learner@ == LearnerView::start(rows, cols),
    {
        let learner = LayoutLearner { rows, cols, row: 0, col: 0, skip: KeyCode::NONE, items: Vec::new() };
        assert(learner@.items =~= Seq::empty());
        learner
    }

    /// The cell that a key is asked for, as (row, column), or `None` when
    /// all cells have been asked for.
    pub fn awaited(&self) -> (cell: Option<(u8, u8)>)
        ensures
            cell == self@.cell,
    {
        if self.row < self.rows && self.col < self.cols {
            Some((self.row, self.col))
        } else {
            None
        }
    }

    /// Whether all cells have been asked for.
    pub fn is_done(&self) -> (done: bool)
        ensures
            done == (self@.cell is None),
    {
        self.awaited().is_none()
    }

    /// Takes an event. Returns the key that it brought for the cell asked
    /// for, with the key for no key (`NONE`) in place of one that skips the
    /// cell, or `None` where the event brought no key.
    pub fn feed(&mut self, event: KeyEvent) -> (learned: Option<KeyCode>)
        ensures
            final(self)@ == old(self)@.step(event),
            learned == match old(self)@.pressed(event) {
                Some(key) => Some(
                    if old(self)@.skips(key) {
                        KeyCode::NONE
                    } else {
                        key
                    },
                ),
                None => None,
            },
    {
        let (row, col) = match self.awaited() {
            Some(cell) => cell,
            None => {
                return None;
            },
        };
        let key = match event {
            KeyEvent::Press(key, false, _) => key,
            _ => {
                return None;
            },
        };
        let ghost before = self@;
        let skipped = key == self.skip || key == KeyCode::NONE;
        if key != self.skip && row == 0 && col == 0 {
            self.skip = key;
        }
        if !skipped {
            let item = LayoutItem {
                matrix: MatrixPosition { row, col },
                x: col,
                y: row,
                label: key.as_ref().to_owned(),
            };
            self.items.push(item);
        }
        if col + 1 < self.cols {
            self.col = col + 1;
        } else {
            self.row = row + 1;
            self.col = 0;
        }
        assert(self@.items =~= before.step(event).items);
        if skipped {
            Some(KeyCode::NONE)
        } else {
            Some(key)
        }
    }

    /// The layout learned so far.
    pub fn into_layout(self) -> (layout: Layout)
        ensures
            layout@ == self@.items,
    {
        Layout { layout: self.items }
    }
}

/// The state at the start is well formed.
pub proof fn lemma_start_wf(rows: u8, cols: u8)
    ensures
        LearnerView::start(rows, cols).wf(),
{
}

/// An event leads from a well-formed state to a well-formed state.
pub proof fn lemma_step_wf(state: LearnerView, event: KeyEvent)
    requires
        state.wf(),
    ensures
        state.step(event).wf(),
{
    let after = state.step(event);
    match state.pressed(event) {
        Some(key) => {
            let (row, col) = state.cell.unwrap();
            assert forall|i: int| 0 <= i < after.items.len() implies {
                let item = #[trigger] after.items[i];
                &&& item.matrix.row < after.rows
                &&& item.matrix.col < after.cols
                &&& after.cell matches Some(cell) ==> comes_before(LearnerView::cell_of(item), cell)
                &&& exists|k: KeyCode|
                    k != KeyCode::NONE && item == learned_item(item.matrix.row, item.matrix.col, k)
                &&& LearnerView::cell_of(item) != (0u8, 0u8) ==> item.label != after.skip.name()
            } by {
                let item = after.items[i];
                if i == state.items.len() {
                    assert(key != KeyCode::NONE && item == learned_item(
                        item.matrix.row,
                        item.matrix.col,
                        key,
                    ));
                    if item.label == after.skip.name() {
                        lemma_names_distinct(key, after.skip);
                    }
                }
            }
        },
        None => {},
    }
}

/// Every run of events from the start leads to a well-formed state.
pub proof fn lemma_run_wf(rows: u8, cols: u8, events: Seq<KeyEvent>)
    ensures
        LearnerView::start(rows, cols).run(events).wf(),
    decreases events.len(),
{
    if events.len() == 0 {
        lemma_start_wf(rows, cols);
    } else {
        lemma_run_wf(rows, cols, events.drop_last());
        lemma_step_wf(LearnerView::start(rows, cols).run(events.drop_last()), events.last());
    }
}

/// The key of the first cell, pressed again for a later cell, leaves the
/// items as they are: the later cell is left out of the layout.
pub proof fn lemma_skip_key_leaves_cell_out(state: LearnerView, first: KeyEvent, again: KeyEvent)
    requires
        state.wf(),
        state.cell == Some((0u8, 0u8)),
        first matches KeyEvent::Press(key, false, _) && again matches KeyEvent::Press(other, false, _)
            && key == other,
    ensures
        state.step(first).step(again).items == state.step(first).items,
        state.step(first).items.len() <= 1,
{
}

/// The label of a learned item names the key that was pressed for it.
pub proof fn lemma_learned_label_names_key(row: u8, col: u8, key: KeyCode)
    ensures
        KeyCode::lookup(learned_item(row, col, key).label) == Some(key),
{
    lemma_text_round_trip(key);
}

} // verus!

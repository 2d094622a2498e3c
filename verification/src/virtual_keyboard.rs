use vstd::prelude::*;

use crate::key_event::key_code::KeyCode;
use crate::key_event::matrix_mapper::{layout_position, LayoutItemView, MatrixMapper, MatrixPosition};
use crate::key_event::KeyEvent;
use crate::keyboard::Operation;

verus! {

/// What the controller is told of an event, if anything. The first press of
/// a key, but for the key that stands for no key, is told as a press at the
/// position of the key; a release of a key is told as a release there.
/// Repeats of a held key and all other events are told of nothing.
pub open spec fn told_of(mapper: MatrixMapper, event: KeyEvent) -> Option<Operation> {
    match event {
        KeyEvent::Press(key, false, _) if key != KeyCode::NONE => Some(
            Operation::UpdateMatrix(true, mapper.position(key).row, mapper.position(key).col),
        ),
        KeyEvent::Release(key, _) => Some(
            Operation::UpdateMatrix(false, mapper.position(key).row, mapper.position(key).col),
        ),
        _ => None,
    }
}

/// The command that tells the controller of an event, if there is anything
/// to tell.
pub fn operation_for(mapper: &MatrixMapper, event: KeyEvent) -> (operation: Option<Operation>)
    ensures
        operation == told_of(*mapper, event),
{
    match event {
        KeyEvent::Press(key, held, _) => {
            if !held && key != KeyCode::NONE {
                let position = mapper.resolve(key);
                Some(Operation::UpdateMatrix(true, position.row, position.col))
            } else {
                None
            }
        },
        KeyEvent::Release(key, _) => {
            let position = mapper.resolve(key);
            Some(Operation::UpdateMatrix(false, position.row, position.col))
        },
        _ => None,
    }
}

/// The two commands of a tap on the cell in row `row` and column `col`: the
/// press, then the release.
pub fn tap_operations(row: u8, col: u8) -> (operations: [Operation; 2])
    ensures
        operations@ == seq![
            Operation::UpdateMatrix(true, row, col),
            Operation::UpdateMatrix(false, row, col),
        ],
{
    let operations = [
        Operation::UpdateMatrix(true, row, col),
        Operation::UpdateMatrix(false, row, col),
    ];
    operations
}

/// With the table of a layout of one item, a press of the key that the item
/// is for is told as a press at the item's position, and its release as a
/// release there.
pub proof fn lemma_single_key_bridge(
    mapper: MatrixMapper,
    item: LayoutItemView,
    key: KeyCode,
    press: KeyEvent,
    release: KeyEvent,
)
    requires
        forall|k: KeyCode| mapper.position(k) == layout_position(seq![item], k),
        KeyCode::lookup(item.label) == Some(key),
        key != KeyCode::NONE,
        press matches KeyEvent::Press(k, false, _) && k == key,
        release matches KeyEvent::Release(k, _) && k == key,
    ensures
        told_of(mapper, press) == Some(
            Operation::UpdateMatrix(true, item.matrix.row, item.matrix.col),
        ),
        told_of(mapper, release) == Some(
            Operation::UpdateMatrix(false, item.matrix.row, item.matrix.col),
        ),
{
}

/// A key that no item of the layout is for is told of at row 0 and column
/// 0.
pub proof fn lemma_unmapped_key_bridge(mapper: MatrixMapper, key: KeyCode, event: KeyEvent)
    requires
        mapper.position(key) == MatrixPosition::unmapped(),
        event matches KeyEvent::Release(k, _) && k == key,
    ensures
        told_of(mapper, event) == Some(Operation::UpdateMatrix(false, 0, 0)),
{
}

} // verus!

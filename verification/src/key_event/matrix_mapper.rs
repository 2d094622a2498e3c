use vstd::prelude::*;

use crate::key_event::key_code::{lemma_codes_distinct, lemma_code_assigned, KeyCode};

verus! {

/// Number of entries in a lookup table indexed by a key's numeric identifier.
pub const TABLE_SIZE: usize = 256;

/// The address of a key switch on the controller's scan matrix.
#[derive(Debug, Clone, Copy, PartialEq, Eq, Structural)]
pub struct MatrixPosition {
    pub row: u8,
    pub col: u8,
}

/// One key of a layout document: where it sits on the matrix, where it is
/// drawn, and the name of the key that it stands for.
#[derive(Debug)]
pub struct LayoutItem {
    pub matrix: MatrixPosition,
    pub x: u8,
    pub y: u8,
    pub label: String,
}

/// A layout document: its items in the order of the document.
#[derive(Debug)]
pub struct Layout {
    pub layout: Vec<LayoutItem>,
}

/// What a layout item says, with its label as plain text.
pub struct LayoutItemView {
    pub matrix: MatrixPosition,
    pub x: u8,
    pub y: u8,
    pub label: Seq<char>,
}

impl View for LayoutItem {
    type V = LayoutItemView;

    open spec fn view(&self) -> LayoutItemView {
        LayoutItemView { matrix: self.matrix, x: self.x, y: self.y, label: self.label@ }
    }
}

impl View for Layout {
    type V = Seq<LayoutItemView>;

    open spec fn view(&self) -> Seq<LayoutItemView> {
        self.layout@.map_values(|item: LayoutItem| item@)
    }
}

impl MatrixPosition {
    /// The position that stands for "no position": row 0, column 0.
    ///
    /// Row 0 and column 0 is a cell of the matrix as well, so a key that a
    /// layout puts there cannot be told from a key that it leaves out.
    pub open spec fn unmapped() -> MatrixPosition {
        MatrixPosition { row: 0, col: 0 }
    }

    /// The position that a layout document gives as the pair `pair`: the
    /// column comes first in it, then the row.
    pub open spec fn of_pair(pair: (u8, u8)) -> MatrixPosition {
        MatrixPosition { col: pair.0, row: pair.1 }
    }

    /// The pair that a layout document holds for the position: the column
    /// first, then the row.
    pub open spec fn pair(self) -> (u8, u8) {
        (self.col, self.row)
    }

    /// The pair that a layout document holds for the position.
    pub fn into_pair(self) -> (pair: (u8, u8))
        ensures
            pair == self.pair(),
    {
        (self.col, self.row)
    }
}

/// A layout document gives a position as the pair (column, row).
impl From<(u8, u8)> for MatrixPosition {
    fn from(value: (u8, u8)) -> (position: Self) {
        Self { col: value.0, row: value.1 }
    }
}

impl vstd::std_specs::convert::FromSpecImpl<(u8, u8)> for MatrixPosition {
    open spec fn obeys_from_spec() -> bool {
        true
    }

    open spec fn from_spec(value: (u8, u8)) -> MatrixPosition {
        MatrixPosition::of_pair(value)
    }
}

/// The position of the key with numeric identifier `code` on the built-in
/// matrix, for a board laid out as
///
/// ```text
/// Esc   F1 F2 F3 F4  F5 F6 F7 F8  F9 F10 F11 F12
///  `  1  2  3  4  5  6  7  8  9  0  -  =  Backspace
/// Tab  Q  W  E  R  T  Y  U  I  O  P  [  ]  Enter
/// ```
///
/// The function row is row 0 and the number row is row 1, each counted by
/// column from the left. The keys from Tab to Enter stand in column 2, Tab
/// in row 0 and the others counted by row from Q. Every other key is
/// unmapped.
pub open spec fn builtin_position(code: int) -> MatrixPosition {
    if 59 <= code <= 68 {
        MatrixPosition { col: (code - 58) as u8, row: 0 }
    } else if 87 <= code <= 88 {
        MatrixPosition { col: (code - 76) as u8, row: 0 }
    } else if code == 41 {
        MatrixPosition { col: 0, row: 1 }
    } else if 2 <= code <= 14 {
        MatrixPosition { col: (code - 1) as u8, row: 1 }
    } else if code == 15 {
        MatrixPosition { col: 2, row: 0 }
    } else if 16 <= code <= 28 {
        MatrixPosition { col: 2, row: (code - 15) as u8 }
    } else {
        MatrixPosition::unmapped()
    }
}

/// The position of `keycode` on the built-in matrix.
pub fn map(keycode: KeyCode) -> (position: MatrixPosition)
    ensures
        position == builtin_position(keycode.code()),
{
    let pair: (u8, u8) = match keycode {
        KeyCode::ESC => (0, 0),
        KeyCode::F1 => (1, 0),
        KeyCode::F2 => (2, 0),
        KeyCode::F3 => (3, 0),
        KeyCode::F4 => (4, 0),
        KeyCode::F5 => (5, 0),
        KeyCode::F6 => (6, 0),
        KeyCode::F7 => (7, 0),
        KeyCode::F8 => (8, 0),
        KeyCode::F9 => (9, 0),
        KeyCode::F10 => (10, 0),
        KeyCode::F11 => (11, 0),
        KeyCode::F12 => (12, 0),
        KeyCode::GRAVE => (0, 1),
        KeyCode::KEY_1 => (1, 1),
        KeyCode::KEY_2 => (2, 1),
        KeyCode::KEY_3 => (3, 1),
        KeyCode::KEY_4 => (4, 1),
        KeyCode::KEY_5 => (5, 1),
        KeyCode::KEY_6 => (6, 1),
        KeyCode::KEY_7 => (7, 1),
        KeyCode::KEY_8 => (8, 1),
        KeyCode::KEY_9 => (9, 1),
        KeyCode::KEY_0 => (10, 1),
        KeyCode::MINUS => (11, 1),
        KeyCode::EQUAL => (12, 1),
        KeyCode::BACKSPACE => (13, 1),
        KeyCode::TAB => (2, 0),
        KeyCode::Q => (2, 1),
        KeyCode::W => (2, 2),
        KeyCode::E => (2, 3),
        KeyCode::R => (2, 4),
        KeyCode::T => (2, 5),
        KeyCode::Y => (2, 6),
        KeyCode::U => (2, 7),
        KeyCode::I => (2, 8),
        KeyCode::O => (2, 9),
        KeyCode::P => (2, 10),
        KeyCode::LEFTBRACE => (2, 11),
        KeyCode::RIGHTBRACE => (2, 12),
        KeyCode::ENTER => (2, 13),
        _ => (0, 0),
    };
    MatrixPosition::from(pair)
}

/// The position that a layout gives to the key `key`: that of the last item
/// whose label names the key, or the unmapped position where no label does.
/// An item whose label names no key has no part in it.
pub open spec fn layout_position(items: Seq<LayoutItemView>, key: KeyCode) -> MatrixPosition
    decreases items.len(),
{
    if items.len() == 0 {
        MatrixPosition::unmapped()
    } else if KeyCode::lookup(items.last().label) == Some(key) {
        items.last().matrix
    } else {
        layout_position(items.drop_last(), key)
    }
}

/// A table from keys to matrix positions, indexed by the numeric identifier
/// of the key.
pub struct MatrixMapper {
    table: [MatrixPosition; 256],
}

impl View for MatrixMapper {
    type V = Seq<MatrixPosition>;

    /// The table: one position for each number from 0 to 255.
    closed spec fn view(&self) -> Seq<MatrixPosition> {
        self.table@
    }
}

impl MatrixMapper {
    /// The position that the table holds for `key`.
    pub open spec fn position(&self, key: KeyCode) -> MatrixPosition {
        self@[key.code()]
    }

    /// A table in which every key is unmapped.
    pub fn new() -> (mapper: MatrixMapper)
        ensures
            mapper@.len() == TABLE_SIZE,
            forall|i: int| 0 <= i < TABLE_SIZE ==> mapper@[i] == MatrixPosition::unmapped(),
    {
        MatrixMapper { table: [MatrixPosition { row: 0, col: 0 };256] }
    }

    /// The table of a layout. Each item gives its position to the key that
    /// its label names; an item whose label names no key is passed over, and
    /// of two items for one key the later one counts.
    pub fn from_layout(layout: &Layout) -> (mapper: MatrixMapper)
        ensures
            mapper@.len() == TABLE_SIZE,
            forall|key: KeyCode| mapper.position(key) == layout_position(layout@, key),
    {
        let mut mapper = MatrixMapper::new();
        let mut i: usize = 0;
        while i < layout.layout.len()
            invariant
                i <= layout.layout.len(),
                mapper@.len() == TABLE_SIZE,
                forall|key: KeyCode|
                    mapper.position(key) == layout_position(layout@.take(i as int), key),
            decreases layout.layout.len() - i,
        {
            let item = &layout.layout[i];
            let ghost before = mapper;
            let ghost seen = layout@.take(i as int);
            let ghost next = layout@.take(i + 1);
            assert(next.drop_last() == seen);
            match KeyCode::from_text(item.label.as_str()) {
                Ok(named) => {
                    proof {
                        lemma_code_assigned(named);
                    }
                    mapper.table[usize::from(named)] = item.matrix;
                    assert forall|key: KeyCode|
                        mapper.position(key) == layout_position(next, key) by {
                        if key != named {
                            if key.code() == named.code() {
                                lemma_codes_distinct(key, named);
                            }
                            assert(mapper.position(key) == before.position(key));
                        }
                    }
                },
                Err(_) => {},
            }
            i += 1;
        }
        assert(layout@.take(i as int) == layout@);
        mapper
    }

    /// The position of `code` on the matrix; the unmapped position, row 0
    /// and column 0, where the table was given none for it.
    pub fn resolve(&self, code: KeyCode) -> (position: MatrixPosition)
        ensures
            position == self.position(code),
    {
        proof {
            lemma_code_assigned(code);
        }
        self.table[usize::from(code)]
    }
}

/// A key that no label of the layout names is unmapped.
pub proof fn lemma_absent_key_is_unmapped(items: Seq<LayoutItemView>, key: KeyCode)
    requires
        forall|i: int| 0 <= i < items.len() ==> KeyCode::lookup(#[trigger] items[i].label) != Some(key),
    ensures
        layout_position(items, key) == MatrixPosition::unmapped(),
    decreases items.len(),
{
    if items.len() > 0 {
        lemma_absent_key_is_unmapped(items.drop_last(), key);
    }
}

/// In a layout of one item whose label names a key, that key has the item's
/// position.
pub proof fn lemma_single_item_position(item: LayoutItemView, key: KeyCode)
    requires
        KeyCode::lookup(item.label) == Some(key),
    ensures
        layout_position(seq![item], key) == item.matrix,
{
}

/// A position survives the way through a layout document: the pair written
/// for it reads back as the same position, and the position read from a pair
/// is written as that pair.
pub proof fn lemma_pair_round_trip(position: MatrixPosition, pair: (u8, u8))
    ensures
        MatrixPosition::of_pair(position.pair()) == position,
        MatrixPosition::of_pair(pair).pair() == pair,
{
}

} // verus!

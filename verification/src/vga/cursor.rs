//! The position of the VGA text mode cursor.
use vstd::prelude::*;

use crate::ports::Port;

verus! {

/// The width of the VGA text buffer, in chars.
pub const BUFFER_WIDTH: u8 = 80;

/// The height of the VGA text buffer, in chars.
pub const BUFFER_HEIGHT: u8 = 25;

/// The row a cursor position is clamped to: the last row at most, and at least row 1
/// unless row 0 (the topbar) is allowed.
pub open spec fn clamped_row(row: u8, allow_row_0: bool) -> u8 {
    if row > BUFFER_HEIGHT - 1 {
        (BUFFER_HEIGHT - 1) as u8
    } else if !allow_row_0 && row < 1 {
        1
    } else {
        row
    }
}

/// The column a cursor position is clamped to: the last column at most.
pub open spec fn clamped_col(col: u8) -> u8 {
    if col > BUFFER_WIDTH - 1 {
        (BUFFER_WIDTH - 1) as u8
    } else {
        col
    }
}

/// The position of the VGA cursor.
#[derive(Debug, Clone, Copy, PartialEq, Eq, Structural)]
pub struct CursorPos {
    pub column: u8,
    pub row: u8,
}

/// A position inside the text buffer, which may only be on row 0 if it's allowed.
pub open spec fn cursor_in_bounds(c: CursorPos, allow_row_0: bool) -> bool {
    &&& c.row < BUFFER_HEIGHT
    &&& c.column < BUFFER_WIDTH
    &&& (!allow_row_0 ==> c.row >= 1)
}

impl CursorPos {
    /// Returns the row and column of the position.
    pub fn row_col(&self) -> (r: (u8, u8))
        ensures
            r == (self.row, self.column),
    {
        (self.row, self.column)
    }

    /// Sets the row to `row`, then clamps the position.
    pub fn set_row(&mut self, row: u8, allow_row_0: bool)
        ensures
            final(self).row == clamped_row(row, allow_row_0),
            final(self).column == clamped_col(old(self).column),
    {
        self.row = row;
        self.clamp_row_col(allow_row_0);
    }

    /// Sets the column to `col`, then clamps the position.
    pub fn set_col(&mut self, col: u8, allow_row_0: bool)
        ensures
            final(self).row == clamped_row(old(self).row, allow_row_0),
            final(self).column == clamped_col(col),
    {
        self.column = col;
        self.clamp_row_col(allow_row_0);
    }

    /// Forces the row and column to contain valid values.
    pub fn clamp_row_col(&mut self, allow_row_0: bool)
        ensures
            final(self).row == clamped_row(old(self).row, allow_row_0),
            final(self).column == clamped_col(old(self).column),
            cursor_in_bounds(*final(self), allow_row_0),
    {
        let row = self.row;
        let row = if allow_row_0 {
            if row > BUFFER_HEIGHT - 1 {
                BUFFER_HEIGHT - 1
            } else {
                row
            }
        } else {
            if row < 1 {
                1
            } else if row > BUFFER_HEIGHT - 1 {
                BUFFER_HEIGHT - 1
            } else {
                row
            }
        };
        self.row = row;
        let col = if self.column > BUFFER_WIDTH - 1 {
            BUFFER_WIDTH - 1
        } else {
            self.column
        };
        self.column = col;
    }

    /// The linear position of the cursor in the text buffer, `row * 80 + column`.
    pub fn linear(&self) -> (r: u16)
        ensures
            r == self.row * 80 + self.column,
    {
        self.row as u16 * BUFFER_WIDTH as u16 + self.column as u16
    }
}

/// A direction which the cursor can be shifted in using `shift_cursor`.
#[derive(Debug, Clone, Copy, PartialEq, Eq, Structural)]
pub enum CursorShift {
    Left,
    Right,
    Up,
    Down,
}

/// The position after shifting the cursor at `c` once in `direction`, wrapping around
/// the edges of the screen.
pub open spec fn shifted(c: CursorPos, direction: CursorShift, allow_row_0: bool) -> CursorPos {
    match direction {
        CursorShift::Left => CursorPos {
            column: if c.column == 0 {
                (BUFFER_WIDTH - 1) as u8
            } else {
                clamped_col((c.column - 1) as u8)
            },
            row: clamped_row(c.row, allow_row_0),
        },
        CursorShift::Right => CursorPos {
            column: if c.column < BUFFER_WIDTH - 1 {
                clamped_col((c.column + 1) as u8)
            } else {
                0
            },
            row: clamped_row(c.row, allow_row_0),
        },
        CursorShift::Up => CursorPos {
            column: clamped_col(c.column),
            row: if c.row == 1 {
                (BUFFER_HEIGHT - 1) as u8
            } else {
                clamped_row((c.row - 1) as u8, allow_row_0)
            },
        },
        CursorShift::Down => CursorPos {
            column: clamped_col(c.column),
            row: if c.row < BUFFER_HEIGHT - 1 {
                clamped_row((c.row + 1) as u8, allow_row_0)
            } else {
                clamped_row(0, allow_row_0)
            },
        },
    }
}

/// Shifting keeps the cursor inside the buffer, and off the topbar row unless that row is
/// allowed.
pub proof fn lemma_shift_in_bounds(c: CursorPos, direction: CursorShift, allow_row_0: bool)
    ensures
        cursor_in_bounds(shifted(c, direction, allow_row_0), allow_row_0),
{
}

/// Shifting right undoes shifting left; with the topbar row kept free, shifting down
/// undoes shifting up.
pub proof fn lemma_shift_round_trip(c: CursorPos, allow_row_0: bool)
    requires
        cursor_in_bounds(c, allow_row_0),
    ensures
        shifted(shifted(c, CursorShift::Left, allow_row_0), CursorShift::Right, allow_row_0) == c,
        !allow_row_0 ==> shifted(
            shifted(c, CursorShift::Up, allow_row_0),
            CursorShift::Down,
            allow_row_0,
        ) == c,
{
}

/// Attempts to shift the cursor one unit in `direction`.
pub fn shift_cursor(cursor: &mut CursorPos, direction: CursorShift, allow_row_0: bool)
    requires
        direction == CursorShift::Up ==> old(cursor).row != 0,
    ensures
        *final(cursor) == shifted(*old(cursor), direction, allow_row_0),
{
    let (row, col) = cursor.row_col();
    match direction {
        CursorShift::Left => {
            if col == 0 {
                cursor.set_col(BUFFER_WIDTH - 1, allow_row_0);
            } else {
                cursor.set_col(col - 1, allow_row_0)
            }
        },
        CursorShift::Right => {
            if col < BUFFER_WIDTH - 1 {
                cursor.set_col(col + 1, allow_row_0);
            } else {
                cursor.set_col(0, allow_row_0);
            }
        },
        CursorShift::Up => {
            if row == 1 {
                cursor.set_row(BUFFER_HEIGHT - 1, allow_row_0);
            } else {
                cursor.set_row(row - 1, allow_row_0)
            }
        },
        CursorShift::Down => {
            if row < BUFFER_HEIGHT - 1 {
                cursor.set_row(row + 1, allow_row_0)
            } else {
                cursor.set_row(0, allow_row_0)
            }
        },
    };
}

/// Index into the VGA register for the low byte of the position.
pub const REG_LOW_BYTE: u8 = 0x0E;

/// Index into the VGA register for the high byte of the position.
pub const REG_HIGH_BYTE: u8 = 0x0F;

/// Clamps the cursor, then returns the port writes which move the visible cursor to it:
/// register 0x0E with the position's high byte, then register 0x0F with its low byte.
pub fn update_visual_pos(cursor: &mut CursorPos, allow_row_0: bool) -> (r: [(Port, u8); 4])
    ensures
        final(cursor).row == clamped_row(old(cursor).row, allow_row_0),
        final(cursor).column == clamped_col(old(cursor).column),
        ({
            let pos = final(cursor).row * 80 + final(cursor).column;
            r@ == seq![
                (Port::VGASelectorC, REG_LOW_BYTE),
                (Port::VGARegisterC, (pos / 256) as u8),
                (Port::VGASelectorC, REG_HIGH_BYTE),
                (Port::VGARegisterC, (pos % 256) as u8),
            ]
        }),
{
    cursor.clamp_row_col(allow_row_0);
    let pos = cursor.linear();
    let r = [
        (Port::VGASelectorC, REG_LOW_BYTE),
        (Port::VGARegisterC, (pos / 256) as u8),
        (Port::VGASelectorC, REG_HIGH_BYTE),
        (Port::VGARegisterC, (pos % 256) as u8),
    ];
    assert(r@ =~= seq![
        (Port::VGASelectorC, REG_LOW_BYTE),
        (Port::VGARegisterC, (pos / 256) as u8),
        (Port::VGASelectorC, REG_HIGH_BYTE),
        (Port::VGARegisterC, (pos % 256) as u8),
    ]);
    r
}

} // verus!

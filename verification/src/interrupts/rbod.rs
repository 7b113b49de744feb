//! The rainbow box of death: the error screen's border, its animation and its keys.
use vstd::prelude::*;

use crate::vga::buffers::{vga_wf, Vga, VgaView};
use crate::vga::print::{vga_char_value, Color, Corner, VGAChar};

verus! {

/// An error which caused the error screen to be shown.
///
/// A lot of these errors should never actually occur, and are just placed so that the
/// codes have no gaps.
#[derive(Debug, Clone, Copy, PartialEq, Eq, Structural)]
pub enum ErrorCode {
    DivisionError,
    Debug,
    NMIInterrupt,
    Breakpoint,
    Overflow,
    BoundRangeExceeded,
    InvalidOpcode,
    DeviceNotAvailable,
    DoubleFault,
    CoprocessorSegmentOverrun,
    GeneralProtectionFault,
    PageFault,
    Invalid,
    KernelPanic,
    SysCmd4,
}

/// The number of an error: the exception's vector for exceptions, 256 and up for the
/// rest.
pub open spec fn error_code_value(e: ErrorCode) -> u64 {
    match e {
        ErrorCode::DivisionError => 0,
        ErrorCode::Debug => 1,
        ErrorCode::NMIInterrupt => 2,
        ErrorCode::Breakpoint => 3,
        ErrorCode::Overflow => 4,
        ErrorCode::BoundRangeExceeded => 5,
        ErrorCode::InvalidOpcode => 6,
        ErrorCode::DeviceNotAvailable => 7,
        ErrorCode::DoubleFault => 8,
        ErrorCode::CoprocessorSegmentOverrun => 9,
        ErrorCode::GeneralProtectionFault => 13,
        ErrorCode::PageFault => 14,
        ErrorCode::Invalid => 256,
        ErrorCode::KernelPanic => 257,
        ErrorCode::SysCmd4 => 258,
    }
}

impl ErrorCode {
    /// The number of the error, see [`error_code_value`].
    pub fn code(&self) -> (r: u64)
        ensures
            r == error_code_value(*self),
    {
        match self {
            ErrorCode::DivisionError => 0,
            ErrorCode::Debug => 1,
            ErrorCode::NMIInterrupt => 2,
            ErrorCode::Breakpoint => 3,
            ErrorCode::Overflow => 4,
            ErrorCode::BoundRangeExceeded => 5,
            ErrorCode::InvalidOpcode => 6,
            ErrorCode::DeviceNotAvailable => 7,
            ErrorCode::DoubleFault => 8,
            ErrorCode::CoprocessorSegmentOverrun => 9,
            ErrorCode::GeneralProtectionFault => 13,
            ErrorCode::PageFault => 14,
            ErrorCode::Invalid => 256,
            ErrorCode::KernelPanic => 257,
            ErrorCode::SysCmd4 => 258,
        }
    }
}

/// Handler for exceptions which come with error codes: what prints the error code's
/// meaning, and the error code.
pub struct ErrCodeHandler<F> {
    pub handler: F,
    pub err_code: u64,
}

impl<F> ErrCodeHandler<F> {
    /// Creates a new handler to be passed to the error screen.
    pub fn new(handler: F, err_code: u64) -> (r: Option<Self>)
        ensures
            r matches Some(h) && h.handler == handler && h.err_code == err_code,
    {
        Some(ErrCodeHandler { handler, err_code })
    }
}

// ---------------------------------------------------------------------------
// The keys of the error screen
// ---------------------------------------------------------------------------

/// The scancode of `1` in set 2.
pub const ONE: u8 = 0x16;
/// The scancode of `1` on the keypad in set 2.
pub const ONE_KEYPAD: u8 = 0x69;
/// The scancode of `2` in set 2.
pub const TWO: u8 = 0x1E;
/// The scancode of `2` on the keypad in set 2.
pub const TWO_KEYPAD: u8 = 0x72;
/// The scancode of `3` in set 2.
pub const THREE: u8 = 0x26;
/// The scancode of `3` on the keypad in set 2.
pub const THREE_KEYPAD: u8 = 0x7A;

/// What a key on the error screen does.
#[derive(Debug, Clone, Copy, PartialEq, Eq, Structural)]
pub enum RbodAction {
    /// `1`: restart the device.
    Restart,
    /// `2`: show the previous output.
    SwapBuffers,
    /// `3`: play a relaxing song.
    PlaySong,
}

/// What reading `scancode` from the keyboard does when `prev` was read last: nothing if
/// it's the same scancode again, otherwise the action of its key, if any.
pub open spec fn rbod_key_action(prev: u8, scancode: u8) -> Option<RbodAction> {
    if prev == scancode {
        None
    } else if scancode == ONE || scancode == ONE_KEYPAD {
        Some(RbodAction::Restart)
    } else if scancode == TWO || scancode == TWO_KEYPAD {
        Some(RbodAction::SwapBuffers)
    } else if scancode == THREE || scancode == THREE_KEYPAD {
        Some(RbodAction::PlaySong)
    } else {
        None
    }
}

/// The last scancode the error screen read from the keyboard.
#[derive(Debug, Clone, Copy, PartialEq, Eq, Structural)]
pub struct RbodKeys {
    pub prev: u8,
}

impl RbodKeys {
    /// No scancode read yet.
    pub fn new() -> (r: Self)
        ensures
            r.prev == 0,
    {
        RbodKeys { prev: 0 }
    }

    /// Handles `scancode`, read from the keyboard, see [`rbod_key_action`].
    pub fn check_keyboard(&mut self, scancode: u8) -> (r: Option<RbodAction>)
        ensures
            final(self).prev == scancode,
            r == rbod_key_action(old(self).prev, scancode),
    {
        let prev = self.prev;
        self.prev = scancode;
        if prev == scancode {
            return None;
        }
        if scancode == ONE || scancode == ONE_KEYPAD {
            Some(RbodAction::Restart)
        } else if scancode == TWO || scancode == TWO_KEYPAD {
            Some(RbodAction::SwapBuffers)
        } else if scancode == THREE || scancode == THREE_KEYPAD {
            Some(RbodAction::PlaySong)
        } else {
            None
        }
    }
}

// ---------------------------------------------------------------------------
// The rainbow border
// ---------------------------------------------------------------------------

/// The colour after `c` once the rainbow completed a lap: the next one, wrapping around
/// to blue after yellow and skipping grey and light grey.
pub open spec fn next_color(c: u16) -> u16 {
    let n = if c + 1 > 14 {
        1
    } else {
        c + 1
    };
    if n == 7 {
        9
    } else if n == 8 {
        9
    } else {
        n as u16
    }
}

/// A colour the rainbow uses: blue to yellow, without grey and light grey.
pub open spec fn rainbow_color(c: u16) -> bool {
    1 <= c <= 14 && c != 7 && c != 8
}

/// The state of the rainbow running around the error screen's border: the corner it
/// last turned at, its colour and the character it colours next.
#[derive(Debug, Clone, Copy, PartialEq, Eq, Structural)]
pub struct RbodBorder {
    pub last_turn: Corner,
    pub color: u16,
    pub row: u8,
    pub col: u8,
}

/// The rainbow is on the border, on the side it runs along since its last turn, in a
/// rainbow colour.
pub open spec fn border_wf(b: RbodBorder) -> bool {
    &&& b.row < 25 && b.col < 80
    &&& rainbow_color(b.color)
    &&& match b.last_turn {
        Corner::TopLeft => b.row == 0,
        Corner::TopRight => b.col == 79,
        Corner::BottomRight => b.row == 24,
        Corner::BottomLeft => b.col == 0 && b.row >= 1,
    }
}

/// The rainbow after colouring one character: it moves right along the top row, down
/// the right column, left along the bottom row and up the left column, turning at the
/// corners; when it's back in the top left corner, its colour changes.
pub open spec fn border_step(b: RbodBorder) -> RbodBorder {
    match b.last_turn {
        Corner::TopLeft => if b.col + 1 == 80 {
            RbodBorder { last_turn: Corner::TopRight, ..b }
        } else {
            RbodBorder { col: (b.col + 1) as u8, ..b }
        },
        Corner::TopRight => if b.row + 1 == 25 {
            RbodBorder { last_turn: Corner::BottomRight, ..b }
        } else {
            RbodBorder { row: (b.row + 1) as u8, ..b }
        },
        Corner::BottomRight => if b.col == 0 {
            RbodBorder { last_turn: Corner::BottomLeft, ..b }
        } else {
            RbodBorder { col: (b.col - 1) as u8, ..b }
        },
        Corner::BottomLeft => if b.row - 1 == 0 {
            RbodBorder {
                last_turn: Corner::TopLeft,
                row: 0,
                color: next_color(b.color),
                ..b
            }
        } else {
            RbodBorder { row: (b.row - 1) as u8, ..b }
        },
    }
}

/// Every step keeps the rainbow on the border and in a rainbow colour.
pub proof fn lemma_border_step_wf(b: RbodBorder)
    requires
        border_wf(b),
    ensures
        border_wf(border_step(b)),
{
}

impl RbodBorder {
    /// The rainbow at the start: red, in the top left corner, going right.
    pub fn new() -> (r: Self)
        ensures
            border_wf(r),
            r == (RbodBorder { last_turn: Corner::TopLeft, color: 4, row: 0, col: 0 }),
    {
        RbodBorder { last_turn: Corner::TopLeft, color: 4, row: 0, col: 0 }
    }

    /// Colours the character the rainbow is on (keeping the character, with the rainbow's
    /// colour as its foreground on black), directly in video memory whether or not the
    /// buffer is held, then moves the rainbow on, see [`border_step`].
    pub fn rbod_colors(&mut self, vga: &mut Vga)
        requires
            border_wf(*old(self)),
            vga_wf(old(vga)@),
        ensures
            border_wf(*final(self)),
            vga_wf(final(vga)@),
            *final(self) == border_step(*old(self)),
            final(vga)@ == (VgaView {
                text: old(vga)@.text.update(
                    old(self).row as int,
                    old(vga)@.text[old(self).row as int].update(
                        old(self).col as int,
                        (old(vga)@.text[old(self).row as int][old(self).col as int] % 256
                            + old(self).color * 256) as u16,
                    ),
                ),
                ..old(vga)@
            }),
    {
        let row = self.row as usize;
        let col = self.col as usize;
        let ch = vga.char_at(row, col);
        vga.put_char(row, col, ch.with_fg_bits(self.color));
        match self.last_turn {
            Corner::TopLeft => {
                if self.col + 1 == 80 {
                    self.last_turn = Corner::TopRight;
                } else {
                    self.col = self.col + 1;
                }
            },
            Corner::TopRight => {
                if self.row + 1 == 25 {
                    self.last_turn = Corner::BottomRight;
                } else {
                    self.row = self.row + 1;
                }
            },
            Corner::BottomRight => {
                if self.col == 0 {
                    self.last_turn = Corner::BottomLeft;
                } else {
                    self.col = self.col - 1;
                }
            },
            Corner::BottomLeft => {
                self.row = self.row - 1;
                if self.row == 0 {
                    self.last_turn = Corner::TopLeft;
                    let mut color = self.color + 1;
                    if color > 14 {
                        color = 1;
                    }
                    let ghost n = color;
                    while color == 7 || color == 8
                        invariant
                            1 <= color <= 14,
                            1 <= n <= 14,
                            (n == 7 || n == 8) ==> n <= color <= 9,
                            !(n == 7 || n == 8) ==> color == n,
                        decreases 9 - color,
                    {
                        color = color + 1;
                    }
                    self.color = color;
                }
            },
        }
    }
}

// ---------------------------------------------------------------------------
// The border's box
// ---------------------------------------------------------------------------

/// The character in the bottom right corner of the box: grey on black.
pub open spec fn bottomright_value() -> u16 {
    vga_char_value(0xBC, Color::Grey, Color::Black)
}

/// The character of the box's left and right sides: white on black.
pub open spec fn vertical_value() -> u16 {
    vga_char_value(0xBA, Color::White, Color::Black)
}

/// The character of the box's top and bottom sides: white on black.
pub open spec fn horizontal_value() -> u16 {
    vga_char_value(0xCD, Color::White, Color::Black)
}

/// The character the box puts at `r`, `c`, if any: the bottom right corner, the sides
/// (rows 1 to 23 of the first and last columns), the top and bottom (columns 1 to 78 of
/// the first and last rows). The other three corners are printed as text.
pub open spec fn box_char(r: int, c: int) -> Option<u16> {
    if r == 24 && c == 79 {
        Some(bottomright_value())
    } else if 1 <= r <= 23 && (c == 0 || c == 79) {
        Some(vertical_value())
    } else if 1 <= c <= 78 && (r == 0 || r == 24) {
        Some(horizontal_value())
    } else {
        None
    }
}

/// Draws the box around the error screen, see [`box_char`], unless the buffer is held.
pub fn draw_box(vga: &mut Vga)
    requires
        vga_wf(old(vga)@),
    ensures
        vga_wf(final(vga)@),
        final(vga)@.cursor == old(vga)@.cursor,
        final(vga)@.allow_row_0 == old(vga)@.allow_row_0,
        final(vga)@.held == old(vga)@.held,
        final(vga)@.alt == old(vga)@.alt,
        old(vga)@.held ==> final(vga)@.text == old(vga)@.text,
        !old(vga)@.held ==> forall|r: int, c: int|
            0 <= r < 25 && 0 <= c < 80 ==> #[trigger] final(vga)@.text[r][c] == match box_char(
                r,
                c,
            ) {
                Some(v) => v,
                None => old(vga)@.text[r][c],
            },
{
    let ghost v0 = vga@;
    let corner = VGAChar::new(0xBC, Color::Grey, Color::Black);
    let vertical = VGAChar::new(0xBA, Color::White, Color::Black);
    let horizontal = VGAChar::new(0xCD, Color::White, Color::Black);
    vga.set_char(24, 79, corner);
    let mut row: usize = 1;
    while row < 24
        invariant
            1 <= row <= 24,
            vga_wf(vga@),
            vga@.cursor == v0.cursor && vga@.allow_row_0 == v0.allow_row_0,
            vga@.held == v0.held && vga@.alt == v0.alt,
            vertical@ == vertical_value(),
            v0.held ==> vga@.text == v0.text,
            !v0.held ==> forall|r: int, c: int|
                0 <= r < 25 && 0 <= c < 80 ==> #[trigger] vga@.text[r][c] == if r == 24 && c
                    == 79 {
                    bottomright_value()
                } else if 1 <= r < row && (c == 0 || c == 79) {
                    vertical_value()
                } else {
                    v0.text[r][c]
                },
        decreases 24 - row,
    {
        vga.set_char(row, 0, vertical);
        vga.set_char(row, 79, vertical);
        row = row + 1;
    }
    let mut col: usize = 1;
    while col < 79
        invariant
            1 <= col <= 79,
            vga_wf(vga@),
            vga@.cursor == v0.cursor && vga@.allow_row_0 == v0.allow_row_0,
            vga@.held == v0.held && vga@.alt == v0.alt,
            horizontal@ == horizontal_value(),
            v0.held ==> vga@.text == v0.text,
            !v0.held ==> forall|r: int, c: int|
                0 <= r < 25 && 0 <= c < 80 ==> #[trigger] vga@.text[r][c] == if r == 24 && c
                    == 79 {
                    bottomright_value()
                } else if 1 <= r <= 23 && (c == 0 || c == 79) {
                    vertical_value()
                } else if 1 <= c < col && (r == 0 || r == 24) {
                    horizontal_value()
                } else {
                    v0.text[r][c]
                },
        decreases 79 - col,
    {
        vga.set_char(0, col, horizontal);
        vga.set_char(24, col, horizontal);
        col = col + 1;
    }
}

} // verus!

//! The VGA text buffer, the alternate buffer, and writing characters to them.
use vstd::prelude::*;

use crate::vga::cursor::{
    clamped_col, clamped_row, cursor_in_bounds, shift_cursor, shifted, CursorPos, CursorShift,
    BUFFER_HEIGHT, BUFFER_WIDTH,
};
use crate::vga::print::{vga_char_value, Color, VGAChar};

verus! {

/// The raw contents of a text buffer: 25 rows of 80 characters.
pub type RawBuffer = [[VGAChar; 80]; 25];

/// The value of the space character, white on black.
pub open spec fn space_value() -> u16 {
    vga_char_value(0x20, Color::White, Color::Black)
}

/// The characters of a row.
pub open spec fn row_view(row: [VGAChar; 80]) -> Seq<u16> {
    row@.map_values(|c: VGAChar| c@)
}

/// The characters of a raw buffer.
pub open spec fn raw_view(b: RawBuffer) -> Seq<Seq<u16>> {
    b@.map_values(|row: [VGAChar; 80]| row_view(row))
}

/// Replaces row `r` of a raw buffer.
fn put_row(text: &mut RawBuffer, r: usize, row: [VGAChar; 80])
    requires
        r < 25,
    ensures
        raw_view(*final(text)) == raw_view(*old(text)).update(r as int, row_view(row)),
{
    text[r] = row;
    assert(raw_view(*text) =~= raw_view(*old(text)).update(r as int, row_view(row)));
}

/// A buffer filled with spaces.
pub open spec fn empty_view() -> Seq<Seq<u16>> {
    Seq::new(25, |r: int| Seq::new(80, |c: int| space_value()))
}

/// A row of spaces.
pub fn space_row() -> (r: [VGAChar; 80])
    ensures
        row_view(r) == Seq::new(80, |c: int| space_value()),
{
    let r = [VGAChar::space();80];
    assert(row_view(r) =~= Seq::new(80, |c: int| space_value()));
    r
}

/// The VGA text buffer, held for writing to it.
pub struct YoinkedBuffer(RawBuffer);

impl YoinkedBuffer {
    /// The characters of the buffer.
    pub closed spec fn chars(&self) -> Seq<Seq<u16>> {
        raw_view(self.0)
    }

    /// A held buffer filled with spaces.
    pub fn new() -> (r: Self)
        ensures
            r.chars() == empty_view(),
    {
        YoinkedBuffer(Self::empty_buffer())
    }

    /// Returns a mutable reference to the buffer.
    pub fn buffer(&mut self) -> (r: &mut RawBuffer)
        ensures
            raw_view(*r) == old(self).chars(),
            final(self).chars() == raw_view(*final(r)),
    {
        &mut self.0
    }

    /// Returns a new empty buffer.
    pub fn empty_buffer() -> (r: RawBuffer)
        ensures
            raw_view(r) == empty_view(),
    {
        let row = space_row();
        let r = [row;25];
        assert(raw_view(r) =~= empty_view());
        r
    }
}

/// The state of the VGA console: the cursor, whether row 0 (the topbar) may be written,
/// whether the buffer is held elsewhere, and the visible and alternate buffers.
pub struct Vga {
    cursor: CursorPos,
    allow_row_0: bool,
    held: bool,
    text: RawBuffer,
    alt: RawBuffer,
}

/// The abstract state of the VGA console.
pub struct VgaView {
    pub cursor: CursorPos,
    pub allow_row_0: bool,
    pub held: bool,
    pub text: Seq<Seq<u16>>,
    pub alt: Seq<Seq<u16>>,
}

impl View for Vga {
    type V = VgaView;

    closed spec fn view(&self) -> VgaView {
        VgaView {
            cursor: self.cursor,
            allow_row_0: self.allow_row_0,
            held: self.held,
            text: raw_view(self.text),
            alt: raw_view(self.alt),
        }
    }
}

/// A well formed console: the cursor is inside the buffer.
pub open spec fn vga_wf(v: VgaView) -> bool {
    &&& v.cursor.row < BUFFER_HEIGHT
    &&& v.cursor.column < BUFFER_WIDTH
    &&& v.text.len() == 25
    &&& v.alt.len() == 25
    &&& forall|r: int| 0 <= r < 25 ==> #[trigger] v.text[r].len() == 80 && v.alt[r].len() == 80
}

/// The console after a newline: if the buffer isn't held, the cursor moves to the start
/// of the next line, scrolling every row (but the topbar, unless row 0 is allowed) up one
/// and clearing the last row when already on the last line.
pub open spec fn after_newline(v: VgaView) -> VgaView {
    if v.held {
        v
    } else if v.cursor.row >= BUFFER_HEIGHT - 1 {
        let top: int = if v.allow_row_0 {
            0
        } else {
            1
        };
        VgaView {
            cursor: CursorPos { column: 0, row: clamped_row(v.cursor.row, v.allow_row_0) },
            text: Seq::new(
                25,
                |r: int|
                    if r < top {
                        v.text[r]
                    } else if r < 24 {
                        v.text[r + 1]
                    } else {
                        Seq::new(80, |c: int| space_value())
                    },
            ),
            ..v
        }
    } else {
        VgaView {
            cursor: CursorPos {
                column: 0,
                row: clamped_row((v.cursor.row + 1) as u8, v.allow_row_0),
            },
            ..v
        }
    }
}

/// The console after writing `byte`: a newline for `\n`; otherwise the character is
/// stored at the cursor (unless the buffer is held) and the cursor moves right, onto a new
/// line after the last column.
pub open spec fn after_write_char(v: VgaView, byte: u8, fg: Color, bg: Color) -> VgaView {
    if byte == 0x0A {
        after_newline(v)
    } else {
        let row = v.cursor.row as int;
        let col = v.cursor.column as int;
        let text = if v.held {
            v.text
        } else {
            v.text.update(row, v.text[row].update(col, vga_char_value(byte, fg, bg)))
        };
        let w = VgaView { text, ..v };
        if col >= BUFFER_WIDTH - 1 {
            after_newline(w)
        } else {
            VgaView {
                cursor: CursorPos {
                    column: clamped_col((col + 1) as u8),
                    row: clamped_row(v.cursor.row, v.allow_row_0),
                },
                ..w
            }
        }
    }
}

impl Vga {
    /// A console with an empty buffer, the cursor at the top left and nothing held.
    pub fn new() -> (r: Self)
        ensures
            r@.cursor == (CursorPos { column: 0, row: 0 }),
            !r@.allow_row_0,
            !r@.held,
            r@.text == empty_view(),
            r@.alt == empty_view(),
            vga_wf(r@),
    {
        Vga {
            cursor: CursorPos { column: 0, row: 0 },
            allow_row_0: false,
            held: false,
            text: YoinkedBuffer::empty_buffer(),
            alt: YoinkedBuffer::empty_buffer(),
        }
    }

    /// Returns the cursor's position.
    pub fn cursor(&self) -> (r: CursorPos)
        ensures
            r == self@.cursor,
    {
        self.cursor
    }

    /// Returns whether row 0 may be written to.
    pub fn allow_row_0(&self) -> (r: bool)
        ensures
            r == self@.allow_row_0,
    {
        self.allow_row_0
    }

    /// Allows or forbids writing to row 0, leaving the cursor where it is.
    pub fn set_allow_row_0(&mut self, allow: bool)
        ensures
            final(self)@ == (VgaView { allow_row_0: allow, ..old(self)@ }),
    {
        self.allow_row_0 = allow;
    }

    /// Returns whether the buffer is held elsewhere.
    pub fn held(&self) -> (r: bool)
        ensures
            r == self@.held,
    {
        self.held
    }

    /// Marks the buffer as held elsewhere or not.
    pub fn set_held(&mut self, held: bool)
        ensures
            final(self)@ == (VgaView { held, ..old(self)@ }),
    {
        self.held = held;
    }

    /// Returns the character at `row`, `col`.
    pub fn char_at(&self, row: usize, col: usize) -> (r: VGAChar)
        requires
            row < 25,
            col < 80,
        ensures
            r@ == self@.text[row as int][col as int],
    {
        self.text[row][col]
    }

    /// Overwrites the character at `row`, `col`, unless the buffer is held.
    pub fn set_char(&mut self, row: usize, col: usize, c: VGAChar)
        requires
            row < 25,
            col < 80,
        ensures
            final(self)@ == (VgaView {
                text: if old(self)@.held {
                    old(self)@.text
                } else {
                    old(self)@.text.update(row as int, old(self)@.text[row as int].update(col as int, c@))
                },
                ..old(self)@
            }),
    {
        if !self.held {
            let mut rw = self.text[row];
            rw[col] = c;
            assert(row_view(rw) =~= row_view(old(self).text@[row as int]).update(col as int, c@));
            put_row(&mut self.text, row, rw);
        }
    }

    /// Overwrites the character at `row`, `col` directly in video memory, held buffer or
    /// not.
    pub fn put_char(&mut self, row: usize, col: usize, c: VGAChar)
        requires
            row < 25,
            col < 80,
        ensures
            final(self)@ == (VgaView {
                text: old(self)@.text.update(row as int, old(self)@.text[row as int].update(col as int, c@)),
                ..old(self)@
            }),
    {
        let mut rw = self.text[row];
        rw[col] = c;
        assert(row_view(rw) =~= row_view(old(self).text@[row as int]).update(col as int, c@));
        put_row(&mut self.text, row, rw);
    }

    /// Sets the cursor's row, clamping it.
    pub fn set_row(&mut self, row: u8)
        ensures
            final(self)@ == (VgaView {
                cursor: CursorPos {
                    row: clamped_row(row, old(self)@.allow_row_0),
                    column: clamped_col(old(self)@.cursor.column),
                },
                ..old(self)@
            }),
    {
        let allow = self.allow_row_0;
        self.cursor.set_row(row, allow);
    }

    /// Sets the cursor's column, clamping it.
    pub fn set_col(&mut self, col: u8)
        ensures
            final(self)@ == (VgaView {
                cursor: CursorPos {
                    row: clamped_row(old(self)@.cursor.row, old(self)@.allow_row_0),
                    column: clamped_col(col),
                },
                ..old(self)@
            }),
    {
        let allow = self.allow_row_0;
        self.cursor.set_col(col, allow);
    }

    /// Shifts the cursor once in `direction`, wrapping around the screen's edges.
    pub fn shift_cursor(&mut self, direction: CursorShift)
        requires
            direction == CursorShift::Up ==> old(self)@.cursor.row != 0,
        ensures
            final(self)@ == (VgaView {
                cursor: shifted(old(self)@.cursor, direction, old(self)@.allow_row_0),
                ..old(self)@
            }),
    {
        let allow = self.allow_row_0;
        shift_cursor(&mut self.cursor, direction, allow);
    }
}

/// Prints a newline.
pub fn newline(vga: &mut Vga)
    requires
        vga_wf(old(vga)@),
    ensures
        final(vga)@ == after_newline(old(vga)@),
        vga_wf(final(vga)@),
{
    if !vga.held {
        let (row, _) = vga.cursor.row_col();
        vga.set_col(0);
        if row >= BUFFER_HEIGHT - 1 {
            let ghost before = vga@;
            let top: usize = if vga.allow_row_0 {
                0
            } else {
                1
            };
            let mut r: usize = top;
            while r < 24
                invariant
                    top <= r <= 24,
                    top == (if before.allow_row_0 {
                        0usize
                    } else {
                        1usize
                    }),
                    vga@.cursor == before.cursor,
                    vga@.allow_row_0 == before.allow_row_0,
                    vga@.held == before.held,
                    vga@.alt == before.alt,
                    vga@.text.len() == 25,
                    forall|i: int| 0 <= i < 25 ==> #[trigger] vga@.text[i].len() == 80,
                    forall|i: int| 0 <= i < top ==> #[trigger] vga@.text[i] == before.text[i],
                    forall|i: int| top <= i < r ==> #[trigger] vga@.text[i] == before.text[i + 1],
                    forall|i: int| r <= i < 25 ==> #[trigger] vga@.text[i] == before.text[i],
                decreases 24 - r,
            {
                let next = vga.text[r + 1];
                assert(row_view(next) == vga@.text[r + 1]);
                assert(vga@.text[r + 1] == before.text[r + 1]);
                put_row(&mut vga.text, r, next);
                r = r + 1;
            }
            put_row(&mut vga.text, 24, space_row());
            proof {
                let want = after_newline(old(vga)@);
                assert(vga@.text =~= want.text);
            }
        } else {
            vga.set_row(row + 1);
        }
    }
}

/// Writes `byte` as a character using `fg` as the text color and `bg` as the background
/// color, moving the cursor along.
pub fn write_char(vga: &mut Vga, byte: u8, fg: Color, bg: Color)
    requires
        vga_wf(old(vga)@),
    ensures
        final(vga)@ == after_write_char(old(vga)@, byte, fg, bg),
        vga_wf(final(vga)@),
{
    if byte == 0x0A {
        newline(vga);
    } else {
        let (row, col) = vga.cursor.row_col();
        let newline_needed = col >= BUFFER_WIDTH - 1;
        vga.set_char(row as usize, col as usize, VGAChar::new(byte, fg, bg));
        if newline_needed {
            newline(vga);
        } else {
            vga.set_col(col + 1);
        }
    }
}

/// The console after writing the bytes `s` one after the other.
pub open spec fn after_write_bytes(v: VgaView, s: Seq<u8>, fg: Color, bg: Color) -> VgaView
    decreases s.len(),
{
    if s.len() == 0 {
        v
    } else {
        after_write_char(after_write_bytes(v, s.drop_last(), fg, bg), s.last(), fg, bg)
    }
}

/// Writes every byte of `s` with `write_char`.
pub fn write_bytes(vga: &mut Vga, s: &[u8], fg: Color, bg: Color)
    requires
        vga_wf(old(vga)@),
    ensures
        vga_wf(final(vga)@),
        final(vga)@ == after_write_bytes(old(vga)@, s@, fg, bg),
{
    let mut i: usize = 0;
    while i < s.len()
        invariant
            0 <= i <= s@.len(),
            vga_wf(vga@),
            vga@ == after_write_bytes(old(vga)@, s@.subrange(0, i as int), fg, bg),
        decreases s.len() - i,
    {
        write_char(vga, s[i], fg, bg);
        assert(s@.subrange(0, i + 1).drop_last() =~= s@.subrange(0, i as int));
        i = i + 1;
    }
    assert(s@.subrange(0, s@.len() as int) =~= s@);
}

/// Deletes the character to the left of the cursor (a backspace): at the start of a line
/// the last character of the previous row is cleared and the cursor moves there.
pub fn delete_prev_char(vga: &mut Vga)
    requires
        vga_wf(old(vga)@),
        old(vga)@.cursor.column == 0 ==> old(vga)@.cursor.row != 0,
    ensures
        vga_wf(final(vga)@),
        old(vga)@.held ==> final(vga)@ == old(vga)@,
        !old(vga)@.held && old(vga)@.cursor.column == 0 ==> {
            let v = old(vga)@;
            let row = v.cursor.row as int;
            let t = v.text.update(row - 1, v.text[row - 1].update(79, space_value()));
            let left = shifted(v.cursor, CursorShift::Left, v.allow_row_0);
            final(vga)@ == (VgaView {
                text: t,
                cursor: shifted(left, CursorShift::Up, v.allow_row_0),
                ..v
            })
        },
        !old(vga)@.held && old(vga)@.cursor.column != 0 ==> {
            let v = old(vga)@;
            let row = v.cursor.row as int;
            let col = v.cursor.column as int;
            final(vga)@ == (VgaView {
                text: v.text.update(row, v.text[row].update(col - 1, space_value())),
                cursor: shifted(v.cursor, CursorShift::Left, v.allow_row_0),
                ..v
            })
        },
{
    if !vga.held {
        let (row, col) = vga.cursor.row_col();
        if col == 0 {
            vga.set_char(row as usize - 1, 79, VGAChar::space());
            vga.shift_cursor(CursorShift::Left);
            vga.shift_cursor(CursorShift::Up);
        } else {
            vga.set_char(row as usize, col as usize - 1, VGAChar::space());
            vga.shift_cursor(CursorShift::Left);
        }
    }
}

/// Fills the text buffer with spaces (unless it's held) and moves the cursor to the
/// start of row 1.
pub fn clear(vga: &mut Vga)
    requires
        vga_wf(old(vga)@),
    ensures
        vga_wf(final(vga)@),
        final(vga)@ == (VgaView {
            cursor: CursorPos { column: 0, row: 1 },
            text: if old(vga)@.held {
                old(vga)@.text
            } else {
                empty_view()
            },
            ..old(vga)@
        }),
{
    vga.set_col(0);
    vga.set_row(1);
    if !vga.held {
        vga.text = YoinkedBuffer::empty_buffer();
    }
}

/// Swaps the text buffer with the alternate buffer, unless it's held.
pub fn swap(vga: &mut Vga)
    requires
        vga_wf(old(vga)@),
    ensures
        vga_wf(final(vga)@),
        old(vga)@.held ==> final(vga)@ == old(vga)@,
        !old(vga)@.held ==> final(vga)@ == (VgaView {
            text: old(vga)@.alt,
            alt: old(vga)@.text,
            ..old(vga)@
        }),
{
    if !vga.held {
        let tmp = vga.alt;
        vga.alt = vga.text;
        vga.text = tmp;
    }
}

} // verus!

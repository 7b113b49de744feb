//! The VGA text buffer: characters and colors, the cursor, and the two text buffers.
pub mod buffers;
pub mod cursor;
pub mod print;

use vstd::prelude::*;

use crate::vga::buffers::{after_write_bytes, vga_wf, write_bytes, Vga, VgaView};
use crate::vga::cursor::{clamped_col, clamped_row, CursorPos};
use crate::vga::print::Color;

verus! {

/// Draws the topbar: writes `line` black on light grey from the top left corner (row 0
/// allowed while it's written), then puts the cursor back where it was, with row 0
/// forbidden again.
pub fn draw_topbar(vga: &mut Vga, line: &[u8])
    requires
        vga_wf(old(vga)@),
    ensures
        vga_wf(final(vga)@),
        ({
            let v = old(vga)@;
            let start = VgaView { cursor: CursorPos { row: 0, column: 0 }, allow_row_0: true, ..v };
            let w = after_write_bytes(start, line@, Color::Black, Color::LightGrey);
            final(vga)@ == (VgaView {
                allow_row_0: false,
                cursor: CursorPos {
                    row: clamped_row(v.cursor.row, false),
                    column: clamped_col(v.cursor.column),
                },
                ..w
            })
        }),
{
    let prev = vga.cursor();
    vga.set_allow_row_0(true);
    vga.set_row(0);
    vga.set_col(0);
    assert(vga@.text == old(vga)@.text && vga@.alt == old(vga)@.alt);
    write_bytes(vga, line, Color::Black, Color::LightGrey);
    vga.set_allow_row_0(false);
    vga.set_row(prev.row);
    vga.set_col(prev.column);
}

} // verus!

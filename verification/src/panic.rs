//! What a kernel panic decides: which key restarts the device, and the summary of the
//! initialisation flags.
use vstd::prelude::*;

use crate::sysinfo::SystemInfo;

verus! {

/// The scancode of escape in set 1.
pub const ESC_SCANCODE_SET1: u8 = 0x01;

/// The scancode of escape in set 2.
pub const ESC_SCANCODE_SET2: u8 = 0x76;

/// Whether `scancode` is escape, which restarts the device after a panic.
pub fn is_restart_key(scancode: u8) -> (r: bool)
    ensures
        r == (scancode == ESC_SCANCODE_SET1 || scancode == ESC_SCANCODE_SET2),
{
    scancode == ESC_SCANCODE_SET1 || scancode == ESC_SCANCODE_SET2
}

/// The digit of a flag: 1 when set, 0 when clear.
pub open spec fn flag_digit(b: bool) -> u8 {
    if b {
        1
    } else {
        0
    }
}

/// The initialisation flags a panic shows, as digits: IDT, GDT, PIC, PIT, keyboard and
/// floppy controller.
pub fn init_digits(info: &SystemInfo) -> (r: [u8; 6])
    ensures
        r@ == seq![
            flag_digit(info.idt_init),
            flag_digit(info.gdt_init),
            flag_digit(info.pic_init),
            flag_digit(info.pit_init),
            flag_digit(info.kbd_init),
            flag_digit(info.fdc_init),
        ],
{
    let r = [
        if info.idt_init { 1u8 } else { 0u8 },
        if info.gdt_init { 1u8 } else { 0u8 },
        if info.pic_init { 1u8 } else { 0u8 },
        if info.pit_init { 1u8 } else { 0u8 },
        if info.kbd_init { 1u8 } else { 0u8 },
        if info.fdc_init { 1u8 } else { 0u8 },
    ];
    assert(r@ =~= seq![
        flag_digit(info.idt_init),
        flag_digit(info.gdt_init),
        flag_digit(info.pic_init),
        flag_digit(info.pit_init),
        flag_digit(info.kbd_init),
        flag_digit(info.fdc_init),
    ]);
    r
}

} // verus!

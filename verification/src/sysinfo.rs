//! Information about the system gathered from across the kernel.
use vstd::prelude::*;

use crate::gdt::Gdt;
use crate::interrupts::idt::Idt;
use crate::startup::StartupFlags;
use crate::time::Time;
use crate::util::send::TableDescriptor;
use crate::util::sync::{InitLater, UnsafeFlag, INIT};

verus! {

/// What the kernel was built as: its version, patch quote, and build features.
pub struct BuildInfo {
    pub sfk_version: &'static str,
    pub patch_quote: &'static str,
    pub debug: bool,
    pub disable_enter: bool,
}

/// What a cell holds: its value once initialised, its state otherwise.
pub open spec fn cell_value<T>(c: &InitLater<T>) -> Result<T, u8> {
    match c.value() {
        Some(v) => Ok(v),
        None => Err(c.state()),
    }
}

/// Reads a copy of what `c` holds, see [`cell_value`].
fn read_cell<T: Copy>(c: &InitLater<T>) -> (r: Result<T, u8>)
    ensures
        r == cell_value(c),
{
    c.check_inv();
    match c.read() {
        Ok(v) => Ok(*v),
        Err(e) => Err(e.state()),
    }
}

/// Information about the system gathered from across the kernel.
pub struct SystemInfo {
    pub sfk_version: &'static str,
    pub patch_quote: &'static str,
    pub cpu_vendor: &'static str,
    pub debug: bool,
    pub floppy_offset: Result<u16, u8>,
    pub floppy_space: Result<u16, u8>,
    pub floppy_drive: u8,
    pub fdc_init: bool,
    pub floppyfs_init: bool,
    pub floppy_read_bytes: u64,
    pub floppy_written_bytes: u64,
    pub time: u64,
    pub time_secs: u64,
    pub date: Result<Time, u8>,
    pub gdt_init: bool,
    pub gdt_descriptor: TableDescriptor<Gdt>,
    pub idt_init: bool,
    pub idt_descriptor: TableDescriptor<Idt>,
    pub pic_init: bool,
    pub pit_init: bool,
    pub kbd_init: bool,
    pub disable_enter: bool,
}

impl SystemInfo {
    /// Gathers the current information about the system: the build, the CPU vendor, the
    /// startup flags, the floppy driver's cells and counters, the time in ticks (and in
    /// seconds, at 100 ticks a second), the launch time, and the descriptor tables.
    pub fn now(
        build: &BuildInfo,
        cpu_vendor: &'static str,
        flags: &StartupFlags,
        time: u64,
        floppy_offset: &InitLater<u16>,
        floppy_space: &InitLater<u16>,
        drive_one: &UnsafeFlag,
        floppyfs_init: &UnsafeFlag,
        floppy_read_bytes: u64,
        floppy_written_bytes: u64,
        launch_time: &InitLater<Time>,
        gdt: &InitLater<Gdt>,
        gdt_descriptor: TableDescriptor<Gdt>,
        idt: &InitLater<Idt>,
        idt_descriptor: TableDescriptor<Idt>,
    ) -> (r: Self)
        ensures
            r.sfk_version == build.sfk_version,
            r.patch_quote == build.patch_quote,
            r.cpu_vendor == cpu_vendor,
            r.debug == build.debug,
            r.floppy_offset == cell_value(floppy_offset),
            r.floppy_space == cell_value(floppy_space),
            r.floppy_drive == (if drive_one@ {
                1u8
            } else {
                0u8
            }),
            r.fdc_init == flags.floppy_init@,
            r.floppyfs_init == floppyfs_init@,
            r.floppy_read_bytes == floppy_read_bytes,
            r.floppy_written_bytes == floppy_written_bytes,
            r.time == time,
            r.time_secs == time / 100,
            r.date == cell_value(launch_time),
            r.gdt_init == (gdt.state() == INIT),
            r.gdt_descriptor == gdt_descriptor,
            r.idt_init == (idt.state() == INIT),
            r.idt_descriptor == idt_descriptor,
            r.pic_init == flags.pic_init@,
            r.pit_init == flags.pit_init@,
            r.kbd_init == flags.kbd_init@,
            r.disable_enter == build.disable_enter,
    {
        SystemInfo {
            sfk_version: build.sfk_version,
            patch_quote: build.patch_quote,
            cpu_vendor,
            debug: build.debug,
            floppy_offset: read_cell(floppy_offset),
            floppy_space: read_cell(floppy_space),
            floppy_drive: if drive_one.load() {
                1
            } else {
                0
            },
            fdc_init: flags.floppy_init.load(),
            floppyfs_init: floppyfs_init.load(),
            floppy_read_bytes,
            floppy_written_bytes,
            time,
            time_secs: time / 100,
            date: read_cell(launch_time),
            gdt_init: gdt.read().is_ok(),
            gdt_descriptor,
            idt_init: idt.read().is_ok(),
            idt_descriptor,
            pic_init: flags.pic_init.load(),
            pit_init: flags.pit_init.load(),
            kbd_init: flags.kbd_init.load(),
            disable_enter: build.disable_enter,
        }
    }
}

} // verus!

//! Startup tasks: their exit codes, the flags they set, and how their results are shown.
use vstd::prelude::*;

use crate::util::sync::UnsafeFlag;
use crate::vga::print::Color;

verus! {

/// What a startup task returned.
#[derive(Debug)]
pub enum ExitCode<E> {
    /// The task can never fail.
    Infallible,
    /// The task succeeded.
    Success,
    /// The task failed, but startup can go on.
    Error(E),
    /// The task failed and startup can't go on.
    Stop(E),
}

/// The flags startup tasks set once the hardware they initialise is ready.
pub struct StartupFlags {
    pub gdt_init: UnsafeFlag,
    pub pic_init: UnsafeFlag,
    pub pit_init: UnsafeFlag,
    pub kbd_init: UnsafeFlag,
    pub floppy_init: UnsafeFlag,
    pub rtc_irq_init: UnsafeFlag,
}

impl StartupFlags {
    /// Every flag cleared.
    pub fn new() -> (r: Self)
        ensures
            !r.gdt_init@ && !r.pic_init@ && !r.pit_init@ && !r.kbd_init@ && !r.floppy_init@
                && !r.rtc_irq_init@,
    {
        StartupFlags {
            gdt_init: UnsafeFlag::new(false),
            pic_init: UnsafeFlag::new(false),
            pit_init: UnsafeFlag::new(false),
            kbd_init: UnsafeFlag::new(false),
            floppy_init: UnsafeFlag::new(false),
            rtc_irq_init: UnsafeFlag::new(false),
        }
    }
}

/// Whether the PIC is initialised.
pub fn pic_init(flags: &StartupFlags) -> (r: bool)
    ensures
        r == flags.pic_init@,
{
    flags.pic_init.load()
}

/// Whether the PIT is initialised.
pub fn pit_init(flags: &StartupFlags) -> (r: bool)
    ensures
        r == flags.pit_init@,
{
    flags.pit_init.load()
}

/// Whether the keyboard is initialised.
pub fn kbd_init(flags: &StartupFlags) -> (r: bool)
    ensures
        r == flags.kbd_init@,
{
    flags.kbd_init.load()
}

/// Whether the GDT is loaded.
pub fn gdt_init(flags: &StartupFlags) -> (r: bool)
    ensures
        r == flags.gdt_init@,
{
    flags.gdt_init.load()
}

/// How a startup task's result is shown: the color and text of its box, and whether
/// startup must stop.
pub struct TaskReport {
    pub color: Color,
    pub code: &'static str,
    pub stop: bool,
}

/// Decides how the result of a startup task is shown: `[ INF ]` in cyan for infallible
/// tasks, `[ OK! ]` in lime on success, `[ ERR ]` in light red on an error and `[ STP ]` in
/// red when startup has to stop.
pub fn run<E>(code: &ExitCode<E>) -> (r: TaskReport)
    ensures
        match code {
            ExitCode::Infallible => r.color == Color::Cyan && r.code@ == "INF"@ && !r.stop,
            ExitCode::Success => r.color == Color::Lime && r.code@ == "OK!"@ && !r.stop,
            ExitCode::Error(_) => r.color == Color::LightRed && r.code@ == "ERR"@ && !r.stop,
            ExitCode::Stop(_) => r.color == Color::Red && r.code@ == "STP"@ && r.stop,
        },
{
    match code {
        ExitCode::Infallible => TaskReport { color: Color::Cyan, code: "INF", stop: false },
        ExitCode::Success => TaskReport { color: Color::Lime, code: "OK!", stop: false },
        ExitCode::Error(_) => TaskReport { color: Color::LightRed, code: "ERR", stop: false },
        ExitCode::Stop(_) => TaskReport { color: Color::Red, code: "STP", stop: true },
    }
}

/// Turns a result into an exit code: `Ok` on success, `Error` on failure.
pub fn exit_on_err<T, E>(res: Result<T, E>) -> (r: ExitCode<E>)
    ensures
        match res {
            Ok(_) => r is Success,
            Err(e) => r matches ExitCode::Error(e2) && e2 == e,
        },
{
    match res {
        Ok(_) => ExitCode::Success,
        Err(e) => ExitCode::Error(e),
    }
}

} // verus!

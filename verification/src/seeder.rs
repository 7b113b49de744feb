//! The commands of the build tool: which cargo alias each runs and which features it
//! passes.
use vstd::prelude::*;

verus! {

/// A command which can be run by the build tool.
#[derive(Debug, Clone, Copy, PartialEq, Eq, Structural)]
pub enum RunCommand {
    Build,
    Clippy,
    Test,
}

/// The cargo alias a command runs.
pub open spec fn command_alias(cmd: RunCommand) -> Seq<char> {
    match cmd {
        RunCommand::Build => "bootimage"@,
        RunCommand::Clippy => "paperclip"@,
        RunCommand::Test => "did-i-break-anything"@,
    }
}

impl RunCommand {
    /// Converts the command to the cargo alias it runs.
    pub fn as_str(&self) -> (r: &'static str)
        ensures
            r@ == command_alias(*self),
    {
        match self {
            RunCommand::Build => "bootimage",
            RunCommand::Clippy => "paperclip",
            RunCommand::Test => "did-i-break-anything",
        }
    }
}

/// The cargo arguments enabling the kernel's features: `debug_info` with `debug`,
/// `disable_enter` with `noenter`, after a `-F` when there's any.
pub fn feature_args(debug: bool, noenter: bool) -> (r: Vec<&'static str>)
    ensures
        debug && noenter ==> r@.len() == 3 && r@[0]@ == "-F"@ && r@[1]@ == "debug_info"@ && r@[2]@
            == "disable_enter"@,
        debug && !noenter ==> r@.len() == 2 && r@[0]@ == "-F"@ && r@[1]@ == "debug_info"@,
        !debug && noenter ==> r@.len() == 2 && r@[0]@ == "-F"@ && r@[1]@ == "disable_enter"@,
        !debug && !noenter ==> r@.len() == 0,
{
    let mut out: Vec<&'static str> = Vec::new();
    if debug || noenter {
        out.push("-F");
    }
    if debug {
        out.push("debug_info");
    }
    if noenter {
        out.push("disable_enter");
    }
    out
}

/// The audio driver QEMU is run with, and whether to warn that no audio option was given.
#[derive(Debug, Clone, Copy, PartialEq, Eq)]
pub struct AudioChoice {
    pub driver: &'static str,
    pub warn_no_flag: bool,
}

/// Picks the audio driver from the audio options: at most one may be given; pipewire
/// and pulseaudio pick their driver, and none or `nosound` pick no audio (with a warning
/// when no option was given at all). `None` means options were combined.
pub fn audio_driver(pipewire: bool, pulseaudio: bool, nosound: bool) -> (r: Option<AudioChoice>)
    ensures
        (pipewire && pulseaudio) || (pipewire && nosound) || (pulseaudio && nosound) ==> r is None,
        pipewire && !pulseaudio && !nosound ==> (r matches Some(c) && c.driver@ == "pipewire"@
            && !c.warn_no_flag),
        !pipewire && pulseaudio && !nosound ==> (r matches Some(c) && c.driver@ == "pa"@
            && !c.warn_no_flag),
        !pipewire && !pulseaudio ==> (r matches Some(c) && c.driver@ == "none"@ && c.warn_no_flag
            == !nosound),
{
    if (pipewire && pulseaudio) || (pipewire && nosound) || (pulseaudio && nosound) {
        return None;
    }
    if pipewire {
        Some(AudioChoice { driver: "pipewire", warn_no_flag: false })
    } else if pulseaudio {
        Some(AudioChoice { driver: "pa", warn_no_flag: false })
    } else {
        Some(AudioChoice { driver: "none", warn_no_flag: !nosound })
    }
}

/// The extra QEMU arguments: its monitor on standard I/O in debug mode, nothing otherwise.
pub fn monitor_args(debug: bool) -> (r: Vec<&'static str>)
    ensures
        debug ==> r@.len() == 2 && r@[0]@ == "-monitor"@ && r@[1]@ == "stdio"@,
        !debug ==> r@.len() == 0,
{
    let mut out: Vec<&'static str> = Vec::new();
    if debug {
        out.push("-monitor");
        out.push("stdio");
    }
    out
}

} // verus!

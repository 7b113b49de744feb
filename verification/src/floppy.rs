//! The floppy disk controller (FDC) driver's decisions: which drive to use, which ports to
//! talk to, and the errors it can run into.
use vstd::prelude::*;

pub mod disk;
pub mod fifo;
pub mod floppyfs;
pub mod inodes;
pub mod motor;
pub mod reset;

use crate::floppy::disk::DiskError;
use crate::floppy::fifo::{FifoIOError, SendCmdError, SenseIntError};
use crate::startup::ExitCode;
use crate::util::sync::{InitError, InitLater, INIT};

verus! {

/// Timeout until a command is assumed to have failed, in kernel ticks.
pub const TIMEOUT: u64 = 30;

/// The number of retries before the controller is assumed to be unusable.
pub const RETRIES: u8 = 5;

/// Set in st0 after a reset or error occurs.
pub const ST0_ERR_OR_RESET: u8 = 0xC0;

/// The max number of heads on a floppy disk.
pub const HEADS: u16 = 2;

/// The max number of cylinders on a floppy that sunflower supports.
pub const CYLINDERS: u16 = 80;

/// The max number of sectors per track that sunflower supports.
pub const SECTORS: u16 = 18;

/// The size of a sector, in bytes.
pub const SECTOR_SIZE: usize = 512;

/// The length of each track, in bytes.
pub const CYL_BOUNDARY: usize = 9216;

/// The base address of the first floppy controller.
pub const MAIN_BASE: u16 = 0x3F0;

/// The base address of the second floppy controller.
pub const SECONDARY_BASE: u16 = 0x370;

/// The CMOS register storing the types of the floppy drives.
pub const CMOS_FLOPPY_REG: u8 = 0x10;

/// The result of the Version command from a 82077AA controller.
pub const GOOD_VERSION: u8 = 0x90;

/// The main error type used by the floppy driver.
#[derive(Debug)]
pub enum FloppyError {
    /// A lazily initialised value couldn't be accessed.
    InitStatic(InitError<u16>),
    /// Something went wrong with sending a command.
    SendCommand(SendCmdError),
    /// Something went wrong with sending the sense interrupt command.
    SenseInterrupt(SenseIntError),
    /// A disk read or write error occurred.
    ReadOrWrite(DiskError),
    /// The FIFO port couldn't be accessed in a reasonable amount of time.
    FifoTimeout(FifoIOError),
    /// Some other error occurred.
    Other(&'static str),
}

/// Ports used for floppy operations, relative to the controller's base address.
#[derive(Debug, Clone, Copy, PartialEq, Eq, Structural)]
pub enum FloppyPort {
    /// The digital output register, read & write.
    DigitalOutputRegister,
    /// The main status register, read only.
    MainStatusRegister,
    /// Data first-in first-out, read & write.
    Fifo,
    /// The config control register, write only.
    ConfigCtrlRegister,
}

/// The offset of a floppy port from the controller's base.
pub open spec fn floppy_port_offset(p: FloppyPort) -> u16 {
    match p {
        FloppyPort::DigitalOutputRegister => 2,
        FloppyPort::MainStatusRegister => 4,
        FloppyPort::Fifo => 5,
        FloppyPort::ConfigCtrlRegister => 7,
    }
}

impl FloppyPort {
    /// Returns the port's offset from the controller's base.
    pub fn offset(self) -> (r: u16)
        ensures
            r == floppy_port_offset(self),
    {
        match self {
            FloppyPort::DigitalOutputRegister => 2,
            FloppyPort::MainStatusRegister => 4,
            FloppyPort::Fifo => 5,
            FloppyPort::ConfigCtrlRegister => 7,
        }
    }

    /// Tries to convert `self` into an I/O port using the controller's base address,
    /// failing if it isn't initialised.
    pub fn add_offset(self, base: &InitLater<u16>) -> (r: Result<u16, InitError<u16>>)
        requires
            base.value() matches Some(b) ==> b + 7 <= u16::MAX,
        ensures
            base.state() == INIT ==> (base.value() matches Some(b) && r == Ok::<u16, InitError<u16>>(
                (floppy_port_offset(self) + b) as u16,
            )),
            base.state() != INIT ==> (r matches Err(e) && e.err_state() == base.state()),
    {
        match base.read() {
            Ok(b) => Ok(self.offset() + *b),
            Err(e) => Err(e),
        }
    }
}

/// Size and space information about a floppy drive.
#[derive(Debug, Clone, Copy, PartialEq, Eq, Structural)]
pub struct FloppyInfo {
    /// The amount of space on the drive, in KB.
    pub space: u16,
    /// Whether the floppy is 5.25 inches (or 3.5 inches).
    pub five_inch: bool,
}

/// The drive described by the four type bits in the CMOS floppy register.
pub open spec fn floppy_info_spec(bits: u8) -> Option<FloppyInfo> {
    if bits == 1 {
        Some(FloppyInfo { space: 360, five_inch: true })
    } else if bits == 2 {
        Some(FloppyInfo { space: 1200, five_inch: true })
    } else if bits == 3 {
        Some(FloppyInfo { space: 720, five_inch: false })
    } else if bits == 4 {
        Some(FloppyInfo { space: 1440, five_inch: false })
    } else if bits == 5 {
        Some(FloppyInfo { space: 2880, five_inch: false })
    } else {
        None
    }
}

impl FloppyInfo {
    /// Tries to create a new value from the type bits, returning `None` if no drive is
    /// present or the bits are unknown.
    pub fn new(bits: u8) -> (r: Option<Self>)
        ensures
            r == floppy_info_spec(bits),
    {
        match bits {
            1 => Some(FloppyInfo { space: 360, five_inch: true }),
            2 => Some(FloppyInfo { space: 1200, five_inch: true }),
            3 => Some(FloppyInfo { space: 720, five_inch: false }),
            4 => Some(FloppyInfo { space: 1440, five_inch: false }),
            5 => Some(FloppyInfo { space: 2880, five_inch: false }),
            _ => None,
        }
    }

    /// The physical size of the floppy, as shown to the user.
    pub fn size_str(&self) -> (r: &'static str)
        ensures
            self.five_inch ==> r@ == "5.25"@,
            !self.five_inch ==> r@ == "3.5"@,
    {
        if self.five_inch {
            "5.25"
        } else {
            "3.5"
        }
    }
}

/// The floppy drive chosen at startup: its space, its controller's base and whether it
/// is drive 1.
#[derive(Debug, Clone, Copy, PartialEq, Eq, Structural)]
pub struct DriveChoice {
    pub space: u16,
    pub base: u16,
    pub drive_one: bool,
}

/// Picks the floppy drive to use from the CMOS floppy register: the main drive (high four
/// bits) if present, else the secondary drive (low four bits) on drive 1.
pub fn select_drive(info: u8) -> (r: Result<DriveChoice, FloppyError>)
    ensures
        floppy_info_spec(info >> 4u8) is Some ==> (r matches Ok(c) && c == (DriveChoice {
            space: floppy_info_spec(info >> 4u8)->0.space,
            base: MAIN_BASE,
            drive_one: false,
        })),
        (floppy_info_spec(info >> 4u8) is None && floppy_info_spec(info & 0xFu8) is Some) ==> (
        r matches Ok(c) && c == (DriveChoice {
            space: floppy_info_spec(info & 0xFu8)->0.space,
            base: SECONDARY_BASE,
            drive_one: true,
        })),
        floppy_info_spec(info >> 4u8) is None && floppy_info_spec(info & 0xFu8) is None ==> (
        r matches Err(FloppyError::Other(s)) && s@ == "No floppy drives found!"@),
{
    let main = FloppyInfo::new(info >> 4u8);
    let secondary = FloppyInfo::new(info & 0xFu8);
    if let Some(floppy) = main {
        Ok(DriveChoice { space: floppy.space, base: MAIN_BASE, drive_one: false })
    } else if let Some(floppy) = secondary {
        Ok(DriveChoice { space: floppy.space, base: SECONDARY_BASE, drive_one: true })
    } else {
        Err(FloppyError::Other("No floppy drives found!"))
    }
}

/// Checks the result of the Version command: only 82077AA controllers are supported.
pub fn check_version(version: u8) -> (r: Result<(), FloppyError>)
    ensures
        version == GOOD_VERSION ==> r is Ok,
        version != GOOD_VERSION ==> (r matches Err(FloppyError::Other(s)) && s@
            == "Unsupported controller version!"@),
{
    if version != GOOD_VERSION {
        Err(FloppyError::Other("Unsupported controller version!"))
    } else {
        Ok(())
    }
}

/// Turns the result of initialising the controller into a startup exit code.
pub fn init_wrapper(res: Result<(), FloppyError>) -> (r: ExitCode<FloppyError>)
    ensures
        res is Ok <==> r is Success,
        res is Err <==> r is Error,
{
    crate::startup::exit_on_err(res)
}

} // verus!

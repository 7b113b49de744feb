//! Commands sent through the FDC's FIFO port, and checking their results.
use vstd::prelude::*;

use crate::floppy::{FloppyError, RETRIES, ST0_ERR_OR_RESET};

verus! {

/// Magnetic encoding mode bit, ORed into the read and write commands.
pub const MFM_BIT: u8 = 0x40;

/// Commands which can be sent to a floppy drive.
#[derive(Debug, Clone, Copy, PartialEq, Eq, Structural)]
pub enum FloppyCommand {
    /// Sets drive parameters.
    Specify,
    /// Writes data to the disk.
    WriteDataWithFlags,
    /// Reads data from the disk.
    ReadDataWithFlags,
    /// Seeks to cylinder 0.
    Recalibrate,
    /// Acknowledges a floppy IRQ.
    SenseInterrupt,
    /// Seeks both heads to the specified cylinder.
    Seek,
    /// Responds 0x90 if it's a 82077AA controller.
    Version,
    /// Sends flags to the floppy controller.
    Configure,
}

/// The byte sent for a command.
pub open spec fn command_code(c: FloppyCommand) -> u8 {
    match c {
        FloppyCommand::Specify => 3,
        FloppyCommand::WriteDataWithFlags => 5 | MFM_BIT,
        FloppyCommand::ReadDataWithFlags => 6 | MFM_BIT,
        FloppyCommand::Recalibrate => 7,
        FloppyCommand::SenseInterrupt => 8,
        FloppyCommand::Seek => 15,
        FloppyCommand::Version => 16,
        FloppyCommand::Configure => 19,
    }
}

impl FloppyCommand {
    /// Returns the byte sent for the command.
    pub fn code(self) -> (r: u8)
        ensures
            r == command_code(self),
    {
        match self {
            FloppyCommand::Specify => 3,
            FloppyCommand::WriteDataWithFlags => 5 | MFM_BIT,
            FloppyCommand::ReadDataWithFlags => 6 | MFM_BIT,
            FloppyCommand::Recalibrate => 7,
            FloppyCommand::SenseInterrupt => 8,
            FloppyCommand::Seek => 15,
            FloppyCommand::Version => 16,
            FloppyCommand::Configure => 19,
        }
    }
}

/// The reason a sense interrupt is being sent.
#[derive(Debug, Clone, Copy, PartialEq, Eq, Structural)]
pub enum SenseIntState {
    /// Right after a seek or recalibrate command.
    SeekOrRecal,
    /// The first sense interrupt after a reset.
    FirstReset,
    /// Any other sense interrupt after a reset.
    OtherReset,
}

/// The error returned from FIFO operations.
#[derive(Debug, PartialEq, Eq, Structural)]
pub enum FifoIOError {
    /// Read a byte from the FIFO port at the wrong time.
    Read,
    /// Wrote a byte to the FIFO port at the wrong time.
    Write(u8),
}

/// The error returned when sending a command.
#[derive(Debug, PartialEq, Eq, Structural)]
pub enum SendCmdError {
    /// Sent either a bad command or one at the wrong time.
    BadCommand(u8),
    /// Sent either a bad parameter or one at the wrong time.
    BadParameter { cmd: u8, idx: usize },
    /// Resetting the controller after a failed command failed too.
    ResetError(u8),
}

/// The error returned from a sense interrupt.
#[derive(Debug, PartialEq, Eq, Structural)]
pub enum SenseIntError {
    /// The seek or recalibrate command should be sent again.
    ResendCommand,
    /// The controller locked up due to a sense interrupt sent at the wrong time.
    ControllerLockup,
    /// A seek or recalibrate failed.
    CommandFailed,
    /// A reset, seek or recalibrate command failed.
    UnknownError,
}

/// Whether the main status register allows writing a byte to the FIFO port
/// (RQM set and DIO clear: `10XXXXXX`).
pub open spec fn msr_can_write(msr: u8) -> bool {
    (msr >> 6u8) & 3u8 == 2u8
}

/// Whether the main status register allows reading a byte from the FIFO port
/// (RQM and DIO set: `11XXXXXX`).
pub open spec fn msr_can_read(msr: u8) -> bool {
    (msr >> 6u8) & 3u8 == 3u8
}

/// Returns whether a byte can be written to the FIFO port.
pub fn can_send_byte(msr: u8) -> (r: bool)
    ensures
        r == msr_can_write(msr),
{
    (msr >> 6u8) & 3u8 == 2u8
}

/// Returns whether a byte can be read from the FIFO port.
pub fn can_read_byte(msr: u8) -> (r: bool)
    ensures
        r == msr_can_read(msr),
{
    (msr >> 6u8) & 3u8 == 3u8
}

/// Returns whether the RQM bit (bit 7) of the main status register is set.
pub fn rqm_set(msr: u8) -> (r: bool)
    ensures
        r == (msr & 0x80u8 != 0),
{
    let r = msr == msr | 0x80u8;
    assert(r == (msr & 0x80u8 != 0)) by (bit_vector)
        requires
            r == (msr == msr | 0x80u8),
    ;
    r
}

/// Set in st0 after a recalibrate or seek completed successfully.
pub const RECALIBRATE_SEEK_PASSED: u8 = 0x20;

/// If st0 is only this bit, the controller locked up.
pub const CONTROLLER_LOCK_UP: u8 = 0x80;

/// What a sense interrupt's st0 means, given the drive in use and why it was sent.
pub open spec fn sense_int_spec(st0: u8, drive_num: u8, state: SenseIntState) -> Result<(), SenseIntError> {
    let seek_recal_ok = st0 == (RECALIBRATE_SEEK_PASSED | drive_num);
    let reset_or_err = st0 == (ST0_ERR_OR_RESET | drive_num);
    if (reset_or_err && state == SenseIntState::FirstReset) || (seek_recal_ok && state
        == SenseIntState::SeekOrRecal) {
        Ok(())
    } else if st0 == CONTROLLER_LOCK_UP {
        Err(SenseIntError::ControllerLockup)
    } else if !seek_recal_ok && state == SenseIntState::SeekOrRecal {
        Err(SenseIntError::ResendCommand)
    } else if reset_or_err && state == SenseIntState::SeekOrRecal {
        Err(SenseIntError::CommandFailed)
    } else if state == SenseIntState::OtherReset {
        Ok(())
    } else {
        Err(SenseIntError::UnknownError)
    }
}

/// Checks the st0 byte returned by a sense interrupt sent for `state`, with `drive_one`
/// telling whether drive 1 is in use.
pub fn sense_int_result(st0: u8, drive_one: bool, state: SenseIntState) -> (r: Result<(), SenseIntError>)
    ensures
        r == sense_int_spec(st0, if drive_one { 1u8 } else { 0u8 }, state),
{
    let drive_num: u8 = if drive_one {
        1
    } else {
        0
    };
    let seek_recal_ok = st0 == RECALIBRATE_SEEK_PASSED | drive_num;
    let reset_or_err = st0 == ST0_ERR_OR_RESET | drive_num;
    if (reset_or_err && state == SenseIntState::FirstReset) || (seek_recal_ok && state
        == SenseIntState::SeekOrRecal) {
        Ok(())
    } else if st0 == CONTROLLER_LOCK_UP {
        Err(SenseIntError::ControllerLockup)
    } else if !seek_recal_ok && state == SenseIntState::SeekOrRecal {
        Err(SenseIntError::ResendCommand)
    } else if reset_or_err && state == SenseIntState::SeekOrRecal {
        Err(SenseIntError::CommandFailed)
    } else if state == SenseIntState::OtherReset {
        Ok(())
    } else {
        Err(SenseIntError::UnknownError)
    }
}

/// After a controller lockup: a lockup during a reset disables the driver, while one
/// during a seek or recalibrate resets the controller.
pub fn lockup_disables_driver(state: SenseIntState) -> (r: bool)
    ensures
        r == (state != SenseIntState::SeekOrRecal),
{
    state != SenseIntState::SeekOrRecal
}

/// The command and parameters of a seek: a recalibrate for `None`, otherwise a seek to
/// cylinder `cyl`.
pub fn seek_command(cyl: Option<u8>, drive_one: bool) -> (r: (FloppyCommand, Vec<u8>))
    ensures
        ({
            let d: u8 = if drive_one {
                1
            } else {
                0
            };
            match cyl {
                None => r.0 == FloppyCommand::Recalibrate && r.1@ == seq![d],
                Some(c) => r.0 == FloppyCommand::Seek && r.1@ == seq![d, c],
            }
        }),
{
    let d: u8 = if drive_one {
        1
    } else {
        0
    };
    match cyl {
        Some(c) => {
            let v = vec![d, c];
            (FloppyCommand::Seek, v)
        },
        None => {
            let v = vec![d];
            (FloppyCommand::Recalibrate, v)
        },
    }
}

/// The error of a command whose command byte wasn't accepted.
pub fn bad_command(cmd: u8) -> (r: SendCmdError)
    ensures
        r == SendCmdError::BadCommand(cmd),
{
    SendCmdError::BadCommand(cmd)
}

/// The error of a command whose parameter `idx` wasn't accepted.
pub fn bad_parameter(cmd: u8, idx: usize) -> (r: SendCmdError)
    ensures
        r == (SendCmdError::BadParameter { cmd, idx }),
{
    SendCmdError::BadParameter { cmd, idx }
}

/// The bytes of a command: its code, then its parameters.
pub open spec fn command_bytes(cmd: FloppyCommand, params: Seq<u8>) -> Seq<u8> {
    seq![command_code(cmd)] + params
}

/// `send` was handed `bytes`, in order, and returned `res`: `Ok` when every byte was
/// taken, `Err(i)` when the `i`th wasn't.
pub open spec fn bytes_sent<S: Fn(&[u8]) -> Result<(), usize>>(
    send: S,
    bytes: Seq<u8>,
    res: Result<(), usize>,
) -> bool {
    exists|sl: &[u8]| sl@ == bytes && #[trigger] send.ensures((sl,), res)
}

/// `send` was handed `bytes`, in order, and took every one.
pub open spec fn bytes_taken<S: Fn(&[u8]) -> Result<(), usize>>(send: S, bytes: Seq<u8>) -> bool {
    exists|sl: &[u8], res: Result<(), usize>|
        sl@ == bytes && #[trigger] send.ensures((sl,), res) && res is Ok
}

/// Whether `e` is what sending the command `bytes` (whose code is `code`) with `send`,
/// resetting with `reset` after a refusal, may fail with: the command byte refused, the
/// parameter `idx` refused, or a failed reset.
pub open spec fn command_failed<S: Fn(&[u8]) -> Result<(), usize>, Rs: Fn() -> bool>(
    send: S,
    reset: Rs,
    bytes: Seq<u8>,
    code: u8,
    e: SendCmdError,
) -> bool {
    match e {
        SendCmdError::BadCommand(c) => c == code && bytes_sent(send, bytes, Err(0)),
        SendCmdError::BadParameter { cmd: c, idx } => c == code && idx + 1 <= usize::MAX
            && bytes_sent(send, bytes, Err((idx + 1) as usize)),
        SendCmdError::ResetError(c) => c == code && reset.ensures((), false) && exists|i: usize|
            bytes_sent(send, bytes, Err(i)),
    }
}

/// Copies the command code `code` and the parameters `params` into one buffer.
fn command_buffer(code: u8, params: &[u8]) -> (r: Vec<u8>)
    ensures
        r@ == seq![code] + params@,
{
    let mut out: Vec<u8> = Vec::new();
    out.push(code);
    let mut i: usize = 0;
    while i < params.len()
        invariant
            0 <= i <= params@.len(),
            out@ == seq![code] + params@.subrange(0, i as int),
        decreases params@.len() - i,
    {
        out.push(params[i]);
        assert(params@.subrange(0, i + 1) =~= params@.subrange(0, i as int).push(params@[i as int]));
        i = i + 1;
    }
    assert(params@.subrange(0, params@.len() as int) =~= params@);
    out
}

/// Sends `cmd` and its parameters `params`, in order, with `send`, which tells which byte
/// the controller didn't take, if any. When a byte isn't taken the controller is reset with
/// `reset` and the whole command is sent again, up to `RETRIES` times; a failed reset gives
/// up at once. On success every byte of the command was taken; on an error, it says which
/// byte wasn't, or that the reset failed (see [`command_failed`]).
pub fn send_command<S, Rs>(cmd: FloppyCommand, params: &[u8], send: &S, reset: &Rs) -> (r: Result<
    (),
    SendCmdError,
>) where S: Fn(&[u8]) -> Result<(), usize>, Rs: Fn() -> bool
    requires
        forall|sl: &[u8]| #[trigger] send.requires((sl,)),
        reset.requires(()),
    ensures
        r is Ok ==> bytes_taken(*send, command_bytes(cmd, params@)),
        r matches Err(e) ==> command_failed(*send, *reset, command_bytes(cmd, params@), command_code(cmd), e),
{
    let code = cmd.code();
    let bytes = command_buffer(code, params);
    let ghost all = command_bytes(cmd, params@);
    assert(bytes@ == all);
    let mut err: Result<(), SendCmdError> = Ok(());
    let mut attempt: u8 = 0;
    while attempt < RETRIES
        invariant
            0 <= attempt <= RETRIES,
            code == command_code(cmd),
            bytes@ == all,
            all == command_bytes(cmd, params@),
            forall|sl: &[u8]| #[trigger] send.requires((sl,)),
            reset.requires(()),
            attempt == 0 ==> err is Ok,
            attempt > 0 ==> (err matches Err(e) && command_failed(*send, *reset, all, code, e)),
        decreases RETRIES - attempt,
    {
        attempt = attempt + 1;
        let sl = bytes.as_slice();
        let res = send(sl);
        match res {
            Ok(_) => {
                assert(send.ensures((sl,), res));
                return Ok(());
            },
            Err(i) => {
                assert(send.ensures((sl,), Err::<(), usize>(i)));
                let e = if i == 0 {
                    SendCmdError::BadCommand(code)
                } else {
                    SendCmdError::BadParameter { cmd: code, idx: i - 1 }
                };
                assert(command_failed(*send, *reset, all, code, e));
                err = Err(e);
                let ok = reset();
                if !ok {
                    assert(command_failed(*send, *reset, all, code, SendCmdError::ResetError(code)));
                    return Err(SendCmdError::ResetError(code));
                }
            },
        }
    }
    err
}

/// The bytes of the recalibrate command if `cyl` is `None`, otherwise of the seek to `cyl`,
/// see [`seek_command`].
pub open spec fn seek_bytes(cyl: Option<u8>, drive_one: bool) -> Seq<u8> {
    let d: u8 = if drive_one {
        1
    } else {
        0
    };
    match cyl {
        None => command_bytes(FloppyCommand::Recalibrate, seq![d]),
        Some(c) => command_bytes(FloppyCommand::Seek, seq![d, c]),
    }
}

/// The command code of the recalibrate command if `cyl` is `None`, otherwise of seek.
pub open spec fn seek_code(cyl: Option<u8>) -> u8 {
    match cyl {
        None => command_code(FloppyCommand::Recalibrate),
        Some(_) => command_code(FloppyCommand::Seek),
    }
}

/// Sends the recalibrate command if `cyl` is `None`, otherwise seeks to `cyl` (see
/// [`send_command`]), then checks the result with `sense_int`; a failed check tries
/// again, up to `RETRIES` times, while a command that can't be sent gives up at once.
///
/// On success the whole command was taken and the last check passed; a command that
/// couldn't be sent fails as [`command_failed`] says, and a failed check is returned as it
/// came.
pub fn seek<S, Rs, Si>(
    cyl: Option<u8>,
    drive_one: bool,
    send: &S,
    reset: &Rs,
    sense_int: &Si,
) -> (r: Result<(), FloppyError>) where
    S: Fn(&[u8]) -> Result<(), usize>,
    Rs: Fn() -> bool,
    Si: Fn(SenseIntState) -> Result<(), FloppyError>,

    requires
        forall|sl: &[u8]| #[trigger] send.requires((sl,)),
        reset.requires(()),
        sense_int.requires((SenseIntState::SeekOrRecal,)),
    ensures
        r is Ok ==> bytes_taken(*send, seek_bytes(cyl, drive_one)) && sense_int.ensures(
            (SenseIntState::SeekOrRecal,),
            r,
        ),
        r is Err ==> (r matches Err(FloppyError::SendCommand(e)) && command_failed(
            *send,
            *reset,
            seek_bytes(cyl, drive_one),
            seek_code(cyl),
            e,
        )) || (bytes_taken(*send, seek_bytes(cyl, drive_one)) && sense_int.ensures(
            (SenseIntState::SeekOrRecal,),
            r,
        )),
{
    let mut ret: Result<(), FloppyError> = Ok(());
    let mut attempt: u8 = 0;
    while attempt < RETRIES
        invariant
            0 <= attempt <= RETRIES,
            forall|sl: &[u8]| #[trigger] send.requires((sl,)),
            reset.requires(()),
            sense_int.requires((SenseIntState::SeekOrRecal,)),
            attempt == 0 ==> ret is Ok,
            attempt > 0 ==> ret is Err && bytes_taken(
                *send,
                seek_bytes(cyl, drive_one),
            ) && sense_int.ensures((SenseIntState::SeekOrRecal,), ret),
        decreases RETRIES - attempt,
    {
        attempt = attempt + 1;
        let (cmd, params) = seek_command(cyl, drive_one);
        assert(command_bytes(cmd, params@) == seek_bytes(cyl, drive_one));
        if let Err(e) = send_command(cmd, params.as_slice(), send, reset) {
            return Err(FloppyError::SendCommand(e));
        }
        let res = sense_int(SenseIntState::SeekOrRecal);
        if res.is_ok() {
            return res;
        }
        ret = res;
    }
    ret
}

} // verus!

//! Floppy disk reads and writes: checking the request, turning block addresses into
//! cylinder/head/sector, and checking the controller's result bytes.
use vstd::prelude::*;

use crate::floppy::fifo::FloppyCommand;
use crate::floppy::floppyfs::{fill, padded};
use crate::floppy::{FloppyError, CYLINDERS, HEADS, SECTORS, SECTOR_SIZE, ST0_ERR_OR_RESET};

verus! {

/// The number of retries before a read or write fails and the driver is disabled.
pub const DISK_RETRIES: u8 = 8;

/// Bytes per sector code (128 * 2^2 = 512).
pub const BYTES_PER_SECTOR: u8 = 2;

/// The gap length sent with reads and writes.
pub const GAP_LENGTH: u8 = 0x1B;

/// The data length sent with reads and writes.
pub const DATA_LENGTH: u8 = 0xFF;

/// An error which occurred due to a disk operation.
#[derive(Debug, PartialEq, Eq, Structural)]
pub enum DiskError {
    /// The caller sent a buffer whose length isn't a multiple of 512.
    BadBufLen(u64),
    /// The floppy controller hasn't been or failed to initialise.
    ControllerUninit,
    /// Sending a read/write command timed out.
    SendCommandTimeout,
    /// Transferring data timed out.
    IoTimeout,
    /// The RQM bit was clear for too long after sending read/write.
    FifoTimeout,
    /// The sector or head values aren't valid CHS.
    BadSectOrHead(u8, u8),
    /// Tried writing to read only data.
    NotWritable,
    /// Attempted reading or writing past the end of the drive.
    EndOfDrive,
    /// The error bits in st0 were set.
    BadSt0Bits,
    /// The drive isn't ready to be used yet.
    DriveNotReady,
    /// No data was found.
    NoDataFound,
    /// The controller hit an internal timeout.
    ControllerTimeout,
    /// Reached the end of the cylinder.
    EndOfCylinder,
    /// A CRC error occurred.
    CRCError,
    /// Hit a cylinder which couldn't be used.
    BadCylinder,
    /// Tried accessing a different cylinder.
    DifferingCylinder,
    /// Hit a sector with a deleted address mark.
    NoAddressMark,
}

/// The (head, cylinder, sector) of a linear block address, with the cylinder truncated
/// to eight bits and sectors counted from 1.
pub open spec fn chs_spec(lba: u16) -> (u8, u8, u8) {
    (((lba % 36) / 18) as u8, ((lba / 36) % 256) as u8, ((lba % 36) % 18 + 1) as u8)
}

/// Converts a linear block address into (head, cylinder, sector).
pub fn lba_to_chs(lba: u16) -> (r: (u8, u8, u8))
    ensures
        r == chs_spec(lba),
{
    let head = (lba % (HEADS * SECTORS)) / SECTORS;
    let cyl = lba / (SECTORS * HEADS);
    let sector = (lba % (SECTORS * HEADS)) % SECTORS + 1;
    (head as u8, (cyl % 256) as u8, sector as u8)
}

/// What a read or write of `len` bytes starting at sector `ptr` turns into: nothing for an
/// empty buffer, an error if the controller isn't initialised or `len` isn't a multiple of
/// 512, else the first sector (truncated to 16 bits) and the number of sectors.
pub open spec fn transfer_request(ptr: u64, len: usize, initialised: bool) -> Result<
    Option<(u16, u16)>,
    DiskError,
> {
    if len == 0 {
        Ok(None)
    } else if !initialised {
        Err(DiskError::ControllerUninit)
    } else if len % SECTOR_SIZE != 0 {
        Err(DiskError::BadBufLen(len as u64))
    } else {
        Ok(Some(((ptr % 65536) as u16, ((len / SECTOR_SIZE) % 65536) as u16)))
    }
}

/// Checks a read or write request, see [`transfer_request`].
pub fn check_transfer(ptr: u64, len: usize, initialised: bool) -> (r: Result<Option<(u16, u16)>, FloppyError>)
    ensures
        match transfer_request(ptr, len, initialised) {
            Ok(v) => r matches Ok(w) && w == v,
            Err(e) => r matches Err(FloppyError::ReadOrWrite(e2)) && e2 == e,
        },
{
    if len == 0 {
        return Ok(None);
    }
    if !initialised {
        return Err(FloppyError::ReadOrWrite(DiskError::ControllerUninit));
    }
    if len % SECTOR_SIZE != 0 {
        return Err(FloppyError::ReadOrWrite(DiskError::BadBufLen(len as u64)));
    }
    let sects = ((len / SECTOR_SIZE) % 65536) as u16;
    let p = (ptr % 65536) as u16;
    Ok(Some((p, sects)))
}

/// The command of a read (`true`) or write (`false`).
pub open spec fn transfer_command_spec(read: bool) -> FloppyCommand {
    if read {
        FloppyCommand::ReadDataWithFlags
    } else {
        FloppyCommand::WriteDataWithFlags
    }
}

/// The command sent for a read (`true`) or write (`false`).
pub fn transfer_command(read: bool) -> (r: FloppyCommand)
    ensures
        r == transfer_command_spec(read),
{
    if read {
        FloppyCommand::ReadDataWithFlags
    } else {
        FloppyCommand::WriteDataWithFlags
    }
}

/// The parameters of a read or write of `sects` sectors starting at sector `ptr`: an error
/// if it ends past the last cylinder, or doesn't stay on one head and cylinder.
pub open spec fn transfer_params(ptr: u16, sects: u16, drive_one: bool) -> Result<Seq<u8>, DiskError> {
    let (start_head, start_cyl, start_sect) = chs_spec(ptr);
    let (end_head, end_cyl, end_sect) = chs_spec((ptr + sects - 1) as u16);
    if end_cyl >= CYLINDERS {
        Err(DiskError::EndOfDrive)
    } else if start_sect > SECTORS || start_sect == 0 || start_head != end_head || start_cyl
        != end_cyl {
        Err(DiskError::BadSectOrHead(start_sect, start_head))
    } else {
        Ok(
            seq![
                ((if drive_one { 1u8 } else { 0u8 }) + start_head * 4) as u8,
                start_cyl,
                start_head,
                start_sect,
                BYTES_PER_SECTOR,
                end_sect,
                GAP_LENGTH,
                DATA_LENGTH,
            ],
        )
    }
}

/// Computes the parameters of a read or write command, see [`transfer_params`].
pub fn read_write_params(ptr: u16, sects: u16, drive_one: bool) -> (r: Result<[u8; 8], FloppyError>)
    requires
        sects >= 1,
        ptr + sects <= u16::MAX,
    ensures
        match transfer_params(ptr, sects, drive_one) {
            Ok(p) => r matches Ok(a) && a@ == p,
            Err(e) => r matches Err(FloppyError::ReadOrWrite(e2)) && e2 == e,
        },
{
    let (start_head, start_cyl, start_sect) = lba_to_chs(ptr);
    let (end_head, end_cyl, end_sect) = lba_to_chs(ptr + sects - 1);
    if end_cyl >= CYLINDERS as u8 {
        return Err(FloppyError::ReadOrWrite(DiskError::EndOfDrive));
    }
    if start_sect > SECTORS as u8 || start_sect == 0 || start_head != end_head || start_cyl
        != end_cyl {
        return Err(FloppyError::ReadOrWrite(DiskError::BadSectOrHead(start_sect, start_head)));
    }
    let drive: u8 = if drive_one {
        1
    } else {
        0
    };
    assert(start_head <= 1);
    let first = drive | (start_head << 2u8);
    assert(first == drive + start_head * 4) by (bit_vector)
        requires
            drive <= 1,
            start_head <= 1,
            first == drive | (start_head << 2u8),
    ;
    let params = [
        first,
        start_cyl,
        start_head,
        start_sect,
        BYTES_PER_SECTOR,
        end_sect,
        GAP_LENGTH,
        DATA_LENGTH,
    ];
    assert(params@ =~= transfer_params(ptr, sects, drive_one).unwrap());
    Ok(params)
}

/// Whether bit mask `m` is fully set in `x`.
pub open spec fn has_bits(x: u8, m: u8) -> bool {
    x | m == x
}

/// What the first three result bytes of a read or write mean.
pub open spec fn status_spec(st0: u8, st1: u8, st2: u8) -> Result<(), DiskError> {
    if has_bits(st1, 0x2) {
        Err(DiskError::NotWritable)
    } else if has_bits(st0, ST0_ERR_OR_RESET) {
        Err(DiskError::BadSt0Bits)
    } else if has_bits(st0, 0x8) {
        Err(DiskError::DriveNotReady)
    } else if has_bits(st1, 0x4) {
        Err(DiskError::NoDataFound)
    } else if has_bits(st1, 0x10) {
        Err(DiskError::ControllerTimeout)
    } else if has_bits(st1, 0x80) {
        Err(DiskError::EndOfCylinder)
    } else if has_bits(st1, 0x20) {
        Err(DiskError::CRCError)
    } else if has_bits(st2, 0x2) {
        Err(DiskError::BadCylinder)
    } else if has_bits(st2, 0x10) {
        Err(DiskError::DifferingCylinder)
    } else if has_bits(st2, 0x20) {
        Err(DiskError::CRCError)
    } else if has_bits(st1, 0x40) {
        Err(DiskError::NoAddressMark)
    } else {
        Ok(())
    }
}

/// Checks whether a read or write command passed, from its status bytes st0, st1 & st2.
pub fn read_write_status(st0: u8, st1: u8, st2: u8) -> (r: Result<(), FloppyError>)
    ensures
        match status_spec(st0, st1, st2) {
            Ok(_) => r is Ok,
            Err(e) => r matches Err(FloppyError::ReadOrWrite(e2)) && e2 == e,
        },
{
    let e = if st1 | 0x2 == st1 {
        DiskError::NotWritable
    } else if st0 | ST0_ERR_OR_RESET == st0 {
        DiskError::BadSt0Bits
    } else if st0 | 0x8 == st0 {
        DiskError::DriveNotReady
    } else if st1 | 0x4 == st1 {
        DiskError::NoDataFound
    } else if st1 | 0x10 == st1 {
        DiskError::ControllerTimeout
    } else if st1 | 0x80 == st1 {
        DiskError::EndOfCylinder
    } else if st1 | 0x20 == st1 {
        DiskError::CRCError
    } else if st2 | 0x2 == st2 {
        DiskError::BadCylinder
    } else if st2 | 0x10 == st2 {
        DiskError::DifferingCylinder
    } else if st2 | 0x20 == st2 {
        DiskError::CRCError
    } else if st1 | 0x40 == st1 {
        DiskError::NoAddressMark
    } else {
        return Ok(());
    };
    Err(FloppyError::ReadOrWrite(e))
}

/// The number of times a read or write command is tried before assuming a seek,
/// recalibrate or hardware error.
pub const SEEK_RETRIES: u8 = 5;

/// Whether `e` is an error that one of the steps of an attempt to send a read or write
/// command may have returned: the recalibrate, the seek to `cyl`, or the wait for RQM.
pub open spec fn step_failed<Sk, Wr>(seek: Sk, wait_rqm: Wr, cyl: u8, e: FloppyError) -> bool where
    Sk: Fn(Option<u8>) -> Result<(), FloppyError>,
    Wr: Fn() -> Result<(), FloppyError>,
 {
    ||| seek.ensures((None::<u8>,), Err::<(), FloppyError>(e))
    ||| seek.ensures((Some(cyl),), Err::<(), FloppyError>(e))
    ||| wait_rqm.ensures((), Err::<(), FloppyError>(e))
}

/// Sends the read (`read`) or write command for `sects` sectors from sector `ptr`: fails if
/// the controller isn't `initialised` or the range isn't valid (see [`transfer_params`]),
/// otherwise, up to [`SEEK_RETRIES`] times, recalibrates and seeks to the cylinder with
/// `seek`, waits for RQM with `wait_rqm`, then sends the command with `send`. A failed
/// step gives up at once with its error; a command that isn't taken is sent again, and
/// after the last attempt the send timed out. (That the timeout follows a refused send is
/// stated; how many were refused is not.)
pub fn send_read_write<Sk, Wr, Sd>(
    read: bool,
    ptr: u16,
    sects: u16,
    drive_one: bool,
    initialised: bool,
    seek: &Sk,
    wait_rqm: &Wr,
    send: &Sd,
) -> (r: Result<(), FloppyError>) where
    Sk: Fn(Option<u8>) -> Result<(), FloppyError>,
    Wr: Fn() -> Result<(), FloppyError>,
    Sd: Fn(FloppyCommand, &[u8]) -> Result<(), FloppyError>,

    requires
        sects >= 1,
        ptr + sects <= u16::MAX,
        seek.requires((None::<u8>,)),
        forall|c: u8| #[trigger] seek.requires((Some(c),)),
        wait_rqm.requires(()),
        forall|c: FloppyCommand, p: &[u8]| #[trigger] send.requires((c, p)),
    ensures
        !initialised ==> r == Err::<(), FloppyError>(FloppyError::ReadOrWrite(DiskError::ControllerUninit)),
        initialised ==> match transfer_params(ptr, sects, drive_one) {
            Err(e) => r == Err::<(), FloppyError>(FloppyError::ReadOrWrite(e)),
            Ok(params) => match r {
                Ok(_) => {
                    &&& exists|res: Result<(), FloppyError>|
                        #[trigger] seek.ensures((None::<u8>,), res) && res is Ok
                    &&& exists|res: Result<(), FloppyError>|
                        #[trigger] seek.ensures((Some(params[1]),), res) && res is Ok
                    &&& exists|res: Result<(), FloppyError>| #[trigger] wait_rqm.ensures((), res) && res is Ok
                    &&& exists|p: &[u8], res: Result<(), FloppyError>|
                        #[trigger] send.ensures((transfer_command_spec(read), p), res) && res is Ok
                            && p@ == params
                },
                Err(e) => (e == FloppyError::ReadOrWrite(DiskError::SendCommandTimeout) && exists|
                    p: &[u8],
                    res: Result<(), FloppyError>,
                |
                    #[trigger] send.ensures((transfer_command_spec(read), p), res) && res is Err
                        && p@ == params) || step_failed(*seek, *wait_rqm, params[1], e),
            },
        },
{
    if !initialised {
        return Err(FloppyError::ReadOrWrite(DiskError::ControllerUninit));
    }
    let params = match read_write_params(ptr, sects, drive_one) {
        Ok(p) => p,
        Err(e) => return Err(e),
    };
    let cmd = transfer_command(read);
    let cyl = params[1];
    let mut attempt: u8 = 0;
    while attempt < SEEK_RETRIES
        invariant
            0 <= attempt <= SEEK_RETRIES,
            seek.requires((None::<u8>,)),
            forall|c: u8| #[trigger] seek.requires((Some(c),)),
            wait_rqm.requires(()),
            forall|c: FloppyCommand, p: &[u8]| #[trigger] send.requires((c, p)),
            initialised,
            transfer_params(ptr, sects, drive_one) == Ok::<Seq<u8>, DiskError>(params@),
            cyl == params@[1],
            cmd == transfer_command_spec(read),
            attempt > 0 ==> exists|p: &[u8], res: Result<(), FloppyError>|
                #[trigger] send.ensures((transfer_command_spec(read), p), res) && res is Err && p@
                    == params@,
        decreases SEEK_RETRIES - attempt,
    {
        attempt = attempt + 1;
        let r0 = seek(None);
        if let Err(e) = r0 {
            assert(step_failed(*seek, *wait_rqm, cyl, e));
            return Err(e);
        }
        let r1 = seek(Some(cyl));
        if let Err(e) = r1 {
            assert(step_failed(*seek, *wait_rqm, cyl, e));
            return Err(e);
        }
        let r2 = wait_rqm();
        if let Err(e) = r2 {
            assert(step_failed(*seek, *wait_rqm, cyl, e));
            return Err(e);
        }
        let p = params.as_slice();
        let sent = send(cmd, p);
        if sent.is_ok() {
            assert(seek.ensures((None::<u8>,), r0));
            assert(seek.ensures((Some(cyl),), r1));
            assert(wait_rqm.ensures((), r2));
            assert(send.ensures((transfer_command_spec(read), p), sent));
            return Ok(());
        }
        assert(send.ensures((transfer_command_spec(read), p), sent));
    }
    Err(FloppyError::ReadOrWrite(DiskError::SendCommandTimeout))
}

/// Keeps track of the retries of a read or write and the last error seen.
pub struct Retries {
    left: u8,
    err: FloppyError,
}

impl Retries {
    /// The retries left.
    pub closed spec fn left(&self) -> u8 {
        self.left
    }

    /// The last error seen.
    pub closed spec fn last_error(&self) -> FloppyError {
        self.err
    }

    /// Starts with [`DISK_RETRIES`] retries and an I/O timeout as the error.
    pub fn new() -> (r: Self)
        ensures
            r.left() == DISK_RETRIES,
            r.last_error() == FloppyError::ReadOrWrite(DiskError::IoTimeout),
    {
        Retries { left: DISK_RETRIES, err: FloppyError::ReadOrWrite(DiskError::IoTimeout) }
    }

    /// Whether another attempt may be made.
    pub fn can_retry(&self) -> (r: bool)
        ensures
            r == (self.left() > 0),
    {
        self.left > 0
    }

    /// Records a failed attempt, using up a retry.
    pub fn fail(&mut self, e: FloppyError)
        requires
            old(self).left() > 0,
        ensures
            final(self).left() == old(self).left() - 1,
            final(self).last_error() == e,
    {
        self.left = self.left - 1;
        self.err = e;
    }

    /// Gives up, returning the last error seen.
    pub fn into_error(self) -> (r: FloppyError)
        ensures
            r == self.last_error(),
    {
        self.err
    }
}

} // verus!

verus! {

/// Why the bytes of a transfer didn't all go through: waiting for RQM failed, which ends
/// the transfer, or a byte wasn't transferred, which starts the next attempt.
#[derive(Debug)]
pub enum ByteError {
    Wait(FloppyError),
    Byte(FloppyError),
}

/// Whether `e` is an error that a failed attempt of a read of `n` sectors (`len` bytes)
/// from `p` may have seen: the command not sent by `send_rw`, or a byte not read by
/// `read_bytes`.
pub open spec fn read_attempt_failed<Sr, Rb>(send_rw: Sr, read_bytes: Rb, p: u16, n: u16, len: usize, e: FloppyError) -> bool where
    Sr: Fn(bool, u16, u16) -> Result<(), FloppyError>,
    Rb: Fn(usize) -> Result<Vec<u8>, ByteError>,
 {
    ||| send_rw.ensures((true, p, n), Err::<(), FloppyError>(e))
    ||| read_bytes.ensures((len,), Err::<Vec<u8>, ByteError>(ByteError::Byte(e)))
}

/// Whether `e` is an error that a failed attempt of a write of `n` sectors of `data` to `p`
/// may have seen: the command not sent by `send_rw`, or a byte not taken by `send_bytes`.
pub open spec fn write_attempt_failed<Sr, Sb>(send_rw: Sr, send_bytes: Sb, p: u16, n: u16, data: Seq<u8>, e: FloppyError) -> bool where
    Sr: Fn(bool, u16, u16) -> Result<(), FloppyError>,
    Sb: Fn(&[u8]) -> Result<(), ByteError>,
 {
    ||| send_rw.ensures((false, p, n), Err::<(), FloppyError>(e))
    ||| exists|sl: &[u8]|
        sl@ == data && #[trigger] send_bytes.ensures((sl,), Err::<(), ByteError>(ByteError::Byte(e)))
}

/// Reads from the drive starting at sector `ptr` into `buf`, see [`transfer_request`]:
/// nothing is done for an empty buffer, and an uninitialised controller or a length that
/// isn't a multiple of 512 is refused. Otherwise, up to [`DISK_RETRIES`] times, the read
/// command is sent with `send_rw`, the buffer's bytes are read with `read_bytes` (given
/// their number) and put into `buf` in order, and the result is checked with `status`. A
/// command that isn't sent or a byte that isn't read starts the next attempt; an error
/// while waiting for RQM or in the result is returned at once. When every attempt failed,
/// `give_up` is handed the last error and what it returns is the error. Bytes the reader
/// doesn't return read as zero.
pub fn read<Sr, Rb, St, G>(
    ptr: u64,
    buf: &mut [u8],
    initialised: bool,
    send_rw: &Sr,
    read_bytes: &Rb,
    status: &St,
    give_up: &G,
) -> (r: Result<(), FloppyError>) where
    Sr: Fn(bool, u16, u16) -> Result<(), FloppyError>,
    Rb: Fn(usize) -> Result<Vec<u8>, ByteError>,
    St: Fn() -> Result<(), FloppyError>,
    G: Fn(FloppyError) -> FloppyError,

    requires
        forall|rd: bool, p: u16, n: u16| #[trigger] send_rw.requires((rd, p, n)),
        forall|l: usize| #[trigger] read_bytes.requires((l,)),
        status.requires(()),
        forall|e: FloppyError| #[trigger] give_up.requires((e,)),
    ensures
        final(buf)@.len() == old(buf)@.len(),
        match transfer_request(ptr, old(buf)@.len() as usize, initialised) {
            Err(e) => r == Err::<(), FloppyError>(FloppyError::ReadOrWrite(e)) && final(buf)@
                == old(buf)@,
            Ok(None) => r is Ok && final(buf)@ == old(buf)@,
            Ok(Some((p, n))) => match r {
                Ok(_) => {
                    &&& exists|res: Result<(), FloppyError>|
                        #[trigger] send_rw.ensures((true, p, n), res) && res is Ok
                    &&& exists|data: Vec<u8>|
                        #[trigger] read_bytes.ensures(
                            (old(buf)@.len() as usize,),
                            Ok::<Vec<u8>, ByteError>(data),
                        ) && final(buf)@ == padded(data@, old(buf)@.len() as int)
                    &&& exists|res: Result<(), FloppyError>| #[trigger] status.ensures((), res) && res is Ok
                },
                Err(e) => {
                    ||| read_bytes.ensures(
                        (old(buf)@.len() as usize,),
                        Err::<Vec<u8>, ByteError>(ByteError::Wait(e)),
                    )
                    ||| status.ensures((), Err::<(), FloppyError>(e))
                    ||| exists|last: FloppyError|
                        #[trigger] give_up.ensures((last,), e) && read_attempt_failed(
                            *send_rw,
                            *read_bytes,
                            p,
                            n,
                            old(buf)@.len() as usize,
                            last,
                        )
                },
            },
        },
{
    let len = buf.len();
    let (p, n) = match check_transfer(ptr, len, initialised) {
        Err(e) => return Err(e),
        Ok(None) => return Ok(()),
        Ok(Some(pn)) => pn,
    };
    let mut retries = Retries::new();
    while retries.can_retry()
        invariant
            buf@ == old(buf)@,
            len == old(buf)@.len(),
            transfer_request(ptr, len, initialised) == Ok::<Option<(u16, u16)>, DiskError>(
                Some((p, n)),
            ),
            forall|rd: bool, p: u16, n: u16| #[trigger] send_rw.requires((rd, p, n)),
            forall|l: usize| #[trigger] read_bytes.requires((l,)),
            status.requires(()),
            forall|e: FloppyError| #[trigger] give_up.requires((e,)),
            retries.left() <= DISK_RETRIES,
            retries.left() < DISK_RETRIES ==> read_attempt_failed(
                *send_rw,
                *read_bytes,
                p,
                n,
                len,
                retries.last_error(),
            ),
        decreases retries.left(),
    {
        let sent = send_rw(true, p, n);
        if let Err(e) = sent {
            retries.fail(e);
            continue;
        }
        let got = read_bytes(len);
        let data = match got {
            Err(ByteError::Wait(e)) => return Err(e),
            Err(ByteError::Byte(e)) => {
                retries.fail(e);
                continue;
            },
            Ok(data) => data,
        };
        let st = status();
        if let Err(e) = st {
            return Err(e);
        }
        fill(buf, 0, len, &data);
        assert(buf@ =~= padded(data@, len as int));
        assert(send_rw.ensures((true, p, n), sent));
        assert(status.ensures((), st));
        assert(read_bytes.ensures((len,), Ok::<Vec<u8>, ByteError>(data)));
        return Ok(());
    }
    let last = retries.into_error();
    let e = give_up(last);
    assert(give_up.ensures((last,), e));
    Err(e)
}

/// Writes `buf` to the drive starting at sector `ptr`, see [`transfer_request`]: nothing
/// is done for an empty buffer, and an uninitialised controller or a length that isn't a
/// multiple of 512 is refused. Otherwise, up to [`DISK_RETRIES`] times, the write command
/// is sent with `send_rw` and the bytes of `buf` are handed, in order, to `send_bytes`. A
/// command that isn't sent or a byte that isn't taken starts the next attempt; an error
/// while waiting for RQM is returned at once. When every attempt failed, `give_up` is
/// handed the last error and what it returns is the error.
pub fn write<Sr, Sb, G>(
    ptr: u64,
    buf: &[u8],
    initialised: bool,
    send_rw: &Sr,
    send_bytes: &Sb,
    give_up: &G,
) -> (r: Result<(), FloppyError>) where
    Sr: Fn(bool, u16, u16) -> Result<(), FloppyError>,
    Sb: Fn(&[u8]) -> Result<(), ByteError>,
    G: Fn(FloppyError) -> FloppyError,

    requires
        forall|rd: bool, p: u16, n: u16| #[trigger] send_rw.requires((rd, p, n)),
        forall|sl: &[u8]| #[trigger] send_bytes.requires((sl,)),
        forall|e: FloppyError| #[trigger] give_up.requires((e,)),
    ensures
        match transfer_request(ptr, buf@.len() as usize, initialised) {
            Err(e) => r == Err::<(), FloppyError>(FloppyError::ReadOrWrite(e)),
            Ok(None) => r is Ok,
            Ok(Some((p, n))) => match r {
                Ok(_) => {
                    &&& exists|res: Result<(), FloppyError>|
                        #[trigger] send_rw.ensures((false, p, n), res) && res is Ok
                    &&& exists|sl: &[u8], res: Result<(), ByteError>|
                        sl@ == buf@ && #[trigger] send_bytes.ensures((sl,), res) && res is Ok
                },
                Err(e) => {
                    ||| exists|sl: &[u8]|
                        sl@ == buf@ && #[trigger] send_bytes.ensures(
                            (sl,),
                            Err::<(), ByteError>(ByteError::Wait(e)),
                        )
                    ||| exists|last: FloppyError|
                        #[trigger] give_up.ensures((last,), e) && write_attempt_failed(
                            *send_rw,
                            *send_bytes,
                            p,
                            n,
                            buf@,
                            last,
                        )
                },
            },
        },
{
    let len = buf.len();
    let (p, n) = match check_transfer(ptr, len, initialised) {
        Err(e) => return Err(e),
        Ok(None) => return Ok(()),
        Ok(Some(pn)) => pn,
    };
    let mut retries = Retries::new();
    while retries.can_retry()
        invariant
            len == buf@.len(),
            transfer_request(ptr, len, initialised) == Ok::<Option<(u16, u16)>, DiskError>(
                Some((p, n)),
            ),
            forall|rd: bool, p: u16, n: u16| #[trigger] send_rw.requires((rd, p, n)),
            forall|sl: &[u8]| #[trigger] send_bytes.requires((sl,)),
            forall|e: FloppyError| #[trigger] give_up.requires((e,)),
            retries.left() <= DISK_RETRIES,
            retries.left() < DISK_RETRIES ==> write_attempt_failed(
                *send_rw,
                *send_bytes,
                p,
                n,
                buf@,
                retries.last_error(),
            ),
        decreases retries.left(),
    {
        let sent = send_rw(false, p, n);
        if let Err(e) = sent {
            retries.fail(e);
            continue;
        }
        let res = send_bytes(buf);
        match res {
            Err(ByteError::Wait(e)) => {
                assert(send_bytes.ensures((buf,), Err::<(), ByteError>(ByteError::Wait(e))));
                return Err(e);
            },
            Err(ByteError::Byte(e)) => {
                assert(send_bytes.ensures((buf,), Err::<(), ByteError>(ByteError::Byte(e))));
                retries.fail(e);
                continue;
            },
            Ok(_) => {
                assert(send_bytes.ensures((buf,), res));
                assert(send_rw.ensures((false, p, n), sent));
                return Ok(());
            },
        }
    }
    let last = retries.into_error();
    let e = give_up(last);
    assert(give_up.ensures((last,), e));
    Err(e)
}

} // verus!

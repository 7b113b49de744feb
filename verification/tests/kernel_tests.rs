use std::cell::Cell;
use sunflower::floppy::disk;
use sunflower::floppy::fifo::{send_command, FloppyCommand, SendCmdError};
use sunflower::floppy::disk::ByteError;
use sunflower::floppy::disk::{check_transfer, lba_to_chs, read_write_params, read_write_status, send_read_write, DiskError, Retries};
use sunflower::floppy::floppyfs;
use sunflower::floppy::floppyfs::{good_fs_header, init_floppyfs, InitError};
use sunflower::floppy::inodes::{alloc_inode as alloc_inode_with_blocks, read_inode, AllocINodeError, InodeIOError};
use sunflower::floppy::motor::{Motor, MotorAction, MOTOR_DISABLING, MOTOR_OFF, MOTOR_ON};
use sunflower::floppy::{select_drive, FloppyError, FloppyInfo, SECTOR_SIZE};
use sunflower::fs::header::FilesystemHeader;
use sunflower::fs::init::TABLE_BYTES;
use sunflower::fs::table::{BlockBitmap, InodeTable};
use sunflower::fs::{BlockPtr, FileMode, INode, InodePtr, MAGIC};
use sunflower::gdt::{load_tss_result, setup_tss, tss_entries, Gdt, LoadTssError, SegmentDescriptor, Tss, TSS_SIZE};
use sunflower::panic::{init_digits, is_restart_key};
use sunflower::seeder::{feature_args, RunCommand};
use sunflower::speaker::{play_chime, play_song, play_special, play_writes, speaker_off, speaker_on, SoundPlan};
use sunflower::startup::{exit_on_err, run, ExitCode, StartupFlags};
use sunflower::sysinfo::{BuildInfo, SystemInfo};
use sunflower::time::{
    bcd_to_bin, set_timer_interval, sync_time_to_rtc, timer_writes, uptime, wait_for_rtc_sync, wait_target,
    RtcSyncWaitError, Time, WaitingChar, WAITING_CHAR,
};
use sunflower::util::send::TableDescriptor;
use sunflower::util::sync::{InitLater, UnsafeFlag};
use sunflower::vga::buffers::{clear, delete_prev_char, newline, swap, write_bytes, write_char, Vga};
use sunflower::vga::cursor::{shift_cursor, update_visual_pos, CursorPos, CursorShift};
use sunflower::vga::print::{Color, VGAChar};
use sunflower::ports::Port;
use std::cell::RefCell;

#[test]
fn segment_descriptors() {
    assert_eq!(SegmentDescriptor::new(true).bits(), (1 << 44) | (1 << 47) | (1 << 53) | (1 << 43));
    assert_eq!(SegmentDescriptor::new(false).bits(), (1 << 44) | (1 << 47) | (1 << 53));
}

#[test]
fn gdt_holds_the_tss() {
    let addr: u64 = 0xFFFF_8000_DEAD_BEEF;
    let (low, high) = tss_entries(addr);
    let l = low.bits();
    let h = high.bits();
    let base = ((l >> 16) & 0xFFFF) | (((l >> 32) & 0xFF) << 16) | (((l >> 56) & 0xFF) << 24) | ((h & 0xFFFF_FFFF) << 32);
    assert_eq!(base, addr);
    assert_eq!(l & 0xFFFF, 103);
    assert_eq!((l >> 40) & 0xFF, 0b1000_1001);
    let gdt = Gdt::new(Some(addr));
    assert_eq!(gdt.entry(0).bits(), 0);
    assert_eq!(gdt.entry(3).bits(), l);
    assert_eq!(gdt.entry(4).bits(), h);
    let gdt = Gdt::new(None);
    assert_eq!(gdt.entry(3).bits(), 0);
    assert_eq!(gdt.entry(1).bits(), SegmentDescriptor::new(true).bits());
}

#[test]
fn tss_setup() {
    let mut cell = InitLater::uninit();
    assert!(matches!(setup_tss(&mut cell, 0x1000), ExitCode::Success));
    let tss = cell.read().unwrap();
    assert_eq!(tss.ist(0), 0x1000 + 2048);
    assert_eq!(tss.ist(1), 0);
    assert_eq!(tss.iomap(), TSS_SIZE);
    assert!(matches!(setup_tss(&mut cell, 0x2000), ExitCode::Error(_)));
    assert_eq!(cell.read().unwrap().ist(0), 0x1000 + 2048);
    assert_eq!(Tss::empty().ist(6), 0);
}

#[test]
fn tss_load_results() {
    assert!(matches!(load_tss_result(false, 0x18), ExitCode::Error(LoadTssError::NoGdt)));
    assert!(matches!(load_tss_result(true, 0x18), ExitCode::Success));
    assert!(matches!(load_tss_result(true, 0x10), ExitCode::Error(LoadTssError::BadStore(0x10))));
}

#[test]
fn timer_setup() {
    let w = timer_writes();
    assert_eq!(w[0], (Port::PITCmd, 0b0111_1100));
    assert_eq!(w[1], (Port::PITChannel0, (11932 % 256) as u8));
    assert_eq!(w[2], (Port::PITChannel0, (11932 / 256) as u8));
    let mut flags = StartupFlags::new();
    assert!(matches!(set_timer_interval(&mut flags), ExitCode::Error("The PIC isn't init!")));
    assert!(!flags.pit_init.load());
    flags.pic_init.store(true);
    assert!(matches!(set_timer_interval(&mut flags), ExitCode::Infallible));
    assert!(flags.pit_init.load());
}

#[test]
fn waits_need_the_pit() {
    let mut flags = StartupFlags::new();
    assert_eq!(wait_target(&flags, 100, 20), None);
    assert_eq!(wait_target(&flags, 100, u64::MAX), None);
    flags.pit_init.store(true);
    assert_eq!(wait_target(&flags, 100, 20), Some(121));
}

#[test]
fn waiting_character() {
    let mut w = WaitingChar::new();
    assert_eq!(w.set_waiting_char(true, 0x0F41), Some(WAITING_CHAR));
    assert_eq!(w.set_waiting_char(false, WAITING_CHAR), Some(0x0F41));
    w.enabled = false;
    assert_eq!(w.set_waiting_char(true, 0x0F42), None);
}

#[test]
fn bcd_conversion() {
    assert_eq!(bcd_to_bin(0x59), 59);
    assert_eq!(bcd_to_bin(0x00), 0);
    assert_eq!(bcd_to_bin(0x23), 23);
}

#[test]
fn rtc_time_conversion() {
    let raw = Time { year: 0x25, month: 0x11, day: 0x22, hour: 0x13, min: 0x45, sec: 0x07 };
    // BCD mode, 24 hour clock: every value is converted
    let t = Time::from_rtc(raw, 0b10, 20);
    assert_eq!(t, Time { year: 2025, month: 11, day: 22, hour: 13, min: 45, sec: 7 });
    // binary mode, 24 hour clock
    let raw = Time { year: 25, month: 11, day: 22, hour: 13, min: 45, sec: 7 };
    assert_eq!(Time::from_rtc(raw, 0b110, 20), Time { year: 2025, ..raw });
    // 12 hour clock, binary mode: the flag set turns 3 into 15
    let raw = Time { year: 25, month: 11, day: 22, hour: 0x83, min: 45, sec: 7 };
    assert_eq!(Time::from_rtc(raw, 0b100, 20).hour, 15);
    // 12 hour clock, flag clear: the hours are kept
    let raw = Time { year: 25, month: 11, day: 22, hour: 9, min: 45, sec: 7 };
    assert_eq!(Time::from_rtc(raw, 0b100, 20).hour, 9);
    // 12 hour clock, BCD mode with the flag: 0x91 is 11 with the flag, so 23
    let raw = Time { year: 0x25, month: 0x11, day: 0x22, hour: 0x91, min: 0x45, sec: 0x07 };
    assert_eq!(Time::from_rtc(raw, 0, 20).hour, 23);
}

#[test]
fn rtc_sync() {
    let mut flags = StartupFlags::new();
    let mut launch = InitLater::uninit();
    assert!(matches!(wait_for_rtc_sync(&flags, &launch), ExitCode::Error(RtcSyncWaitError::NoIrq)));
    flags.rtc_irq_init.store(true);
    assert!(matches!(wait_for_rtc_sync(&flags, &launch), ExitCode::Error(RtcSyncWaitError::NoStatic(0))));
    let mut done = UnsafeFlag::new(false);
    let raw = Time { year: 0x25, month: 0x01, day: 0x02, hour: 0x03, min: 0x04, sec: 0x05 };
    sync_time_to_rtc(raw, 0, 20, &mut launch, &mut done);
    assert!(done.load());
    assert_eq!(launch.read().unwrap().year, 2025);
    assert!(matches!(wait_for_rtc_sync(&flags, &launch), ExitCode::Success));
}

#[test]
fn uptime_breakdown() {
    assert_eq!(uptime(3725), (1, 2, 5));
    assert_eq!(uptime(59), (0, 0, 59));
}

#[test]
fn speaker_values() {
    let w = play_writes(1000);
    assert_eq!(w[0], (Port::PITCmd, 0b10110110));
    assert_eq!(w[1], (Port::PITChannel2, (1193 % 256) as u8));
    assert_eq!(w[2], (Port::PITChannel2, (1193 / 256) as u8));
    assert_eq!(speaker_on(0b100), Some(0b111));
    assert_eq!(speaker_on(0b111), None);
    assert_eq!(speaker_off(0b111), 0b100);
}

#[test]
fn special_sounds() {
    let mut flags = StartupFlags::new();
    assert_eq!(play_special(&flags, 600, 350, false), None);
    flags.pit_init.store(true);
    assert_eq!(play_special(&flags, 600, 350, false), Some(SoundPlan { freq: 600, hold: 35, pulses: None }));
    assert_eq!(play_special(&flags, 600, 900, true), Some(SoundPlan { freq: 600, hold: 90, pulses: Some(7) }));
}

#[test]
fn chime_and_song() {
    let chime = play_chime();
    assert_eq!(chime.len(), 4);
    assert_eq!((chime[3].freq, chime[3].millis, chime[3].repeat), (780, 900, false));
    let song = play_song();
    assert_eq!(song.len(), 44);
    assert_eq!((song[0].freq, song[0].millis), (400, 300));
    assert!(song[30].repeat && !song[31].repeat && song[32].repeat);
    assert_eq!((song[43].freq, song[43].millis), (450, 1350));
}

#[test]
fn system_info_gathering() {
    let build = BuildInfo { sfk_version: "1.0", patch_quote: "quote", debug: true, disable_enter: false };
    let mut flags = StartupFlags::new();
    flags.pic_init.store(true);
    let mut offset = InitLater::uninit();
    offset.init(0x3F0u16).unwrap();
    let space = InitLater::uninit();
    let drive_one = UnsafeFlag::new(true);
    let fs_init = UnsafeFlag::new(false);
    let launch = InitLater::uninit();
    let gdt = InitLater::uninit();
    let idt = InitLater::uninit();
    let info = SystemInfo::now(
        &build, "GenuineIntel", &flags, 12345, &offset, &space, &drive_one, &fs_init, 512, 1024,
        &launch, &gdt, TableDescriptor::invalid(), &idt, TableDescriptor::invalid(),
    );
    assert_eq!(info.time_secs, 123);
    assert_eq!(info.floppy_offset, Ok(0x3F0));
    assert_eq!(info.floppy_space, Err(0));
    assert_eq!(info.floppy_drive, 1);
    assert!(info.pic_init && !info.pit_init && !info.gdt_init);
    assert_eq!(info.cpu_vendor, "GenuineIntel");
    assert_eq!(init_digits(&info), [0, 0, 1, 0, 0, 0]);
}

#[test]
fn panic_restart_keys() {
    assert!(is_restart_key(0x01));
    assert!(is_restart_key(0x76));
    assert!(!is_restart_key(0x1C));
}

#[test]
fn seeder_commands() {
    assert_eq!(RunCommand::Build.as_str(), "bootimage");
    assert_eq!(RunCommand::Clippy.as_str(), "paperclip");
    assert_eq!(RunCommand::Test.as_str(), "did-i-break-anything");
    assert_eq!(feature_args(true, true), vec!["-F", "debug_info", "disable_enter"]);
    assert_eq!(feature_args(false, true), vec!["-F", "disable_enter"]);
    assert!(feature_args(false, false).is_empty());
}

#[test]
fn startup_reports() {
    assert_eq!(run::<()>(&ExitCode::Success).code, "OK!");
    assert!(run(&ExitCode::Stop(1)).stop);
    assert!(matches!(exit_on_err::<u8, u8>(Err(3)), ExitCode::Error(3)));
}

#[test]
fn disk_transfers() {
    assert_eq!(lba_to_chs(0), (0, 0, 1));
    assert_eq!(lba_to_chs(18), (1, 0, 1));
    assert_eq!(lba_to_chs(37), (0, 1, 2));
    assert!(matches!(check_transfer(5, 0, true), Ok(None)));
    assert!(matches!(check_transfer(5, 512, false), Err(FloppyError::ReadOrWrite(DiskError::ControllerUninit))));
    assert!(matches!(check_transfer(5, 100, true), Err(FloppyError::ReadOrWrite(DiskError::BadBufLen(100)))));
    assert!(matches!(check_transfer(5, 1024, true), Ok(Some((5, 2)))));
    let p = read_write_params(1, 2, true).unwrap();
    assert_eq!(p, [1, 0, 0, 2, 2, 3, 0x1B, 0xFF]);
    assert!(matches!(read_write_params(17, 2, false), Err(FloppyError::ReadOrWrite(DiskError::BadSectOrHead(18, 0)))));
    assert!(matches!(read_write_params(2880, 1, false), Err(FloppyError::ReadOrWrite(DiskError::EndOfDrive))));
    assert!(read_write_status(0, 0, 0).is_ok());
    assert!(matches!(read_write_status(0, 0x2, 0), Err(FloppyError::ReadOrWrite(DiskError::NotWritable))));
    assert!(matches!(read_write_status(0xC0, 0, 0), Err(FloppyError::ReadOrWrite(DiskError::BadSt0Bits))));
    assert!(matches!(read_write_status(0, 0, 0x20), Err(FloppyError::ReadOrWrite(DiskError::CRCError))));
    let mut r = Retries::new();
    for _ in 0..8 {
        assert!(r.can_retry());
        r.fail(FloppyError::Other("x"));
    }
    assert!(!r.can_retry());
    assert!(matches!(r.into_error(), FloppyError::Other("x")));
}

#[test]
fn floppy_drives() {
    assert_eq!(FloppyInfo::new(4), Some(FloppyInfo { space: 1440, five_inch: false }));
    assert_eq!(FloppyInfo::new(9), None);
    let c = select_drive(0x40).unwrap();
    assert_eq!((c.space, c.base, c.drive_one), (1440, 0x3F0, false));
    let c = select_drive(0x02).unwrap();
    assert_eq!((c.space, c.base, c.drive_one), (1200, 0x370, true));
    assert!(select_drive(0).is_err());
}

#[test]
fn motor_states() {
    let mut m = Motor::new();
    assert_eq!(m.state(), MOTOR_OFF);
    assert_eq!(m.enable_motor(), MotorAction::SendEnable);
    assert_eq!(m.state(), MOTOR_ON);
    m.disable_motor();
    assert_eq!(m.state(), MOTOR_DISABLING);
    for _ in 0..50 {
        assert_eq!(m.decrease_motor_time(true), MotorAction::Nothing);
    }
    assert_eq!(m.decrease_motor_time(true), MotorAction::SendDisable);
    assert_eq!(m.state(), MOTOR_OFF);
    m.disable_motor();
    assert_eq!(m.force_disable(true), MotorAction::SendDisable);
}

/// A fake drive: blocks of 512 bytes, which records every transfer.
struct FakeDrive {
    data: RefCell<Vec<u8>>,
    log: RefCell<Vec<(u64, usize)>>,
}

impl FakeDrive {
    fn new(sectors: usize) -> Self {
        FakeDrive { data: RefCell::new(vec![0; sectors * SECTOR_SIZE]), log: RefCell::new(vec![]) }
    }

    fn write(&self, block: u64, buf: &[u8]) -> Result<(), u8> {
        self.log.borrow_mut().push((block, buf.len()));
        let start = block as usize * SECTOR_SIZE;
        self.data.borrow_mut()[start..start + buf.len()].copy_from_slice(buf);
        Ok(())
    }

    fn read(&self, block: u64, len: usize) -> Result<Vec<u8>, u8> {
        self.log.borrow_mut().push((block, len));
        let start = block as usize * SECTOR_SIZE;
        Ok(self.data.borrow()[start..start + len].to_vec())
    }
}

#[test]
fn writes_split_at_tracks() {
    let drive = FakeDrive::new(80);
    let buf: Vec<u8> = (0..21 * SECTOR_SIZE).map(|i| (i % 251) as u8).collect();
    floppyfs::write(16, &buf, &|b: u64, s: &[u8]| drive.write(b, s)).unwrap();
    assert_eq!(*drive.log.borrow(), vec![(16, 1024), (18, 9216), (36, 512)]);
    assert_eq!(&drive.data.borrow()[16 * SECTOR_SIZE..37 * SECTOR_SIZE], &buf[..]);
    let mut back = vec![0u8; 21 * SECTOR_SIZE];
    drive.log.borrow_mut().clear();
    floppyfs::read(16, &mut back, &|b: u64, l: usize| drive.read(b, l)).unwrap();
    assert_eq!(*drive.log.borrow(), vec![(16, 1024), (18, 9216), (36, 512)]);
    assert_eq!(back, buf);
}

#[test]
fn transfers_past_the_first_track_split_at_tracks() {
    let drive = FakeDrive::new(80);
    let buf: Vec<u8> = (0..20 * SECTOR_SIZE).map(|i| (i % 241) as u8).collect();
    floppyfs::write(40, &buf, &|b: u64, s: &[u8]| drive.write(b, s)).unwrap();
    assert_eq!(*drive.log.borrow(), vec![(40, 14 * SECTOR_SIZE), (54, 6 * SECTOR_SIZE)]);
    let mut back = vec![0u8; 20 * SECTOR_SIZE];
    drive.log.borrow_mut().clear();
    floppyfs::read(40, &mut back, &|b: u64, l: usize| drive.read(b, l)).unwrap();
    assert_eq!(*drive.log.borrow(), vec![(40, 14 * SECTOR_SIZE), (54, 6 * SECTOR_SIZE)]);
    assert_eq!(back, buf);
}

#[test]
fn disk_transfers_retry_and_give_up() {
    let sends = Cell::new(0);
    let send_rw = |_r: bool, _p: u16, _n: u16| -> Result<(), FloppyError> {
        sends.set(sends.get() + 1);
        Ok(())
    };
    let read_bytes = |l: usize| -> Result<Vec<u8>, ByteError> { Ok((0..l).map(|i| (i % 256) as u8).collect()) };
    let status = || -> Result<(), FloppyError> { Ok(()) };
    let give_up = |e: FloppyError| e;
    let mut buf = vec![9u8; SECTOR_SIZE];
    assert!(disk::read(3, &mut buf, true, &send_rw, &read_bytes, &status, &give_up).is_ok());
    assert_eq!(sends.get(), 1);
    assert_eq!(buf[0], 0);
    assert_eq!(buf[300], 44);
    // an empty buffer sends nothing, an uninitialised controller is refused
    assert!(disk::read(3, &mut [], true, &send_rw, &read_bytes, &status, &give_up).is_ok());
    assert!(matches!(
        disk::read(3, &mut buf, false, &send_rw, &read_bytes, &status, &give_up),
        Err(FloppyError::ReadOrWrite(DiskError::ControllerUninit))
    ));
    assert_eq!(sends.get(), 1);
    // the whole buffer goes to the sender in one call; every byte refused: eight attempts,
    // then the last error goes through give_up
    let handed = RefCell::new(Vec::new());
    let bad_bytes = |b: &[u8]| -> Result<(), ByteError> {
        handed.borrow_mut().push(b.len());
        Err(ByteError::Byte(FloppyError::Other("refused")))
    };
    let gave_up = |_e: FloppyError| FloppyError::ReadOrWrite(DiskError::NoDataFound);
    assert!(matches!(
        disk::write(3, &buf, true, &send_rw, &bad_bytes, &gave_up),
        Err(FloppyError::ReadOrWrite(DiskError::NoDataFound))
    ));
    assert_eq!(*handed.borrow(), vec![SECTOR_SIZE; 8]);
    // an RQM error is returned at once
    let no_rqm = |_l: usize| -> Result<Vec<u8>, ByteError> { Err(ByteError::Wait(FloppyError::ReadOrWrite(DiskError::FifoTimeout))) };
    assert!(matches!(
        disk::read(3, &mut buf, true, &send_rw, &no_rqm, &status, &give_up),
        Err(FloppyError::ReadOrWrite(DiskError::FifoTimeout))
    ));
}

#[test]
fn commands_are_sent_whole_and_retried() {
    let handed = RefCell::new(Vec::new());
    let take_all = |b: &[u8]| -> Result<(), usize> {
        handed.borrow_mut().push(b.to_vec());
        Ok(())
    };
    let resets = Cell::new(0);
    let reset = || -> bool {
        resets.set(resets.get() + 1);
        true
    };
    assert!(send_command(FloppyCommand::Seek, &[1, 40], &take_all, &reset).is_ok());
    assert_eq!(*handed.borrow(), vec![vec![15, 1, 40]]);
    let refuse_second_param = |_b: &[u8]| -> Result<(), usize> { Err(2) };
    assert_eq!(
        send_command(FloppyCommand::Seek, &[1, 40], &refuse_second_param, &reset),
        Err(SendCmdError::BadParameter { cmd: 15, idx: 1 })
    );
    assert_eq!(resets.get(), 5);
    let refuse_code = |_b: &[u8]| -> Result<(), usize> { Err(0) };
    let failed_reset = || -> bool { false };
    assert_eq!(send_command(FloppyCommand::Version, &[], &refuse_code, &failed_reset), Err(SendCmdError::ResetError(16)));
}

#[test]
fn failed_writes_stop() {
    let log = RefCell::new(vec![]);
    let buf = vec![1u8; 3 * 9216];
    let r = floppyfs::write(0, &buf, &|b: u64, _s: &[u8]| {
        log.borrow_mut().push(b);
        if b == 18 { Err(7u8) } else { Ok(()) }
    });
    assert_eq!(r, Err(7));
    assert_eq!(*log.borrow(), vec![0, 18]);
}

#[test]
fn short_reads_are_zero_filled() {
    let mut buf = vec![9u8; 100];
    floppyfs::read(0, &mut buf, &|_b: u64, _l: usize| Ok::<Vec<u8>, u8>(vec![1, 2, 3])).unwrap();
    assert_eq!(&buf[..4], &[1, 2, 3, 0]);
    assert!(buf[3..].iter().all(|b| *b == 0));
}

#[test]
fn good_header() {
    let h = good_fs_header(326, 2025);
    assert_eq!(h.magic, MAGIC);
    assert_eq!(&h.name[..12], b"floppy drive");
    assert_eq!(h.size, 0);
    assert_eq!(h.features.bits(), 1);
    assert_eq!(h.release.year_day(), (0, 326));
}

#[test]
fn mounting_the_floppy() {
    let mut flags = StartupFlags::new();
    let mut done = UnsafeFlag::new(false);
    let mut tbl = InodeTable::new();
    let mut bmp = BlockBitmap::new();
    let drive = FakeDrive::new(80);
    let hread = |b: u64, l: usize| drive.read(b, l);
    let tread = |b: u64, l: usize| {
        let mut v = vec![0u8; l];
        floppyfs::read(b, &mut v, &|b2: u64, l2: usize| drive.read(b2, l2))?;
        Ok(v)
    };
    let w = |b: u64, s: &[u8]| floppyfs::write(b, s, &|b2: u64, s2: &[u8]| drive.write(b2, s2));
    let no = || false;
    let yes = || true;
    let r = init_floppyfs(&flags, &mut done, 326, 2025, &mut tbl, &mut bmp, &hread, &tread, &w, &yes);
    assert!(matches!(r, ExitCode::Error(InitError::NoFloppyDriver)));
    flags.floppy_init.store(true);
    let r = init_floppyfs(&flags, &mut done, 326, 2025, &mut tbl, &mut bmp, &hread, &tread, &w, &no);
    assert!(matches!(r, ExitCode::Error(InitError::CorruptDrive)));
    assert!(!done.load());
    let r = init_floppyfs(&flags, &mut done, 326, 2025, &mut tbl, &mut bmp, &hread, &tread, &w, &yes);
    assert!(matches!(r, ExitCode::Success));
    assert!(done.load());
    let mut raw = [0u8; 512];
    raw.copy_from_slice(&drive.data.borrow()[..512]);
    let h = FilesystemHeader::from_raw(raw);
    assert_eq!(h.magic, MAGIC);
    assert!(drive.data.borrow()[512..512 + TABLE_BYTES].iter().all(|b| *b == 0));
}

#[test]
fn inode_blocks_round_trip() {
    let drive = FakeDrive::new(200);
    let mut tbl = InodeTable::new();
    let mut bmp = BlockBitmap::new();
    let nod = INode::new(FileMode::directory(), 0, InodePtr::null());
    let w = |b: u64, s: &[u8]| drive.write(b, s);
    let ptr = alloc_inode_with_blocks(&nod, 3, &mut tbl, &mut bmp, &w).unwrap();
    assert_eq!(ptr.get(), Some(1));
    assert!(bmp.is_used(1) && bmp.is_used(2) && bmp.is_used(3) && !bmp.is_used(4));
    let stored = tbl.get(0);
    let ptrs = stored.block(0).decode();
    assert_eq!((ptrs[0].get(), ptrs[1].get()), (Some(1), Some(2)));
    assert_eq!(stored.block(1).decode()[0].get(), Some(3));
    // fill the blocks, then read them back through the inode
    for (i, blk) in [1u64, 2, 3].iter().enumerate() {
        drive.write(*blk, &vec![i as u8 + 10; SECTOR_SIZE]).unwrap();
    }
    let mut buf = vec![0u8; 5 * SECTOR_SIZE];
    let n = read_inode(0, &tbl, &mut buf, &|b: u64, l: usize| drive.read(b, l)).unwrap();
    assert_eq!(n, 3);
    assert!(buf[..SECTOR_SIZE].iter().all(|b| *b == 10));
    assert!(buf[2 * SECTOR_SIZE..3 * SECTOR_SIZE].iter().all(|b| *b == 12));
    assert!(buf[3 * SECTOR_SIZE..].iter().all(|b| *b == 0));
    let mut small = vec![0u8; SECTOR_SIZE + 10];
    assert_eq!(read_inode(0, &tbl, &mut small, &|b: u64, l: usize| drive.read(b, l)).unwrap(), 1);
    assert!(matches!(read_inode(500, &tbl, &mut buf, &|b: u64, l: usize| drive.read(b, l)), Err(InodeIOError::NoInodeFound(500))));
}

#[test]
fn inode_allocation_runs_out_of_blocks() {
    let mut tbl = InodeTable::new();
    let mut bmp = BlockBitmap::new();
    for p in 1..4095u16 {
        sunflower::fs::table::alloc_bmp(&BlockPtr::new(p), &mut bmp).unwrap();
    }
    let nod = INode::new(FileMode::directory(), 0, InodePtr::null());
    let r = alloc_inode_with_blocks(&nod, 2, &mut tbl, &mut bmp, &|_b: u64, _s: &[u8]| Ok::<(), u8>(()));
    assert!(matches!(r, Err(AllocINodeError::OutOfBlocks)));
    assert!(bmp.is_used(4095));
}

#[test]
fn console_writes_and_scrolls() {
    let mut vga = Vga::new();
    vga.set_row(3);
    write_bytes(&mut vga, b"hi", Color::White, Color::Black);
    assert_eq!(vga.char_at(3, 0).as_raw(), VGAChar::new(b'h', Color::White, Color::Black).as_raw());
    assert_eq!(vga.cursor(), CursorPos { column: 2, row: 3 });
    write_char(&mut vga, b'\n', Color::White, Color::Black);
    assert_eq!(vga.cursor(), CursorPos { column: 0, row: 4 });
    delete_prev_char(&mut vga);
    assert_eq!(vga.cursor(), CursorPos { column: 79, row: 3 });
    vga.set_row(24);
    vga.set_col(0);
    write_bytes(&mut vga, b"x", Color::Lime, Color::Black);
    newline(&mut vga);
    assert_eq!(vga.cursor(), CursorPos { column: 0, row: 24 });
    assert_eq!(vga.char_at(23, 0).as_raw(), VGAChar::new(b'x', Color::Lime, Color::Black).as_raw());
    swap(&mut vga);
    assert_eq!(vga.char_at(23, 0).as_raw(), VGAChar::space().as_raw());
    swap(&mut vga);
    clear(&mut vga);
    assert_eq!(vga.char_at(23, 0).as_raw(), VGAChar::space().as_raw());
    assert_eq!(vga.cursor(), CursorPos { column: 0, row: 1 });
}

#[test]
fn cursor_moves_and_wraps() {
    let mut c = CursorPos { column: 0, row: 5 };
    shift_cursor(&mut c, CursorShift::Left, false);
    assert_eq!(c, CursorPos { column: 79, row: 5 });
    shift_cursor(&mut c, CursorShift::Right, false);
    assert_eq!(c, CursorPos { column: 0, row: 5 });
    let mut c = CursorPos { column: 3, row: 1 };
    shift_cursor(&mut c, CursorShift::Up, false);
    assert_eq!(c.row, 24);
    shift_cursor(&mut c, CursorShift::Down, false);
    assert_eq!(c.row, 1);
    let mut c = CursorPos { column: 10, row: 2 };
    let w = update_visual_pos(&mut c, false);
    assert_eq!(w[1], (Port::VGARegisterC, 0));
    assert_eq!(w[3], (Port::VGARegisterC, 170));
}

#[test]
fn read_write_command_is_sent_and_retried() {
    let seeks = RefCell::new(Vec::new());
    let sent = RefCell::new(Vec::new());
    let ok_seek = |c: Option<u8>| -> Result<(), FloppyError> {
        seeks.borrow_mut().push(c);
        Ok(())
    };
    let ok_wait = || -> Result<(), FloppyError> { Ok(()) };
    let ok_send = |c: FloppyCommand, p: &[u8]| -> Result<(), FloppyError> {
        sent.borrow_mut().push((c, p.to_vec()));
        Ok(())
    };
    // sector 37: cylinder 1, head 0, sector 2
    assert!(send_read_write(true, 37, 2, false, true, &ok_seek, &ok_wait, &ok_send).is_ok());
    assert_eq!(*seeks.borrow(), vec![None, Some(1)]);
    assert_eq!(*sent.borrow(), vec![(FloppyCommand::ReadDataWithFlags, vec![0, 1, 0, 2, 2, 3, 0x1B, 0xFF])]);

    assert!(matches!(
        send_read_write(true, 37, 2, false, false, &ok_seek, &ok_wait, &ok_send),
        Err(FloppyError::ReadOrWrite(DiskError::ControllerUninit))
    ));
    let tries = Cell::new(0);
    let bad_send = |_c: FloppyCommand, _p: &[u8]| -> Result<(), FloppyError> {
        tries.set(tries.get() + 1);
        Err(FloppyError::Other("busy"))
    };
    assert!(matches!(
        send_read_write(false, 37, 2, false, true, &ok_seek, &ok_wait, &bad_send),
        Err(FloppyError::ReadOrWrite(DiskError::SendCommandTimeout))
    ));
    assert_eq!(tries.get(), 5);
    let bad_wait = || -> Result<(), FloppyError> { Err(FloppyError::ReadOrWrite(DiskError::FifoTimeout)) };
    assert!(matches!(
        send_read_write(false, 37, 2, false, true, &ok_seek, &bad_wait, &ok_send),
        Err(FloppyError::ReadOrWrite(DiskError::FifoTimeout))
    ));
}

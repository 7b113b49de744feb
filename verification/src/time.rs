//! The PIT's timer, the kernel's time, and the launch time read from the RTC.
use vstd::prelude::*;

use crate::ports::Port;
use crate::startup::{ExitCode, StartupFlags};
use crate::util::sync::{InitLater, UnsafeFlag, INIT, UNINIT};

verus! {

/// The base frequency of the PIT.
pub const PIT_BASE_FREQ: u64 = 1193180;

/// How many kernel ticks there are per second.
pub const KERNEL_TICKS_HZ: u64 = 100;

/// The PIT reload value giving `KERNEL_TICKS_HZ` ticks per second, rounded.
pub const TICK_INTERVAL: u16 = 11932;

/// The PIT command byte sent before the tick interval.
pub const TIMER_COMMAND: u8 = 0b0_111_11_00;

/// CMOS register B.
pub const CMOS_REG_B: u8 = 0x8B;

/// The 24 hour / 12 hour time flag in the hours value.
pub const FLAG_24_HR: u8 = 0b10000000;

/// The tick interval is the PIT's base frequency divided by the ticks per second,
/// rounded to the nearest integer.
pub proof fn lemma_tick_interval()
    ensures
        TICK_INTERVAL == (PIT_BASE_FREQ + KERNEL_TICKS_HZ / 2) / (KERNEL_TICKS_HZ as int),
{
}

/// The writes that set channel 0 of the PIT to tick every 10 ms: the command, then the
/// low and high bytes of the tick interval.
pub fn timer_writes() -> (r: [(Port, u8); 3])
    ensures
        r@ == seq![
            (Port::PITCmd, TIMER_COMMAND),
            (Port::PITChannel0, (TICK_INTERVAL % 256) as u8),
            (Port::PITChannel0, (TICK_INTERVAL / 256) as u8),
        ],
{
    let r = [
        (Port::PITCmd, TIMER_COMMAND),
        (Port::PITChannel0, (TICK_INTERVAL % 256) as u8),
        (Port::PITChannel0, (TICK_INTERVAL / 256) as u8),
    ];
    assert(r@ =~= seq![
        (Port::PITCmd, TIMER_COMMAND),
        (Port::PITChannel0, (TICK_INTERVAL % 256) as u8),
        (Port::PITChannel0, (TICK_INTERVAL / 256) as u8),
    ]);
    r
}

/// Decides whether the timer can be set up: it needs the PIC, and marks the PIT as
/// initialised once it is (the caller then sends [`timer_writes`]).
pub fn set_timer_interval(flags: &mut StartupFlags) -> (r: ExitCode<&'static str>)
    ensures
        !old(flags).pic_init@ ==> (r matches ExitCode::Error(m) && m@ == "The PIC isn't init!"@)
            && final(flags).pit_init@ == old(flags).pit_init@,
        old(flags).pic_init@ ==> r is Infallible && final(flags).pit_init@,
        final(flags).pic_init@ == old(flags).pic_init@,
        final(flags).gdt_init@ == old(flags).gdt_init@,
        final(flags).kbd_init@ == old(flags).kbd_init@,
        final(flags).floppy_init@ == old(flags).floppy_init@,
        final(flags).rtc_irq_init@ == old(flags).rtc_irq_init@,
{
    if !flags.pic_init.load() {
        return ExitCode::Error("The PIC isn't init!");
    }
    flags.pit_init.store(true);
    ExitCode::Infallible
}

/// The tick at which a wait of `ticks` ticks started at tick `now` ends, or none when
/// there's no PIT to tick.
pub fn wait_target(flags: &StartupFlags, now: u64, ticks: u64) -> (r: Option<u64>)
    requires
        flags.pit_init@ ==> now + ticks + 1 <= u64::MAX,
    ensures
        flags.pit_init@ ==> r == Some((now + ticks + 1) as u64),
        !flags.pit_init@ ==> r is None,
{
    if !flags.pit_init.load() {
        return None;
    }
    Some(now + ticks + 1)
}

/// The character shown in the top right corner while waiting, and the one it covered.
pub struct WaitingChar {
    pub enabled: bool,
    pub prev: u16,
}

/// The waiting character: a smiley, black on light grey.
pub const WAITING_CHAR: u16 = 0x7001;

impl WaitingChar {
    /// An enabled waiting character that covered nothing yet.
    pub fn new() -> (r: Self)
        ensures
            r.enabled && r.prev == 0,
    {
        WaitingChar { enabled: true, prev: 0 }
    }

    /// Toggles the waiting character on or off, given the character `current` in the top
    /// right corner; returns what to put there. Showing it remembers the covered
    /// character, hiding it puts that one back. Nothing happens when it's disabled.
    pub fn set_waiting_char(&mut self, show: bool, current: u16) -> (r: Option<u16>)
        ensures
            !old(self).enabled ==> r is None && *final(self) == *old(self),
            old(self).enabled && show ==> r == Some(WAITING_CHAR) && final(self).prev == current
                && final(self).enabled,
            old(self).enabled && !show ==> r == Some(old(self).prev) && *final(self) == *old(
                self,
            ),
    {
        if !self.enabled {
            return None;
        }
        if show {
            self.prev = current;
            Some(WAITING_CHAR)
        } else {
            Some(self.prev)
        }
    }
}

/// Second-precise time value.
#[derive(Debug, Clone, Copy, PartialEq, Eq, Structural)]
pub struct Time {
    /// The current year, 0-65535
    pub year: u16,
    /// The current month, 1-12
    pub month: u8,
    /// The current day of the month, 1-31
    pub day: u8,
    /// The number of hours that have passed in the day, 0-23
    pub hour: u8,
    /// The number of minutes that have passed in the hour, 0-59
    pub min: u8,
    /// The number of seconds that have passed in the minute, 0-59
    pub sec: u8,
}

/// The value of a binary coded decimal byte: `(bcd / 16) * 10 + (bcd & 0xF)`.
pub open spec fn bcd_value(bcd: u8) -> u8 {
    ((bcd / 16) * 10 + bcd % 16) as u8
}

/// Converts a binary coded decimal byte to binary.
pub fn bcd_to_bin(bcd: u8) -> (r: u8)
    ensures
        r == bcd_value(bcd),
{
    assert(bcd & 0xF == bcd % 16) by (bit_vector);
    ((bcd / 16) * 10) + (bcd & 0xF)
}

/// The hours value in binary, keeping the 12 hour time flag.
pub open spec fn bcd_hour(hour: u8) -> u8 {
    (((hour & 0x0Fu8) + ((hour & 0x70u8) / 16) * 10) as u8) | (hour & FLAG_24_HR)
}

/// The year read from the RTC: in binary, without its century.
pub open spec fn rtc_year(raw: Time, reg_b: u8) -> u16 {
    if reg_b & 4 == 0 {
        bcd_value(raw.year as u8) as u16
    } else {
        raw.year
    }
}

/// The launch time from the values `raw` read from the RTC with register B `reg_b`:
/// values in binary coded decimal mode (bit 2 of register B clear) are converted, the
/// hours value keeping its 12 hour flag; in 12 hour mode (bit 1 clear) an hours value with
/// the flag set has it cleared and is turned into 24 hour time; then the century is added
/// to the year.
pub open spec fn rtc_time(raw: Time, reg_b: u8, century: u16) -> Time {
    let bcd = reg_b & 4 == 0;
    let hour = if bcd {
        bcd_hour(raw.hour)
    } else {
        raw.hour
    };
    Time {
        year: (rtc_year(raw, reg_b) + century * 100) as u16,
        month: if bcd {
            bcd_value(raw.month)
        } else {
            raw.month
        },
        day: if bcd {
            bcd_value(raw.day)
        } else {
            raw.day
        },
        hour: if reg_b & 2 == 0 && hour & FLAG_24_HR != 0 {
            (((hour & 0b1111111u8) + 12) % 24) as u8
        } else {
            hour
        },
        min: if bcd {
            bcd_value(raw.min)
        } else {
            raw.min
        },
        sec: if bcd {
            bcd_value(raw.sec)
        } else {
            raw.sec
        },
    }
}

/// In BCD mode (bit 2 of register B clear) the seconds, minutes, day and month are each
/// the decimal value of their two BCD digits, so valid BCD seconds and minutes (below
/// `0x60`) give values below 60; in binary mode they are kept as read. The year is the
/// year of the century plus the century.
pub proof fn lemma_rtc_fields(raw: Time, reg_b: u8, century: u16)
    ensures
        reg_b & 4 == 0 ==> {
            let t = rtc_time(raw, reg_b, century);
            &&& t.sec == (raw.sec / 16) * 10 + raw.sec % 16
            &&& t.min == (raw.min / 16) * 10 + raw.min % 16
            &&& t.day == (raw.day / 16) * 10 + raw.day % 16
            &&& t.month == (raw.month / 16) * 10 + raw.month % 16
            &&& raw.sec < 0x60 && raw.sec % 16 < 10 ==> t.sec < 60
            &&& raw.min < 0x60 && raw.min % 16 < 10 ==> t.min < 60
            &&& (raw.year as u8) / 16 * 10 + (raw.year as u8) % 16 + century * 100 <= u16::MAX
                ==> t.year == (raw.year as u8) / 16 * 10 + (raw.year as u8) % 16 + century * 100
        },
        reg_b & 4 != 0 ==> {
            let t = rtc_time(raw, reg_b, century);
            &&& t.sec == raw.sec && t.min == raw.min && t.day == raw.day && t.month == raw.month
        },
{
}

impl Time {
    /// Converts the values `raw` read from the RTC, see [`rtc_time`].
    pub fn from_rtc(raw: Time, reg_b: u8, century: u16) -> (r: Time)
        requires
            rtc_year(raw, reg_b) + century * 100 <= u16::MAX,
        ensures
            r == rtc_time(raw, reg_b, century),
            reg_b & 4 == 0 ==> r.sec == (raw.sec / 16) * 10 + raw.sec % 16 && r.min == (raw.min
                / 16) * 10 + raw.min % 16 && r.day == (raw.day / 16) * 10 + raw.day % 16 && r.month
                == (raw.month / 16) * 10 + raw.month % 16,
            reg_b & 4 != 0 ==> r.sec == raw.sec && r.min == raw.min && r.day == raw.day && r.month
                == raw.month,
    {
        proof {
            lemma_rtc_fields(raw, reg_b, century);
        }
        let mut time = raw;
        let mut hour = time.hour;
        let bcd = reg_b != reg_b | 0b100;
        assert(bcd == (reg_b & 4 == 0)) by (bit_vector)
            requires
                bcd == (reg_b != reg_b | 0b100),
        ;
        if bcd {
            time.sec = bcd_to_bin(time.sec);
            time.min = bcd_to_bin(time.min);
            time.day = bcd_to_bin(time.day);
            time.month = bcd_to_bin(time.month);
            time.year = bcd_to_bin(time.year as u8) as u16;
            let h = hour;
            assert((h & 0x0Fu8) + ((h & 0x70u8) / 16) * 10 <= 255) by (bit_vector);
            hour = ((hour & 0x0F) + (((hour & 0x70) / 16) * 10)) | (hour & FLAG_24_HR);
        }
        let twelve = reg_b != reg_b | 0b10;
        assert(twelve == (reg_b & 2 == 0)) by (bit_vector)
            requires
                twelve == (reg_b != reg_b | 0b10),
        ;
        if twelve && (hour & FLAG_24_HR != 0) {
            let h = hour;
            assert(h & 0b1111111u8 <= 127) by (bit_vector);
            time.hour = ((hour & 0b1111111) + 12) % 24;
        } else {
            time.hour = hour;
        }
        time.year = time.year + century * 100;
        time
    }
}

/// Stores the launch time converted from the values `raw` read from the RTC (see
/// [`rtc_time`]) in `launch_time`, unless it already holds one, then marks the RTC sync
/// as done.
pub fn sync_time_to_rtc(
    raw: Time,
    reg_b: u8,
    century: u16,
    launch_time: &mut InitLater<Time>,
    sync_done: &mut UnsafeFlag,
)
    requires
        rtc_year(raw, reg_b) + century * 100 <= u16::MAX,
    ensures
        final(sync_done)@,
        old(launch_time).state() == UNINIT ==> final(launch_time).value() == Some(
            rtc_time(raw, reg_b, century),
        ),
        old(launch_time).state() != UNINIT ==> final(launch_time).value() == old(
            launch_time,
        ).value(),
{
    let time = Time::from_rtc(raw, reg_b, century);
    let _ = launch_time.init(time);
    sync_done.store(true);
}

/// Why waiting for the RTC sync failed.
#[derive(Debug, Clone, Copy, PartialEq, Eq, Structural)]
pub enum RtcSyncWaitError {
    /// The RTC IRQ isn't enabled.
    NoIrq,
    /// The RTC handler failed setting the launch time; the cell's state.
    NoStatic(u8),
}

/// Checks, once the RTC handler has run, that the launch time was stored: fails without
/// the RTC interrupt, or if `launch_time` holds no time.
pub fn wait_for_rtc_sync(flags: &StartupFlags, launch_time: &InitLater<Time>) -> (r: ExitCode<
    RtcSyncWaitError,
>)
    ensures
        !flags.rtc_irq_init@ ==> r == ExitCode::<RtcSyncWaitError>::Error(RtcSyncWaitError::NoIrq),
        flags.rtc_irq_init@ && launch_time.state() == INIT ==> r is Success,
        flags.rtc_irq_init@ && launch_time.state() != INIT ==> r
            == ExitCode::<RtcSyncWaitError>::Error(
            RtcSyncWaitError::NoStatic(launch_time.state()),
        ),
{
    if !flags.rtc_irq_init.load() {
        return ExitCode::Error(RtcSyncWaitError::NoIrq);
    }
    match launch_time.read() {
        Err(e) => ExitCode::Error(RtcSyncWaitError::NoStatic(e.state())),
        Ok(_) => ExitCode::Success,
    }
}

/// The hours, minutes and seconds of an uptime of `secs` seconds.
pub fn uptime(secs: u64) -> (r: (u64, u64, u64))
    ensures
        r == (secs / 3600, (secs / 60) % 60, secs % 60),
{
    (secs / 3600, (secs / 60) % 60, secs % 60)
}

} // verus!

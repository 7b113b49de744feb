//! The floppy motor's state machine: turning it on, and off a little after it's no longer
//! needed.
use vstd::prelude::*;

verus! {

/// The floppy's motor is on.
pub const MOTOR_ON: u8 = 0;

/// The floppy's motor is waiting to be turned off.
pub const MOTOR_DISABLING: u8 = 1;

/// The floppy's motor is off.
pub const MOTOR_OFF: u8 = 2;

/// Time (plus one) until the motor is disabled, in kernel ticks.
pub const DISABLE_TIMEOUT: u16 = 50;

/// The time to wait after turning the motor on, in kernel ticks.
pub const SPIN_UP_TICKS: u64 = 50;

/// What the driver has to do after a motor state change.
#[derive(Debug, Clone, Copy, PartialEq, Eq, Structural)]
pub enum MotorAction {
    /// Nothing.
    Nothing,
    /// Write the enable command to the DOR, then wait for the motor to spin up.
    SendEnable,
    /// Write the disable command to the DOR.
    SendDisable,
}

/// The command written to the DOR to turn the motor on: motor on, IRQs & DMA off, the
/// drive selected.
pub open spec fn enable_command_spec(drive_one: bool) -> u8 {
    if drive_one {
        0b10_0_1_01
    } else {
        0b01_0_1_00
    }
}

/// The command written to the DOR to turn the motor off: motor off, IRQs & DMA off, the
/// drive selected.
pub open spec fn disable_command_spec(drive_one: bool) -> u8 {
    if drive_one {
        0b00_0_1_01
    } else {
        0b00_0_1_00
    }
}

/// Returns the command which turns the motor on.
pub fn enable_command(drive_one: bool) -> (r: u8)
    ensures
        r == enable_command_spec(drive_one),
{
    if drive_one {
        0b10_0_1_01
    } else {
        0b01_0_1_00
    }
}

/// Returns the command which turns the motor off.
pub fn disable_command(drive_one: bool) -> (r: u8)
    ensures
        r == disable_command_spec(drive_one),
{
    if drive_one {
        0b00_0_1_01
    } else {
        0b00_0_1_00
    }
}

/// The motor's state and the ticks left before it's disabled.
#[derive(Debug, Clone, Copy, PartialEq, Eq, Structural)]
pub struct Motor {
    state: u8,
    time_left: u16,
}

/// The abstract state of the motor.
pub struct MotorView {
    pub state: u8,
    pub time_left: u16,
}

impl View for Motor {
    type V = MotorView;

    closed spec fn view(&self) -> MotorView {
        MotorView { state: self.state, time_left: self.time_left }
    }
}

/// The motor after a timer tick, and whether the disable command is sent: a disabling
/// motor counts down, and is turned off on the tick after its time reached zero (if the
/// controller's port is known).
pub open spec fn tick_spec(m: MotorView, dor_ready: bool) -> (MotorView, MotorAction) {
    if m.state == MOTOR_DISABLING {
        let t = if m.time_left == 0 {
            u16::MAX
        } else {
            (m.time_left - 1) as u16
        };
        if m.time_left == 0 && dor_ready {
            (MotorView { state: MOTOR_OFF, time_left: t }, MotorAction::SendDisable)
        } else {
            (MotorView { state: m.state, time_left: t }, MotorAction::Nothing)
        }
    } else {
        (m, MotorAction::Nothing)
    }
}

/// The motor after `n` timer ticks.
pub open spec fn ticks(m: MotorView, n: nat, dor_ready: bool) -> MotorView
    decreases n,
{
    if n == 0 {
        m
    } else {
        tick_spec(ticks(m, (n - 1) as nat, dor_ready), dor_ready).0
    }
}

/// A motor which was disabled stays disabling (counting down) for fifty ticks, and is off
/// after the fifty first.
pub proof fn lemma_disable_after_timeout()
    ensures
        forall|n: nat|
            n <= DISABLE_TIMEOUT ==> #[trigger] ticks(
                MotorView { state: MOTOR_DISABLING, time_left: DISABLE_TIMEOUT },
                n,
                true,
            ) == (MotorView { state: MOTOR_DISABLING, time_left: (DISABLE_TIMEOUT - n) as u16 }),
        ticks(
            MotorView { state: MOTOR_DISABLING, time_left: DISABLE_TIMEOUT },
            (DISABLE_TIMEOUT + 1) as nat,
            true,
        ).state == MOTOR_OFF,
{
    let m0 = MotorView { state: MOTOR_DISABLING, time_left: DISABLE_TIMEOUT };
    assert forall|n: nat| n <= DISABLE_TIMEOUT implies #[trigger] ticks(m0, n, true) == (MotorView {
        state: MOTOR_DISABLING,
        time_left: (DISABLE_TIMEOUT - n) as u16,
    }) by {
        lemma_ticks_counting(n);
    }
    lemma_ticks_counting(DISABLE_TIMEOUT as nat);
}

proof fn lemma_ticks_counting(n: nat)
    requires
        n <= DISABLE_TIMEOUT,
    ensures
        ticks(MotorView { state: MOTOR_DISABLING, time_left: DISABLE_TIMEOUT }, n, true) == (
        MotorView { state: MOTOR_DISABLING, time_left: (DISABLE_TIMEOUT - n) as u16 }),
    decreases n,
{
    if n > 0 {
        lemma_ticks_counting((n - 1) as nat);
    }
}

impl Motor {
    /// A motor which is off.
    pub fn new() -> (r: Self)
        ensures
            r@ == (MotorView { state: MOTOR_OFF, time_left: 0 }),
    {
        Motor { state: MOTOR_OFF, time_left: 0 }
    }

    /// Returns the motor's state.
    pub fn state(&self) -> (r: u8)
        ensures
            r == self@.state,
    {
        self.state
    }

    /// Returns the ticks left before a disabling motor is turned off.
    pub fn time_left(&self) -> (r: u16)
        ensures
            r == self@.time_left,
    {
        self.time_left
    }

    /// Enables the motor: a motor which is off has to be sent the enable command, a
    /// disabling one just stays on.
    pub fn enable_motor(&mut self) -> (r: MotorAction)
        ensures
            old(self)@.state == MOTOR_OFF ==> r == MotorAction::SendEnable && final(self)@
                == (MotorView { state: MOTOR_ON, ..old(self)@ }),
            old(self)@.state == MOTOR_DISABLING ==> r == MotorAction::Nothing && final(self)@
                == (MotorView { state: MOTOR_ON, ..old(self)@ }),
            old(self)@.state != MOTOR_OFF && old(self)@.state != MOTOR_DISABLING ==> r
                == MotorAction::Nothing && final(self)@ == old(self)@,
    {
        if self.state == MOTOR_OFF {
            self.state = MOTOR_ON;
            MotorAction::SendEnable
        } else if self.state == MOTOR_DISABLING {
            self.state = MOTOR_ON;
            MotorAction::Nothing
        } else {
            MotorAction::Nothing
        }
    }

    /// Enters the disabling state, turning the motor off after [`DISABLE_TIMEOUT`] plus one
    /// ticks.
    pub fn disable_motor(&mut self)
        ensures
            final(self)@ == (MotorView { state: MOTOR_DISABLING, time_left: DISABLE_TIMEOUT }),
    {
        self.time_left = DISABLE_TIMEOUT;
        self.state = MOTOR_DISABLING;
    }

    /// Decreases the time until the motor is disabled, called every timer tick.
    /// `dor_ready` tells whether the controller's port is known.
    pub fn decrease_motor_time(&mut self, dor_ready: bool) -> (r: MotorAction)
        ensures
            (final(self)@, r) == tick_spec(old(self)@, dor_ready),
    {
        if self.state == MOTOR_DISABLING {
            let prev = self.time_left;
            self.time_left = if prev == 0 {
                u16::MAX
            } else {
                prev - 1
            };
            if prev == 0 && dor_ready {
                self.state = MOTOR_OFF;
                return MotorAction::SendDisable;
            }
        }
        MotorAction::Nothing
    }

    /// Forcefully disables the motor on this tick.
    pub fn force_disable(&mut self, dor_ready: bool) -> (r: MotorAction)
        ensures
            (final(self)@, r) == tick_spec(
                MotorView { state: MOTOR_DISABLING, time_left: 0 },
                dor_ready,
            ),
    {
        self.state = MOTOR_DISABLING;
        self.time_left = 0;
        self.decrease_motor_time(dor_ready)
    }
}

} // verus!

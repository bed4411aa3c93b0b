//! The flag bytes and the battery reading of the status packet.

use vstd::prelude::*;

verus! {

/// The status byte of an inbound packet.
///
/// Bit 7 reports an emergency stop, bit 4 a brownout, bit 3 that the robot
/// code has started, bit 2 that the robot is enabled, and the low two bits
/// name the active mode: 0 teleoperated, 1 test, 2 autonomous. The other
/// bits have no meaning and are kept as received.
#[derive(Copy, Clone, Debug, PartialEq, Eq, Structural)]
pub struct Status(pub u8);

impl Status {
    /// The robot is stopped by an emergency stop.
    pub const ESTOP: u8 = 0b1000_0000;

    /// The battery voltage has dropped too low.
    pub const BROWNOUT: u8 = 0b0001_0000;

    /// The robot code has started.
    pub const CODE_START: u8 = 0b0000_1000;

    /// The robot is enabled.
    pub const ENABLED: u8 = 0b0000_0100;

    /// Teleoperated mode, in the two mode bits.
    pub const TELEOP: u8 = 0b00;

    /// Test mode, in the two mode bits.
    pub const TEST: u8 = 0b01;

    /// Autonomous mode, in the two mode bits.
    pub const AUTO: u8 = 0b10;

    /// Whether every bit of `mask` is set.
    pub open spec fn has(self, mask: u8) -> bool {
        self.0 & mask == mask
    }

    /// The byte as received.
    pub fn bits(self) -> (b: u8)
        ensures
            b == self.0,
    {
        self.0
    }

    /// Whether every bit of `mask` is set.
    pub fn contains(self, mask: u8) -> (r: bool)
        ensures
            r == self.has(mask),
    {
        self.0 & mask == mask
    }

    /// Whether the controller reports a brownout.
    pub fn is_browning_out(self) -> (r: bool)
        ensures
            r == self.has(Status::BROWNOUT),
    {
        self.contains(Status::BROWNOUT)
    }

    /// Whether the controller reports an emergency stop.
    pub fn emergency_stopped(self) -> (r: bool)
        ensures
            r == self.has(Status::ESTOP),
    {
        self.contains(Status::ESTOP)
    }
}

/// The trace byte of an inbound packet.
///
/// Bit 5 reports that robot code is running, bit 4 that the sender is a
/// robot controller, bit 3 test mode, bit 2 autonomous mode, bit 1
/// teleoperated mode, bit 0 that the robot is disabled. The other bits have
/// no meaning and are kept as received.
#[derive(Copy, Clone, Debug, PartialEq, Eq, Structural)]
pub struct Trace(pub u8);

impl Trace {
    /// Robot code is running.
    pub const ROBOT_CODE: u8 = 0b0010_0000;

    /// The sender is a robot controller.
    pub const IS_ROBORIO: u8 = 0b0001_0000;

    /// The robot is in test mode.
    pub const TEST_MODE: u8 = 0b0000_1000;

    /// The robot is in autonomous mode.
    pub const AUTONOMOUS: u8 = 0b0000_0100;

    /// The robot is in teleoperated mode.
    pub const TELEOP: u8 = 0b0000_0010;

    /// The robot is disabled.
    pub const DISABLED: u8 = 0b0000_0001;

    /// Whether every bit of `mask` is set.
    pub open spec fn has(self, mask: u8) -> bool {
        self.0 & mask == mask
    }

    /// The trace with no bit set.
    pub fn empty() -> (t: Trace)
        ensures
            t.0 == 0,
    {
        Trace(0)
    }

    /// The byte as received.
    pub fn bits(self) -> (b: u8)
        ensures
            b == self.0,
    {
        self.0
    }

    /// Whether every bit of `mask` is set.
    pub fn contains(self, mask: u8) -> (r: bool)
        ensures
            r == self.has(mask),
    {
        self.0 & mask == mask
    }

    /// Whether the robot is in autonomous mode.
    pub fn is_autonomous(self) -> (r: bool)
        ensures
            r == self.has(Trace::AUTONOMOUS),
    {
        self.contains(Trace::AUTONOMOUS)
    }

    /// Whether the robot is in teleoperated mode.
    pub fn is_teleop(self) -> (r: bool)
        ensures
            r == self.has(Trace::TELEOP),
    {
        self.contains(Trace::TELEOP)
    }

    /// Whether the robot is disabled.
    pub fn is_disabled(self) -> (r: bool)
        ensures
            r == self.has(Trace::DISABLED),
    {
        self.contains(Trace::DISABLED)
    }

    /// Whether the robot is in test mode.
    pub fn is_test(self) -> (r: bool)
        ensures
            r == self.has(Trace::TEST_MODE),
    {
        self.contains(Trace::TEST_MODE)
    }

    /// Whether robot code is running.
    pub fn is_code_started(self) -> (r: bool)
        ensures
            r == self.has(Trace::ROBOT_CODE),
    {
        self.contains(Trace::ROBOT_CODE)
    }

    /// Whether the sender is a robot controller.
    pub fn is_connected(self) -> (r: bool)
        ensures
            r == self.has(Trace::IS_ROBORIO),
    {
        self.contains(Trace::IS_ROBORIO)
    }
}

/// A battery voltage as the controller reports it: whole volts, and a
/// fraction in 256ths of a volt. The voltage is `whole + fraction / 256`.
#[derive(Copy, Clone, Debug, PartialEq, Eq, Structural)]
pub struct Voltage {
    pub whole: u8,
    pub fraction: u8,
}

impl Voltage {
    /// The voltage in 256ths of a volt.
    pub open spec fn spec_raw(self) -> int {
        256 * self.whole + self.fraction
    }

    /// No voltage: what is reported while nothing has been received.
    pub fn zero() -> (v: Voltage)
        ensures
            v == (Voltage { whole: 0, fraction: 0 }),
    {
        Voltage { whole: 0, fraction: 0 }
    }

    /// The voltage in 256ths of a volt.
    pub fn raw(self) -> (r: u16)
        ensures
            r == self.spec_raw(),
    {
        (self.whole as u16) * 256 + self.fraction as u16
    }
}

} // verus!

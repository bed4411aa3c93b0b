//! The single-byte fields of the control packet.

pub mod tags;

use vstd::prelude::*;

verus! {

/// The control byte of an outbound packet.
///
/// Bit 7 is the emergency-stop latch, bit 3 says that a field-management
/// system is connected, bit 2 enables the robot, and the low two bits name
/// the mode: 0 teleoperated, 1 test, 2 autonomous.
#[derive(Copy, Clone, Debug, PartialEq, Eq, Structural)]
pub struct Control(pub u8);

impl Control {
    /// The emergency-stop latch.
    pub const ESTOP: u8 = 0b1000_0000;

    /// A field-management system is connected.
    pub const FMS_CONNECTED: u8 = 0b0000_1000;

    /// The robot is enabled.
    pub const ENABLED: u8 = 0b0000_0100;

    /// Teleoperated mode, in the two mode bits.
    pub const TELEOP: u8 = 0b00;

    /// Test mode, in the two mode bits.
    pub const TEST: u8 = 0b01;

    /// Autonomous mode, in the two mode bits.
    pub const AUTO: u8 = 0b10;

    /// The mask of the two mode bits.
    pub const MODE_MASK: u8 = 0b11;

    /// Whether every bit of `mask` is set.
    pub open spec fn has(self, mask: u8) -> bool {
        self.0 & mask == mask
    }

    /// The value of the two mode bits.
    pub open spec fn mode_bits(self) -> u8 {
        self.0 & Control::MODE_MASK
    }

    /// The byte as it goes on the wire.
    pub fn bits(self) -> (b: u8)
        ensures
            b == self.0,
    {
        self.0
    }

    /// Whether every bit of `mask` is set.
    pub fn contains(self, mask: u8) -> (r: bool)
        ensures
            r == self.has(mask),
    {
        self.0 & mask == mask
    }
}

/// The request byte of an outbound packet: bit 3 asks the controller to
/// reboot, bit 2 asks it to restart the robot code.
#[derive(Copy, Clone, Debug, PartialEq, Eq, Structural)]
pub struct Request(pub u8);

impl Request {
    /// Reboot the controller.
    pub const REBOOT_ROBORIO: u8 = 0b0000_1000;

    /// Restart the robot code.
    pub const RESTART_CODE: u8 = 0b0000_0100;

    /// The request to restart the robot code.
    pub fn restart_code() -> (r: Request)
        ensures
            r.0 == Request::RESTART_CODE,
    {
        Request(Request::RESTART_CODE)
    }

    /// The request to reboot the controller.
    pub fn reboot_roborio() -> (r: Request)
        ensures
            r.0 == Request::REBOOT_ROBORIO,
    {
        Request(Request::REBOOT_ROBORIO)
    }

    /// Whether every bit of `mask` is set.
    pub open spec fn has(self, mask: u8) -> bool {
        self.0 & mask == mask
    }

    /// The byte as it goes on the wire.
    pub fn bits(self) -> (b: u8)
        ensures
            b == self.0,
    {
        self.0
    }

    /// Whether every bit of `mask` is set.
    pub fn contains(self, mask: u8) -> (r: bool)
        ensures
            r == self.has(mask),
    {
        self.0 & mask == mask
    }
}

/// Alliance colour and station position, as the single byte sent on the
/// wire: 0 to 2 are red stations 1 to 3, 3 to 5 are blue stations 1 to 3.
#[derive(Copy, Clone, Debug, PartialEq, Eq, Structural)]
pub struct Alliance(pub u8);

impl Alliance {
    /// Whether the byte names a red station.
    pub open spec fn red(self) -> bool {
        self.0 < 3
    }

    /// The station position that the byte names, from 1 to 3.
    pub open spec fn station(self) -> int {
        self.0 % 3 + 1
    }

    /// Station `position` on the red alliance.
    pub fn new_red(position: u8) -> (a: Alliance)
        requires
            1 <= position <= 3,
        ensures
            a.0 == position - 1,
            a.red(),
            a.station() == position,
    {
        Alliance(position - 1)
    }

    /// Station `position` on the blue alliance.
    pub fn new_blue(position: u8) -> (a: Alliance)
        requires
            1 <= position <= 3,
        ensures
            a.0 == position + 2,
            !a.red(),
            a.station() == position,
    {
        Alliance(position + 2)
    }

    /// Whether `self` is on the red alliance.
    pub fn is_red(self) -> (r: bool)
        ensures
            r == self.red(),
    {
        self.0 < 3
    }

    /// Whether `self` is on the blue alliance, that is, not on the red one.
    pub fn is_blue(self) -> (r: bool)
        ensures
            r == !self.red(),
    {
        !self.is_red()
    }

    /// The station position of `self`, from 1 to 3.
    pub fn position(self) -> (p: u8)
        ensures
            p == self.station(),
    {
        (self.0 % 3) + 1
    }
}

} // verus!

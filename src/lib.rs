//! Client side of a robot control protocol: the codecs for the two incoming
//! and two outgoing streams, the derivation of the robot's lifecycle state
//! from status bits, and the session state that the receive loop updates.
use vstd::prelude::*;

pub mod incoming_tcp;
pub mod incoming_udp;
pub mod outgoing_tcp;
pub mod outgoing_udp;
pub mod session;
pub mod utils;
pub mod wire;

verus! {

/// Failures that the protocol engine reports.
#[derive(Clone, Copy, Debug, PartialEq, Eq, Structural)]
pub enum Error {
    /// A tag of a fixed layout did not have that layout (wrong size, a
    /// length field reaching past the tag, a sentinel that did not match).
    MalformedTag,
    /// The mode field of a status byte named no single mode.
    ModeConflict,
    /// The tag has no defined encoding yet.
    Unsupported,
    /// A frame would not fit the field that carries its length.
    TooLong,
}

/// The controller's belief about the robot.
#[derive(Clone, Copy, Debug, PartialEq, Eq, Structural)]
pub enum RobotStatus {
    NoCommunication,
    NoRobotCode,
    EStopped,
    BrownedOut,
    Disabled,
    Enabled,
}

/// The mode that the robot code runs in.
#[derive(Clone, Copy, Debug, PartialEq, Eq, Structural)]
pub enum RobotCodeMode {
    Autonomous,
    Teleop,
    Test,
}

/// The position and alliance of the driver station.
///
/// Position can be `1`, `2`, or `3`.
#[derive(Clone, Copy, Debug, PartialEq, Eq, Structural)]
pub enum AlliancePos {
    Red(u8),
    Blue(u8),
}

impl AlliancePos {
    /// The station number lies in `1..=3`.
    pub open spec fn wf(self) -> bool {
        match self {
            AlliancePos::Red(p) => 1 <= p <= 3,
            AlliancePos::Blue(p) => 1 <= p <= 3,
        }
    }

    /// The wire byte: `0 + station - 1` for red, `3 + station - 1` for blue.
    pub open spec fn spec_wire(self) -> u8 {
        match self {
            AlliancePos::Red(p) => (p - 1) as u8,
            AlliancePos::Blue(p) => (3 + p - 1) as u8,
        }
    }

    pub fn to_pos(self) -> (r: u8)
        requires
            self.wf(),
        ensures
            r == self.spec_wire(),
            r < 6,
    {
        match self {
            AlliancePos::Red(pos) => pos - 1,
            AlliancePos::Blue(pos) => 3 + pos - 1,
        }
    }
}

} // verus!

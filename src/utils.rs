//! Deriving the robot's state from status bits, and the robot's address.
use crate::incoming_udp::{
    Status, Trace, MODE_AUTO, MODE_MASK, MODE_TELEOP, MODE_TEST, STATUS_BROWNOUT,
    STATUS_ENABLED, STATUS_ESTOP, TRACE_ROBOT_CODE,
};
use crate::{RobotCodeMode, RobotStatus};
use vstd::prelude::*;

verus! {

/// The mode field of a status byte names exactly one mode.
pub open spec fn mode_field_valid(status: u8) -> bool {
    status & MODE_MASK != 0b11
}

/// The mode that a status byte names.
pub open spec fn spec_mode(status: u8) -> RobotCodeMode {
    if status & MODE_MASK == MODE_TELEOP {
        RobotCodeMode::Teleop
    } else if status & MODE_MASK == MODE_AUTO {
        RobotCodeMode::Autonomous
    } else {
        RobotCodeMode::Test
    }
}

/// The lifecycle state, by precedence: no robot code, then e-stop, then
/// brownout, then enabled or disabled.
pub open spec fn spec_lifecycle(status: u8, trace: u8) -> RobotStatus {
    if trace & TRACE_ROBOT_CODE == 0 {
        RobotStatus::NoRobotCode
    } else if status & STATUS_ESTOP != 0 {
        RobotStatus::EStopped
    } else if status & STATUS_BROWNOUT != 0 {
        RobotStatus::BrownedOut
    } else if status & STATUS_ENABLED != 0 {
        RobotStatus::Enabled
    } else {
        RobotStatus::Disabled
    }
}

/// Derives the lifecycle state and the mode from one datagram's status and
/// trace bits. The mode field must name a single mode.
pub fn find_status(status: Status, trace: Trace) -> (r: (RobotStatus, RobotCodeMode))
    requires
        mode_field_valid(status.bits),
    ensures
        r == (spec_lifecycle(status.bits, trace.bits), spec_mode(status.bits)),
{
    let mode = if status.is_in_teleop() {
        RobotCodeMode::Teleop
    } else if status.is_in_auto() {
        RobotCodeMode::Autonomous
    } else {
        proof {
            let b = status.bits;
            assert(b & 3 != 3 && b & 3 != 0 && b & 3 != 2 ==> b & 3 == 1) by (bit_vector);
        }
        RobotCodeMode::Test
    };
    if !trace.has_robot_code() {
        return (RobotStatus::NoRobotCode, mode);
    }
    if status.is_estopped() {
        return (RobotStatus::EStopped, mode);
    }
    if status.is_browned_out() {
        return (RobotStatus::BrownedOut, mode);
    }
    if status.is_enabled() {
        (RobotStatus::Enabled, mode)
    } else {
        (RobotStatus::Disabled, mode)
    }
}

/// Derivation is total on valid status bytes and follows its precedence:
/// missing robot code outranks everything, e-stop outranks brownout, and both
/// outrank the enabled bit; the mode depends on the mode field alone.
pub proof fn lemma_status_precedence(status: u8, trace: u8)
    requires
        mode_field_valid(status),
    ensures
        (trace & TRACE_ROBOT_CODE == 0) ==> spec_lifecycle(status, trace) == RobotStatus::NoRobotCode,
        (trace & TRACE_ROBOT_CODE != 0 && status & STATUS_ESTOP != 0) ==> spec_lifecycle(status, trace)
            == RobotStatus::EStopped,
        (trace & TRACE_ROBOT_CODE != 0 && status & STATUS_ESTOP == 0 && status & STATUS_BROWNOUT
            != 0) ==> spec_lifecycle(status, trace) == RobotStatus::BrownedOut,
        (trace & TRACE_ROBOT_CODE != 0 && status & (STATUS_ESTOP | STATUS_BROWNOUT) == 0) ==> (
        spec_lifecycle(status, trace) == if status & STATUS_ENABLED != 0 {
            RobotStatus::Enabled
        } else {
            RobotStatus::Disabled
        }),
        spec_lifecycle(status, trace) != RobotStatus::NoCommunication,
        (status & MODE_MASK == MODE_TELEOP) <==> spec_mode(status) == RobotCodeMode::Teleop,
        (status & MODE_MASK == MODE_AUTO) <==> spec_mode(status) == RobotCodeMode::Autonomous,
        (status & MODE_MASK == MODE_TEST) <==> spec_mode(status) == RobotCodeMode::Test,
{
    assert(status & (0x80u8 | 0x10u8) == 0 ==> status & 0x80 == 0 && status & 0x10 == 0)
        by (bit_vector);
    assert(status & 3 != 3 && status & 3 != 0 && status & 3 != 2 ==> status & 3 == 1)
        by (bit_vector);
}

/// The robot's address for a team number: `10.TE.AM.2`, where `TE` is the
/// number over 100 and `AM` the rest; teams above 25599 have none.
pub fn gen_team_ip(team_number: u16) -> (r: Option<[u8; 4]>)
    ensures
        team_number > 25_599 ==> r is None,
        team_number <= 25_599 ==> r == Some(
            [10u8, (team_number / 100) as u8, (team_number % 100) as u8, 2u8],
        ),
{
    if team_number > 25_599 {
        None
    } else {
        Some([10, (team_number / 100) as u8, (team_number % 100) as u8, 2])
    }
}

} // verus!

//! The session state that the receive loop keeps and the commands read.
use crate::incoming_udp::{udp_datagram_ok, udp_tags, UdpIncomingPacket, UdpIncomingTag};
use crate::utils::{find_status, mode_field_valid, spec_lifecycle, spec_mode};
use crate::{AlliancePos, Error, RobotCodeMode, RobotStatus};
use vstd::prelude::*;

verus! {

/// What the controller knows of the robot. Each field has its own source:
/// status bits, the CAN metrics tag, the battery field, the user.
#[derive(Clone, Copy, Debug, PartialEq, Eq, Structural)]
pub struct SessionState {
    pub status: RobotStatus,
    pub mode: RobotCodeMode,
    /// Bit pattern of the `f32` CAN bus utilization, in percent.
    pub can_bus_util: u32,
    /// Sum of the two battery bytes of the last datagram; volts times 256.
    pub battery: u16,
    pub alliance_pos: AlliancePos,
}

/// The state after the tags `tags` were handled in order, from `s`.
pub open spec fn spec_apply_tags(s: SessionState, tags: Seq<UdpIncomingTag>) -> SessionState
    decreases tags.len(),
{
    if tags.len() == 0 {
        s
    } else {
        spec_apply_tag(spec_apply_tags(s, tags.drop_last()), tags.last())
    }
}

/// The state after one tag was handled: a CAN metrics tag sets the CAN bus
/// utilization, and no other tag changes anything.
pub open spec fn spec_apply_tag(s: SessionState, tag: UdpIncomingTag) -> SessionState {
    match tag {
        UdpIncomingTag::CanMetrics(m) => SessionState { can_bus_util: m.utilization, ..s },
        _ => s,
    }
}

impl SessionState {
    pub open spec fn wf(&self) -> bool {
        self.alliance_pos.wf()
    }

    /// The state before any datagram arrived.
    pub fn new() -> (r: Self)
        ensures
            r.wf(),
            r.status == RobotStatus::NoCommunication,
            r.mode == RobotCodeMode::Teleop,
            r.can_bus_util == 0,
            r.battery == 0,
            r.alliance_pos == AlliancePos::Red(1),
    {
        SessionState {
            status: RobotStatus::NoCommunication,
            mode: RobotCodeMode::Teleop,
            can_bus_util: 0,
            battery: 0,
            alliance_pos: AlliancePos::Red(1),
        }
    }

    /// Sets the lifecycle state, as a user command does.
    pub fn set_status(&mut self, status: RobotStatus)
        ensures
            *final(self) == (SessionState { status, ..*old(self) }),
    {
        self.status = status;
    }

    /// Sets the alliance position.
    pub fn set_alliance_pos(&mut self, pos: AlliancePos)
        requires
            pos.wf(),
        ensures
            *final(self) == (SessionState { alliance_pos: pos, ..*old(self) }),
            final(self).wf(),
    {
        self.alliance_pos = pos;
    }

    /// Handles one tag of a status datagram.
    pub fn apply_udp_tag(&mut self, tag: &UdpIncomingTag)
        ensures
            *final(self) == spec_apply_tag(*old(self), *tag),
    {
        match tag {
            UdpIncomingTag::CanMetrics(m) => {
                self.can_bus_util = m.utilization;
            },
            _ => {},
        }
    }

    /// Takes in one status datagram: the lifecycle state and the mode come
    /// from its bits, the battery from its battery field, then its tags are
    /// handled in order. A datagram whose mode field names no single mode
    /// is refused and changes nothing.
    pub fn apply_udp_packet(&mut self, pkt: &UdpIncomingPacket) -> (r: Result<(), Error>)
        ensures
            mode_field_valid(pkt.status.bits) ==> r is Ok && *final(self) == spec_apply_tags(
                SessionState {
                    status: spec_lifecycle(pkt.status.bits, pkt.trace.bits),
                    mode: spec_mode(pkt.status.bits),
                    battery: pkt.battery,
                    ..*old(self)
                },
                pkt.tags@,
            ),
            !mode_field_valid(pkt.status.bits) ==> r == Err::<(), Error>(Error::ModeConflict)
                && *final(self) == *old(self),
    {
        if pkt.status.bits & 0b11 == 0b11 {
            return Err(Error::ModeConflict);
        }
        let (status, mode) = find_status(pkt.status, pkt.trace);
        self.status = status;
        self.mode = mode;
        self.battery = pkt.battery;
        let ghost start = *self;
        let mut i: usize = 0;
        while i < pkt.tags.len()
            invariant
                i <= pkt.tags@.len(),
                *self == spec_apply_tags(start, pkt.tags@.subrange(0, i as int)),
            decreases pkt.tags@.len() - i,
        {
            self.apply_udp_tag(&pkt.tags[i]);
            proof {
                assert(pkt.tags@.subrange(0, i + 1).drop_last() =~= pkt.tags@.subrange(0, i as int));
            }
            i = i + 1;
        }
        proof {
            assert(pkt.tags@.subrange(0, pkt.tags@.len() as int) =~= pkt.tags@);
        }
        Ok(())
    }
}

/// A buffer of eight bytes or fewer holds no datagram. One of nine bytes
/// whose last byte declares no tag holds one datagram without tags, so
/// taking it in changes no field that tags set.
pub proof fn lemma_header_only_datagram(b: Seq<u8>, s: SessionState)
    ensures
        b.len() <= 8 ==> !udp_datagram_ok(b, 0),
        (b.len() == 9 && b[8] == 0) ==> udp_datagram_ok(b, 0) && udp_tags(b, 8) == Some(
            Seq::<UdpIncomingTag>::empty(),
        ) && spec_apply_tags(s, Seq::<UdpIncomingTag>::empty()) == s,
{
    if b.len() == 9 && b[8] == 0 {
        assert(udp_tags(b, 9) == Some(Seq::<UdpIncomingTag>::empty()));
    }
}

} // verus!

//! The control packet that the controller sends over UDP: a six byte header
//! followed by `[length][tag id][length - 1 bytes]` tag blocks.
use crate::session::SessionState;
use crate::utils::{mode_field_valid, spec_mode};
use crate::wire::push_bytes;
use crate::{AlliancePos, Error, RobotCodeMode, RobotStatus};
use vstd::prelude::*;
use vstd::utf8::encode_utf8;

verus! {

/// Control bits of an outgoing packet.
#[derive(Clone, Copy, Debug, PartialEq, Eq, Structural)]
pub struct Control {
    pub bits: u8,
}

pub const CONTROL_ESTOP: u8 = 0b1000_0000;
pub const CONTROL_FMS_CONNECTED: u8 = 0b0000_1000;
pub const CONTROL_ENABLED: u8 = 0b0000_0100;
pub const CONTROL_TELEOP: u8 = 0b00;
pub const CONTROL_AUTO: u8 = 0b10;
pub const CONTROL_TEST: u8 = 0b01;

/// Request bits of an outgoing packet.
#[derive(Clone, Copy, Debug, PartialEq, Eq, Structural)]
pub struct Request {
    pub bits: u8,
}

pub const REQUEST_REBOOT_RIO: u8 = 0b0000_1000;
pub const REQUEST_RESTART_CODE: u8 = 0b0000_0100;

/// The e-stop and enabled bits for a lifecycle state: e-stopped sets only
/// the first, enabled only the second, every other state neither.
pub open spec fn spec_state_bits(status: RobotStatus) -> u8 {
    match status {
        RobotStatus::EStopped => CONTROL_ESTOP,
        RobotStatus::Enabled => CONTROL_ENABLED,
        _ => 0,
    }
}

/// The mode field for an operating mode.
pub open spec fn spec_mode_bits(mode: RobotCodeMode) -> u8 {
    match mode {
        RobotCodeMode::Teleop => CONTROL_TELEOP,
        RobotCodeMode::Autonomous => CONTROL_AUTO,
        RobotCodeMode::Test => CONTROL_TEST,
    }
}

/// The control byte for a lifecycle state and a mode.
pub open spec fn spec_control_bits(status: RobotStatus, mode: RobotCodeMode) -> u8 {
    spec_state_bits(status) | spec_mode_bits(mode)
}

impl Control {
    pub fn from_state(status: RobotStatus, mode: RobotCodeMode) -> (r: Self)
        ensures
            r.bits == spec_control_bits(status, mode),
    {
        let state: u8 = match status {
            RobotStatus::EStopped => CONTROL_ESTOP,
            RobotStatus::Enabled => CONTROL_ENABLED,
            _ => 0,
        };
        let m: u8 = match mode {
            RobotCodeMode::Teleop => CONTROL_TELEOP,
            RobotCodeMode::Autonomous => CONTROL_AUTO,
            RobotCodeMode::Test => CONTROL_TEST,
        };
        Control { bits: state | m }
    }

    pub fn bits(&self) -> (r: u8)
        ensures
            r == self.bits,
    {
        self.bits
    }
}

/// A tag block of an outgoing packet.
#[derive(Clone, Debug)]
pub enum UdpOutgoingTag {
    /// `countdown` is the bit pattern of an `f32` number of seconds.
    Countdown { countdown: u32 },
    Joystick { axes: Vec<i8>, buttons: Vec<bool>, povs: Vec<i16> },
    Date { microseconds: u32, second: u8, minute: u8, hour: u8, day: u8, month: u8, year: u8 },
    Timezone { timezone: String },
}

pub const UDP_OUT_TAG_COUNTDOWN: u8 = 0x07;
pub const UDP_OUT_TAG_JOYSTICK: u8 = 0x0C;
pub const UDP_OUT_TAG_DATE: u8 = 0x0F;
pub const UDP_OUT_TAG_TIMEZONE: u8 = 0x10;

/// The big-endian bytes of a `u32`.
pub open spec fn be_bytes_u32(x: u32) -> Seq<u8> {
    seq![(x / 0x100_0000) as u8, (x / 0x1_0000 % 0x100) as u8, (x / 0x100 % 0x100) as u8, (x % 0x100) as u8]
}

/// The big-endian bytes of an `i16`, in two's complement.
pub open spec fn be_bytes_i16(x: i16) -> Seq<u8> {
    seq![((#[verifier::truncate] (x as u16)) / 0x100) as u8, ((#[verifier::truncate] (x as u16)) % 0x100) as u8]
}

/// The bytes of a list of axis values, each as its two's complement byte.
pub open spec fn axis_bytes(axes: Seq<i8>) -> Seq<u8> {
    axes.map_values(|a: i8| #[verifier::truncate] (a as u8))
}

/// The bytes of a list of hat positions, two big-endian bytes each.
pub open spec fn pov_bytes(povs: Seq<i16>) -> Seq<u8>
    decreases povs.len(),
{
    if povs.len() == 0 {
        seq![]
    } else {
        pov_bytes(povs.drop_last()) + be_bytes_i16(povs.last())
    }
}

/// Weight of one button in its byte.
pub open spec fn bit_weight(pressed: bool, weight: int) -> int {
    if pressed {
        weight
    } else {
        0
    }
}

/// The eight buttons from `b[i]` on, packed into one byte, the first in the
/// most significant bit.
pub open spec fn pack8(b: Seq<bool>, i: int) -> u8 {
    (bit_weight(b[i], 0x80) + bit_weight(b[i + 1], 0x40) + bit_weight(b[i + 2], 0x20)
        + bit_weight(b[i + 3], 0x10) + bit_weight(b[i + 4], 0x08) + bit_weight(b[i + 5], 0x04)
        + bit_weight(b[i + 6], 0x02) + bit_weight(b[i + 7], 0x01)) as u8
}

/// The first `n` whole chunks of eight buttons, one byte each.
pub open spec fn packed_buttons(b: Seq<bool>, n: int) -> Seq<u8>
    decreases n,
{
    if n <= 0 {
        seq![]
    } else {
        packed_buttons(b, n - 1).push(pack8(b, 8 * (n - 1)))
    }
}

/// The byte that precedes the packed buttons: the number of whole chunks,
/// plus one for any buttons at all.
pub open spec fn button_count_byte(len: int) -> int {
    len / 8 + if len == 0 {
        0int
    } else {
        1int
    }
}

/// The payload of a joystick tag.
pub open spec fn joystick_payload(axes: Seq<i8>, buttons: Seq<bool>, povs: Seq<i16>) -> Seq<u8> {
    seq![axes.len() as u8] + axis_bytes(axes) + seq![button_count_byte(buttons.len() as int) as u8]
        + packed_buttons(buttons, buttons.len() as int / 8) + seq![povs.len() as u8] + pov_bytes(povs)
}

impl UdpOutgoingTag {
    pub open spec fn spec_id(&self) -> u8 {
        match self {
            UdpOutgoingTag::Countdown { .. } => UDP_OUT_TAG_COUNTDOWN,
            UdpOutgoingTag::Joystick { .. } => UDP_OUT_TAG_JOYSTICK,
            UdpOutgoingTag::Date { .. } => UDP_OUT_TAG_DATE,
            UdpOutgoingTag::Timezone { .. } => UDP_OUT_TAG_TIMEZONE,
        }
    }

    /// The payload bytes of the tag. The date tag has no payload yet.
    pub open spec fn spec_payload(&self) -> Seq<u8> {
        match self {
            UdpOutgoingTag::Countdown { countdown } => be_bytes_u32(*countdown),
            UdpOutgoingTag::Joystick { axes, buttons, povs } => joystick_payload(
                axes@,
                buttons@,
                povs@,
            ),
            UdpOutgoingTag::Date { .. } => seq![],
            UdpOutgoingTag::Timezone { timezone } => encode_utf8(timezone@),
        }
    }

    /// Every count in the tag fits its byte.
    pub open spec fn counts_fit(&self) -> bool {
        match self {
            UdpOutgoingTag::Joystick { axes, buttons, povs } => axes@.len() <= 0xFF
                && button_count_byte(buttons@.len() as int) <= 0xFF && povs@.len() <= 0xFF,
            _ => true,
        }
    }

    /// Every count in the tag fits its byte, and the whole block fits its
    /// length byte.
    pub open spec fn fits(&self) -> bool {
        &&& self.counts_fit()
        &&& self.spec_payload().len() + 1 <= 0xFF
    }

    pub fn id(&self) -> (r: u8)
        ensures
            r == self.spec_id(),
    {
        match self {
            UdpOutgoingTag::Countdown { .. } => UDP_OUT_TAG_COUNTDOWN,
            UdpOutgoingTag::Joystick { .. } => UDP_OUT_TAG_JOYSTICK,
            UdpOutgoingTag::Date { .. } => UDP_OUT_TAG_DATE,
            UdpOutgoingTag::Timezone { .. } => UDP_OUT_TAG_TIMEZONE,
        }
    }

    /// Encodes the payload of the tag; a count that does not fit its byte is
    /// refused.
    pub fn write(&self) -> (r: Result<Vec<u8>, Error>)
        ensures
            self.counts_fit() ==> (r matches Ok(v) && v@ == self.spec_payload()),
            !self.counts_fit() ==> r == Err::<Vec<u8>, Error>(Error::TooLong),
    {
        match self {
            UdpOutgoingTag::Countdown { countdown } => {
                let c = *countdown;
                let mut v: Vec<u8> = Vec::new();
                v.push((c / 0x100_0000) as u8);
                v.push((c / 0x1_0000 % 0x100) as u8);
                v.push((c / 0x100 % 0x100) as u8);
                v.push((c % 0x100) as u8);
                proof {
                    assert(v@ =~= be_bytes_u32(c));
                }
                Ok(v)
            },
            UdpOutgoingTag::Joystick { axes, buttons, povs } => {
                if axes.len() > 0xFF || povs.len() > 0xFF || buttons.len() / 8 > 0xFE {
                    return Err(Error::TooLong);
                }
                Ok(write_joystick(axes, buttons, povs))
            },
            UdpOutgoingTag::Date { .. } => Ok(Vec::new()),
            UdpOutgoingTag::Timezone { timezone } => {
                let mut v: Vec<u8> = Vec::new();
                push_bytes(&mut v, timezone.as_str().as_bytes());
                proof {
                    assert(v@ =~= encode_utf8(timezone@));
                }
                Ok(v)
            },
        }
    }
}

/// Packs the eight buttons from `b[i]` on into one byte.
fn pack_byte(b: &[bool], i: usize) -> (r: u8)
    requires
        i + 8 <= b.len(),
    ensures
        r == pack8(b@, i as int),
{
    let mut r: u8 = 0;
    if b[i] {
        r = r + 0x80;
    }
    if b[i + 1] {
        r = r + 0x40;
    }
    if b[i + 2] {
        r = r + 0x20;
    }
    if b[i + 3] {
        r = r + 0x10;
    }
    if b[i + 4] {
        r = r + 0x08;
    }
    if b[i + 5] {
        r = r + 0x04;
    }
    if b[i + 6] {
        r = r + 0x02;
    }
    if b[i + 7] {
        r = r + 0x01;
    }
    r
}

fn write_joystick(axes: &Vec<i8>, buttons: &Vec<bool>, povs: &Vec<i16>) -> (r: Vec<u8>)
    requires
        axes@.len() <= 0xFF,
        povs@.len() <= 0xFF,
        buttons@.len() / 8 <= 0xFE,
    ensures
        r@ == joystick_payload(axes@, buttons@, povs@),
{
    let mut v: Vec<u8> = Vec::new();
    v.push(axes.len() as u8);
    let mut i: usize = 0;
    while i < axes.len()
        invariant
            i <= axes@.len(),
            v@ == seq![axes@.len() as u8] + axis_bytes(axes@.subrange(0, i as int)),
        decreases axes@.len() - i,
    {
        v.push(#[verifier::truncate] (axes[i] as u8));
        proof {
            assert(axis_bytes(axes@.subrange(0, i + 1)) =~= axis_bytes(
                axes@.subrange(0, i as int),
            ).push(#[verifier::truncate] (axes@[i as int] as u8)));
        }
        i = i + 1;
    }
    proof {
        assert(axes@.subrange(0, axes@.len() as int) =~= axes@);
    }
    let prefix = Ghost(v@);
    let blen = buttons.len();
    let chunks = blen / 8;
    let count: u8 = if buttons.len() == 0 {
        0
    } else {
        (chunks + 1) as u8
    };
    v.push(count);
    let mut k: usize = 0;
    while k < chunks
        invariant
            blen == buttons@.len(),
            chunks == blen / 8,
            k <= chunks,
            v@ == prefix@ + seq![count] + packed_buttons(buttons@, k as int),
        decreases chunks - k,
    {
        proof {
            assert(8 * k + 8 <= buttons@.len()) by (nonlinear_arith)
                requires
                    k < chunks,
                    chunks == buttons@.len() / 8,
            ;
        }
        v.push(pack_byte(buttons.as_slice(), 8 * k));
        k = k + 1;
    }
    let prefix2 = Ghost(v@);
    v.push(povs.len() as u8);
    let mut j: usize = 0;
    while j < povs.len()
        invariant
            j <= povs@.len(),
            v@ == prefix2@ + seq![povs@.len() as u8] + pov_bytes(povs@.subrange(0, j as int)),
        decreases povs@.len() - j,
    {
        let p = #[verifier::truncate] (povs[j] as u16);
        v.push((p / 0x100) as u8);
        v.push((p % 0x100) as u8);
        proof {
            let s = povs@.subrange(0, j + 1);
            assert(s.drop_last() =~= povs@.subrange(0, j as int));
        }
        j = j + 1;
    }
    proof {
        assert(povs@.subrange(0, povs@.len() as int) =~= povs@);
        assert(v@ =~= joystick_payload(axes@, buttons@, povs@));
    }
    v
}

/// The block of one tag: its length (id included), its id, its payload.
pub open spec fn tag_frame(t: UdpOutgoingTag) -> Seq<u8> {
    seq![(t.spec_payload().len() + 1) as u8, t.spec_id()] + t.spec_payload()
}

/// The blocks of a list of tags, in order.
pub open spec fn tag_frames(ts: Seq<UdpOutgoingTag>) -> Seq<u8>
    decreases ts.len(),
{
    if ts.len() == 0 {
        seq![]
    } else {
        tag_frames(ts.drop_last()) + tag_frame(ts.last())
    }
}

pub const COMM_VERSION: u8 = 0x01;

/// An outgoing control packet.
#[derive(Clone, Debug)]
pub struct UdpOutgoingPacket {
    pub seqnum: u16,
    pub comm_version: u8,
    pub control: Control,
    pub req: Request,
    pub alliance: AlliancePos,
    pub tags: Vec<UdpOutgoingTag>,
}

impl UdpOutgoingPacket {
    /// The six header bytes.
    pub open spec fn spec_header(&self) -> Seq<u8> {
        seq![
            (self.seqnum / 0x100) as u8,
            (self.seqnum % 0x100) as u8,
            self.comm_version,
            self.control.bits,
            self.req.bits,
            self.alliance.spec_wire(),
        ]
    }

    /// The bytes of the packet.
    pub open spec fn spec_bytes(&self) -> Seq<u8> {
        self.spec_header() + tag_frames(self.tags@)
    }

    /// The packet for the current session state: sequence number zero, no
    /// request and no tags.
    pub fn build(state: &SessionState) -> (r: Self)
        requires
            state.wf(),
        ensures
            r.seqnum == 0,
            r.comm_version == COMM_VERSION,
            r.control.bits == spec_control_bits(state.status, state.mode),
            r.req.bits == 0,
            r.alliance == state.alliance_pos,
            r.alliance.wf(),
            r.tags@.len() == 0,
    {
        UdpOutgoingPacket {
            seqnum: 0,
            comm_version: COMM_VERSION,
            control: Control::from_state(state.status, state.mode),
            req: Request { bits: 0 },
            alliance: state.alliance_pos,
            tags: Vec::new(),
        }
    }

    /// Asks the robot to reboot its controller.
    pub fn reboot_rio(&mut self)
        ensures
            final(self).req.bits == REQUEST_REBOOT_RIO,
            final(self).seqnum == old(self).seqnum,
            final(self).comm_version == old(self).comm_version,
            final(self).control == old(self).control,
            final(self).alliance == old(self).alliance,
            final(self).tags@ == old(self).tags@,
    {
        self.req = Request { bits: REQUEST_REBOOT_RIO };
    }

    /// Asks the robot to restart its code.
    pub fn restart_code(&mut self)
        ensures
            final(self).req.bits == REQUEST_RESTART_CODE,
            final(self).seqnum == old(self).seqnum,
            final(self).comm_version == old(self).comm_version,
            final(self).control == old(self).control,
            final(self).alliance == old(self).alliance,
            final(self).tags@ == old(self).tags@,
    {
        self.req = Request { bits: REQUEST_RESTART_CODE };
    }

    /// Encodes the packet; a tag that does not fit its block is refused.
    pub fn write(&self) -> (r: Result<Vec<u8>, Error>)
        requires
            self.alliance.wf(),
        ensures
            (forall|i: int| 0 <= i < self.tags@.len() ==> #[trigger] self.tags@[i].fits()) ==> (r matches Ok(
                v,
            ) && v@ == self.spec_bytes()),
            !(forall|i: int| 0 <= i < self.tags@.len() ==> #[trigger] self.tags@[i].fits()) ==> r
                == Err::<Vec<u8>, Error>(Error::TooLong),
    {
        let mut buf: Vec<u8> = Vec::new();
        buf.push((self.seqnum / 0x100) as u8);
        buf.push((self.seqnum % 0x100) as u8);
        buf.push(self.comm_version);
        buf.push(self.control.bits);
        buf.push(self.req.bits);
        buf.push(self.alliance.to_pos());
        proof {
            assert(buf@ =~= self.spec_header() + tag_frames(self.tags@.subrange(0, 0)));
        }
        let mut i: usize = 0;
        while i < self.tags.len()
            invariant
                i <= self.tags@.len(),
                forall|j: int| 0 <= j < i ==> #[trigger] self.tags@[j].fits(),
                buf@ == self.spec_header() + tag_frames(self.tags@.subrange(0, i as int)),
            decreases self.tags@.len() - i,
        {
            let tag = &self.tags[i];
            let payload = match tag.write() {
                Ok(v) => v,
                Err(e) => {
                    proof {
                        assert(!self.tags@[i as int].fits());
                    }
                    return Err(e);
                },
            };
            if payload.len() >= 0xFF {
                proof {
                    assert(!self.tags@[i as int].fits());
                }
                return Err(Error::TooLong);
            }
            buf.push((payload.len() + 1) as u8);
            buf.push(tag.id());
            push_bytes(&mut buf, payload.as_slice());
            proof {
                let s = self.tags@.subrange(0, i + 1);
                assert(s.drop_last() =~= self.tags@.subrange(0, i as int));
                assert(buf@ =~= self.spec_header() + tag_frames(s));
            }
            i = i + 1;
        }
        proof {
            assert(self.tags@.subrange(0, self.tags@.len() as int) =~= self.tags@);
        }
        Ok(buf)
    }
}

/// Decoding the control byte of a packet gives back what it was built from:
/// the e-stop bit is set exactly for an e-stopped robot, the enabled bit
/// exactly for an enabled one, and the mode field names the mode. Every
/// other lifecycle state, disabled and no communication among them, gives
/// the same byte as disabled: the wire does not tell them apart.
pub proof fn lemma_control_round_trip(status: RobotStatus, mode: RobotCodeMode)
    ensures
        (spec_control_bits(status, mode) & CONTROL_ESTOP != 0) == (status == RobotStatus::EStopped),
        (spec_control_bits(status, mode) & CONTROL_ENABLED != 0) == (status == RobotStatus::Enabled),
        mode_field_valid(spec_control_bits(status, mode)),
        spec_mode(spec_control_bits(status, mode)) == mode,
        (status != RobotStatus::EStopped && status != RobotStatus::Enabled) ==> spec_control_bits(
            status,
            mode,
        ) == spec_control_bits(RobotStatus::Disabled, mode),
{
    let h = spec_state_bits(status);
    let m = spec_mode_bits(mode);
    assert((h == 0 || h == 0x80 || h == 4) && m < 3 ==> (((h | m) & 0x80 != 0) == (h == 0x80)
        && ((h | m) & 4 != 0) == (h == 4) && (h | m) & 3 == m)) by (bit_vector);
}

} // verus!

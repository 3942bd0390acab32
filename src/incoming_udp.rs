//! The status datagram that the robot sends over UDP: an eight byte header
//! followed by `[length][tag id][length - 1 bytes]` tag blocks.
use crate::wire::{be_u16, be_u32, le_u32, read_be_u16, read_be_u32, read_le_u32};
use vstd::prelude::*;

verus! {

/// Status bits of an incoming datagram.
#[derive(Clone, Copy, Debug, PartialEq, Eq, Structural)]
pub struct Status {
    pub bits: u8,
}

pub const STATUS_ESTOP: u8 = 0b1000_0000;
pub const STATUS_BROWNOUT: u8 = 0b0001_0000;
pub const STATUS_CODE_START: u8 = 0b0000_1000;
pub const STATUS_ENABLED: u8 = 0b0000_0100;
/// The two low bits hold the mode: teleop `00`, test `01`, autonomous `10`.
pub const MODE_MASK: u8 = 0b11;
pub const MODE_TELEOP: u8 = 0b00;
pub const MODE_TEST: u8 = 0b01;
pub const MODE_AUTO: u8 = 0b10;

impl Status {
    pub fn from_bits_retain(bits: u8) -> (r: Self)
        ensures
            r.bits == bits,
    {
        Status { bits }
    }

    pub fn bits(&self) -> (r: u8)
        ensures
            r == self.bits,
    {
        self.bits
    }

    pub open spec fn spec_mode_field(self) -> u8 {
        self.bits & MODE_MASK
    }

    pub fn is_enabled(&self) -> (r: bool)
        ensures
            r == (self.bits & STATUS_ENABLED != 0),
    {
        self.bits & STATUS_ENABLED != 0
    }

    pub fn is_browned_out(self) -> (r: bool)
        ensures
            r == (self.bits & STATUS_BROWNOUT != 0),
    {
        self.bits & STATUS_BROWNOUT != 0
    }

    pub fn is_estopped(self) -> (r: bool)
        ensures
            r == (self.bits & STATUS_ESTOP != 0),
    {
        self.bits & STATUS_ESTOP != 0
    }

    pub fn is_in_teleop(&self) -> (r: bool)
        ensures
            r == (self.spec_mode_field() == MODE_TELEOP),
    {
        self.bits & MODE_MASK == MODE_TELEOP
    }

    pub fn is_in_auto(&self) -> (r: bool)
        ensures
            r == (self.spec_mode_field() == MODE_AUTO),
    {
        self.bits & MODE_MASK == MODE_AUTO
    }

    pub fn is_in_test(&self) -> (r: bool)
        ensures
            r == (self.spec_mode_field() == MODE_TEST),
    {
        self.bits & MODE_MASK == MODE_TEST
    }
}

/// Trace bits of an incoming datagram: what the robot code reports doing.
#[derive(Clone, Copy, Debug, PartialEq, Eq, Structural)]
pub struct Trace {
    pub bits: u8,
}

pub const TRACE_ROBOT_CODE: u8 = 0b0010_0000;
pub const TRACE_IS_ROBORIO: u8 = 0b0001_0000;
pub const TRACE_TEST_MODE: u8 = 0b0000_1000;
pub const TRACE_AUTONOMOUS: u8 = 0b0000_0100;
pub const TRACE_TELEOP: u8 = 0b0000_0010;
pub const TRACE_DISABLED: u8 = 0b0000_0001;

impl Trace {
    pub fn from_bits_retain(bits: u8) -> (r: Self)
        ensures
            r.bits == bits,
    {
        Trace { bits }
    }

    pub fn bits(&self) -> (r: u8)
        ensures
            r == self.bits,
    {
        self.bits
    }

    pub fn has_robot_code(&self) -> (r: bool)
        ensures
            r == (self.bits & TRACE_ROBOT_CODE != 0),
    {
        self.bits & TRACE_ROBOT_CODE != 0
    }
}

/// Echo of the joystick outputs that the robot code set.
#[derive(Clone, Copy, Debug, PartialEq, Eq, Structural)]
pub struct JoystickOutput {
    pub outputs: u32,
    pub left_rumble: u16,
    pub right_rumble: u16,
}

impl JoystickOutput {
    pub open spec fn spec_parse(b: Seq<u8>, at: int) -> JoystickOutput {
        JoystickOutput {
            outputs: le_u32(b, at),
            left_rumble: be_u16(b, at + 4),
            right_rumble: be_u16(b, at + 6),
        }
    }

    pub fn parse(buf: &[u8], at: usize) -> (r: Self)
        requires
            at + 8 <= buf.len(),
        ensures
            r == Self::spec_parse(buf@, at as int),
    {
        JoystickOutput {
            outputs: read_le_u32(buf, at),
            left_rumble: read_be_u16(buf, at + 4),
            right_rumble: read_be_u16(buf, at + 6),
        }
    }
}

/// CPU load figures; each is the bit pattern of a big-endian `f32`.
#[derive(Clone, Copy, Debug, PartialEq, Eq, Structural)]
pub struct CpuInfo {
    pub num_of_cpus: u32,
    pub cpu_time_critical: u32,
    pub cpu_above_normal: u32,
    pub cpu_normal: u32,
    pub cpu_low: u32,
}

impl CpuInfo {
    pub open spec fn spec_parse(b: Seq<u8>, at: int) -> CpuInfo {
        CpuInfo {
            num_of_cpus: be_u32(b, at),
            cpu_time_critical: be_u32(b, at + 4),
            cpu_above_normal: be_u32(b, at + 8),
            cpu_normal: be_u32(b, at + 12),
            cpu_low: be_u32(b, at + 16),
        }
    }

    pub fn parse(buf: &[u8], at: usize) -> (r: Self)
        requires
            at + 20 <= buf.len(),
        ensures
            r == Self::spec_parse(buf@, at as int),
    {
        CpuInfo {
            num_of_cpus: read_be_u32(buf, at),
            cpu_time_critical: read_be_u32(buf, at + 4),
            cpu_above_normal: read_be_u32(buf, at + 8),
            cpu_normal: read_be_u32(buf, at + 12),
            cpu_low: read_be_u32(buf, at + 16),
        }
    }
}

/// RAM figures.
#[derive(Clone, Copy, Debug, PartialEq, Eq, Structural)]
pub struct RamInfo {
    pub block: u32,
    pub free_space: u32,
}

impl RamInfo {
    pub open spec fn spec_parse(b: Seq<u8>, at: int) -> RamInfo {
        RamInfo { block: be_u32(b, at), free_space: be_u32(b, at + 4) }
    }

    pub fn parse(buf: &[u8], at: usize) -> (r: Self)
        requires
            at + 8 <= buf.len(),
        ensures
            r == Self::spec_parse(buf@, at as int),
    {
        RamInfo { block: read_be_u32(buf, at), free_space: read_be_u32(buf, at + 4) }
    }
}

/// CAN bus figures; `utilization` is the bit pattern of a big-endian `f32`
/// percentage.
#[derive(Clone, Copy, Debug, PartialEq, Eq, Structural)]
pub struct CanMetrics {
    pub utilization: u32,
    pub bus_off: u32,
    pub tx_full: u32,
    pub rx_errors: u8,
    pub tx_errors: u8,
}

impl CanMetrics {
    pub open spec fn spec_parse(b: Seq<u8>, at: int) -> CanMetrics {
        CanMetrics {
            utilization: be_u32(b, at),
            bus_off: be_u32(b, at + 4),
            tx_full: be_u32(b, at + 8),
            rx_errors: b[at + 12],
            tx_errors: b[at + 13],
        }
    }

    pub fn parse(buf: &[u8], at: usize) -> (r: Self)
        requires
            at + 14 <= buf.len(),
        ensures
            r == Self::spec_parse(buf@, at as int),
    {
        CanMetrics {
            utilization: read_be_u32(buf, at),
            bus_off: read_be_u32(buf, at + 4),
            tx_full: read_be_u32(buf, at + 8),
            rx_errors: buf[at + 12],
            tx_errors: buf[at + 13],
        }
    }
}

/// A recognised tag block of an incoming datagram.
#[derive(Clone, Copy, Debug, PartialEq, Eq, Structural)]
pub enum UdpIncomingTag {
    JoystickOutput(JoystickOutput),
    DiskSpace(u32),
    CpuInfo(CpuInfo),
    RamInfo(RamInfo),
    PdpLog,
    Unclassified,
    CanMetrics(CanMetrics),
}

pub const TAG_JOYSTICK_OUTPUT: u8 = 0x01;
pub const TAG_DISK_SPACE: u8 = 0x04;
pub const TAG_CPU_INFO: u8 = 0x05;
pub const TAG_RAM_INFO: u8 = 0x06;
pub const TAG_PDP_LOG: u8 = 0x08;
pub const TAG_UNCLASSIFIED: u8 = 0x09;
pub const TAG_CAN_METRICS: u8 = 0x0E;

/// Whether a block of `size` bytes (id included) has the size that its id
/// demands. Ids that are not recognised may have any size.
pub open spec fn udp_tag_size_ok(id: u8, size: int) -> bool {
    if id == TAG_JOYSTICK_OUTPUT {
        size == 1 || size == 9
    } else if id == TAG_DISK_SPACE {
        size == 5
    } else if id == TAG_CPU_INFO {
        size == 21
    } else if id == TAG_RAM_INFO {
        size == 9
    } else if id == TAG_PDP_LOG {
        size == 26
    } else if id == TAG_UNCLASSIFIED {
        size == 10
    } else if id == TAG_CAN_METRICS {
        size == 15
    } else {
        true
    }
}

/// The record of a block with the given id and size whose payload starts at
/// `at`; `None` for a block that carries nothing recognised.
pub open spec fn udp_tag_value(b: Seq<u8>, at: int, id: u8, size: int) -> Option<UdpIncomingTag> {
    if id == TAG_JOYSTICK_OUTPUT {
        if size == 1 {
            None
        } else {
            Some(UdpIncomingTag::JoystickOutput(JoystickOutput::spec_parse(b, at)))
        }
    } else if id == TAG_DISK_SPACE {
        Some(UdpIncomingTag::DiskSpace(be_u32(b, at)))
    } else if id == TAG_CPU_INFO {
        Some(UdpIncomingTag::CpuInfo(CpuInfo::spec_parse(b, at)))
    } else if id == TAG_RAM_INFO {
        Some(UdpIncomingTag::RamInfo(RamInfo::spec_parse(b, at)))
    } else if id == TAG_PDP_LOG {
        Some(UdpIncomingTag::PdpLog)
    } else if id == TAG_UNCLASSIFIED {
        Some(UdpIncomingTag::Unclassified)
    } else if id == TAG_CAN_METRICS {
        Some(UdpIncomingTag::CanMetrics(CanMetrics::spec_parse(b, at)))
    } else {
        None
    }
}

/// The tags of the blocks from `p` to the end of `b`, or `None` where a
/// block reaches past the end or has the wrong size for its id. A length
/// byte of zero is an empty block without an id.
pub open spec fn udp_tags(b: Seq<u8>, p: int) -> Option<Seq<UdpIncomingTag>>
    decreases b.len() - p,
{
    if p < 0 || p >= b.len() {
        Some(seq![])
    } else {
        let size = b[p] as int;
        if p + 1 + size > b.len() {
            None
        } else if size == 0 {
            udp_tags(b, p + 1)
        } else if !udp_tag_size_ok(b[p + 1], size) {
            None
        } else {
            match udp_tags(b, p + 1 + size) {
                None => None,
                Some(rest) => match udp_tag_value(b, p + 2, b[p + 1], size) {
                    Some(t) => Some(seq![t] + rest),
                    None => Some(rest),
                },
            }
        }
    }
}

/// Number of header bytes before the first tag block.
pub const UDP_HEADER_LEN: usize = 8;

/// Whether the bytes of `b` from `p` on hold one whole datagram.
pub open spec fn udp_datagram_ok(b: Seq<u8>, p: int) -> bool {
    b.len() - p >= 9 && udp_tags(b, p + 8) is Some
}

/// One parsed status datagram.
#[derive(Clone, Debug)]
pub struct UdpIncomingPacket {
    pub seqnum: u16,
    pub comm_version: u8,
    pub status: Status,
    pub trace: Trace,
    /// The sum of the two battery bytes; the voltage is this over 256.
    pub battery: u16,
    pub need_date: bool,
    pub tags: Vec<UdpIncomingTag>,
}

impl UdpIncomingPacket {
    /// This record is the datagram that starts at `p` in `b`.
    pub open spec fn parsed_from(&self, b: Seq<u8>, p: int) -> bool {
        &&& udp_datagram_ok(b, p)
        &&& self.seqnum == be_u16(b, p)
        &&& self.comm_version == b[p + 2]
        &&& self.status.bits == b[p + 3]
        &&& self.trace.bits == b[p + 4]
        &&& self.battery == b[p + 5] as u16 + b[p + 6] as u16
        &&& self.need_date == (b[p + 7] == 1)
        &&& udp_tags(b, p + 8) == Some(self.tags@)
    }
}

/// Parses the tag blocks from `start` to the end of `buf`.
fn parse_udp_tags(buf: &[u8], start: usize) -> (r: Option<Vec<UdpIncomingTag>>)
    requires
        start <= buf.len(),
    ensures
        match r {
            Some(v) => udp_tags(buf@, start as int) == Some(v@),
            None => udp_tags(buf@, start as int) is None,
        },
{
    let len = buf.len();
    let mut pos: usize = start;
    let mut acc: Vec<UdpIncomingTag> = Vec::new();
    while pos < len
        invariant
            len == buf@.len(),
            start <= pos <= len,
            udp_tags(buf@, start as int) == match udp_tags(buf@, pos as int) {
                None => None,
                Some(rest) => Some(acc@ + rest),
            },
        decreases len - pos,
    {
        let size = buf[pos] as usize;
        if size > len - pos - 1 {
            return None;
        }
        if size == 0 {
            pos = pos + 1;
            continue;
        }
        let id = buf[pos + 1];
        let at = pos + 2;
        let item: Option<UdpIncomingTag>;
        if id == TAG_JOYSTICK_OUTPUT {
            if size == 1 {
                item = None;
            } else if size == 9 {
                item = Some(UdpIncomingTag::JoystickOutput(JoystickOutput::parse(buf, at)));
            } else {
                return None;
            }
        } else if id == TAG_DISK_SPACE {
            if size != 5 {
                return None;
            }
            item = Some(UdpIncomingTag::DiskSpace(read_be_u32(buf, at)));
        } else if id == TAG_CPU_INFO {
            if size != 21 {
                return None;
            }
            item = Some(UdpIncomingTag::CpuInfo(CpuInfo::parse(buf, at)));
        } else if id == TAG_RAM_INFO {
            if size != 9 {
                return None;
            }
            item = Some(UdpIncomingTag::RamInfo(RamInfo::parse(buf, at)));
        } else if id == TAG_PDP_LOG {
            if size != 26 {
                return None;
            }
            item = Some(UdpIncomingTag::PdpLog);
        } else if id == TAG_UNCLASSIFIED {
            if size != 10 {
                return None;
            }
            item = Some(UdpIncomingTag::Unclassified);
        } else if id == TAG_CAN_METRICS {
            if size != 15 {
                return None;
            }
            item = Some(UdpIncomingTag::CanMetrics(CanMetrics::parse(buf, at)));
        } else {
            item = None;
        }
        proof {
            assert(item == udp_tag_value(buf@, at as int, id, size as int));
        }
        match item {
            Some(t) => {
                proof {
                    match udp_tags(buf@, pos + 1 + size) {
                        None => {},
                        Some(rest) => {
                            assert(acc@ + (seq![t] + rest) == acc@.push(t) + rest);
                        },
                    }
                }
                acc.push(t);
            },
            None => {},
        }
        pos = pos + 1 + size;
    }
    proof {
        assert(acc@ + seq![] == acc@);
    }
    Some(acc)
}

/// A cursor over one UDP buffer that yields the datagrams in it.
pub struct UdpIncomingStream {
    buf: Vec<u8>,
    pos: usize,
}

impl View for UdpIncomingStream {
    /// The buffer and the cursor.
    type V = (Seq<u8>, int);

    closed spec fn view(&self) -> (Seq<u8>, int) {
        (self.buf@, self.pos as int)
    }
}

impl UdpIncomingStream {
    pub closed spec fn wf(&self) -> bool {
        self.pos <= self.buf@.len()
    }

    pub fn new(buf: &[u8]) -> (r: Self)
        ensures
            r.wf(),
            r@ == (buf@, 0int),
    {
        let mut v: Vec<u8> = Vec::new();
        let mut i: usize = 0;
        while i < buf.len()
            invariant
                i <= buf.len(),
                v@ == buf@.subrange(0, i as int),
            decreases buf@.len() - i,
        {
            v.push(buf[i]);
            i = i + 1;
        }
        proof {
            assert(v@ =~= buf@);
        }
        UdpIncomingStream { buf: v, pos: 0 }
    }

    /// Yields the datagram at the cursor, if the rest of the buffer holds a
    /// whole one, and moves the cursor to the end of the buffer.
    pub fn next(&mut self) -> (r: Option<UdpIncomingPacket>)
        requires
            old(self).wf(),
        ensures
            final(self).wf(),
            final(self)@ == (old(self)@.0, old(self)@.0.len() as int),
            match r {
                Some(pkt) => pkt.parsed_from(old(self)@.0, old(self)@.1),
                None => !udp_datagram_ok(old(self)@.0, old(self)@.1),
            },
    {
        let len = self.buf.len();
        let p = self.pos;
        self.pos = len;
        if len - p < 9 {
            return None;
        }
        let b = self.buf.as_slice();
        let tags = match parse_udp_tags(b, p + UDP_HEADER_LEN) {
            Some(t) => t,
            None => return None,
        };
        Some(
            UdpIncomingPacket {
                seqnum: read_be_u16(b, p),
                comm_version: b[p + 2],
                status: Status::from_bits_retain(b[p + 3]),
                trace: Trace::from_bits_retain(b[p + 4]),
                battery: b[p + 5] as u16 + b[p + 6] as u16,
                need_date: b[p + 7] == 1,
                tags,
            },
        )
    }

    /// Parses the one datagram that `buf` must hold.
    pub fn parse_one(buf: &[u8]) -> (r: UdpIncomingPacket)
        requires
            udp_datagram_ok(buf@, 0),
        ensures
            r.parsed_from(buf@, 0),
    {
        let mut s = Self::new(buf);
        match s.next() {
            Some(pkt) => pkt,
            None => {
                proof {
                    assert(false);
                }
                UdpIncomingPacket {
                    seqnum: 0,
                    comm_version: 0,
                    status: Status { bits: 0 },
                    trace: Trace { bits: 0 },
                    battery: 0,
                    need_date: false,
                    tags: Vec::new(),
                }
            },
        }
    }
}

/// Parsing depends on the bytes alone: two datagrams parsed from the same
/// bytes at the same place agree in every field, tags included.
pub proof fn lemma_udp_parse_deterministic(
    b: Seq<u8>,
    p: int,
    x: UdpIncomingPacket,
    y: UdpIncomingPacket,
)
    requires
        x.parsed_from(b, p),
        y.parsed_from(b, p),
    ensures
        x.seqnum == y.seqnum,
        x.comm_version == y.comm_version,
        x.status == y.status,
        x.trace == y.trace,
        x.battery == y.battery,
        x.need_date == y.need_date,
        x.tags@ == y.tags@,
{
}

} // verus!

//! The event stream that the robot sends over TCP: tags framed as
//! `[2-byte big-endian length][tag id][length - 1 bytes]`.
use crate::wire::{be_u16, be_u32, read_be_u16, read_be_u32};
use crate::Error;
use vstd::prelude::*;
use vstd::slice::slice_subrange;
use vstd::utf8::{decode_utf8, valid_utf8};

verus! {

/// Counters of the faults that disabled the robot.
#[derive(Clone, Copy, Debug, PartialEq, Eq, Structural)]
pub struct DisableFaults {
    pub comms: u16,
    pub pwr12v: u16,
}

impl DisableFaults {
    pub open spec fn spec_parse(b: Seq<u8>, at: int) -> DisableFaults {
        DisableFaults { comms: be_u16(b, at), pwr12v: be_u16(b, at + 2) }
    }

    pub fn parse(buf: &[u8], at: usize) -> (r: Self)
        requires
            at + 4 <= buf.len(),
        ensures
            r == Self::spec_parse(buf@, at as int),
    {
        DisableFaults { comms: read_be_u16(buf, at), pwr12v: read_be_u16(buf, at + 2) }
    }
}

/// Counters of the faults on the 6 V, 5 V and 3.3 V rails.
#[derive(Clone, Copy, Debug, PartialEq, Eq, Structural)]
pub struct RailFaults {
    pub pwr6v: u16,
    pub pwr5v: u16,
    pub pwr3_3v: u16,
}

impl RailFaults {
    pub open spec fn spec_parse(b: Seq<u8>, at: int) -> RailFaults {
        RailFaults { pwr6v: be_u16(b, at), pwr5v: be_u16(b, at + 2), pwr3_3v: be_u16(b, at + 4) }
    }

    pub fn parse(buf: &[u8], at: usize) -> (r: Self)
        requires
            at + 6 <= buf.len(),
        ensures
            r == Self::spec_parse(buf@, at as int),
    {
        RailFaults {
            pwr6v: read_be_u16(buf, at),
            pwr5v: read_be_u16(buf, at + 2),
            pwr3_3v: read_be_u16(buf, at + 4),
        }
    }
}

/// The text that `b[lo..hi]` encodes, or the empty text where those bytes
/// are not valid UTF-8.
pub open spec fn text_of(b: Seq<u8>, lo: int, hi: int) -> Seq<char> {
    let s = b.subrange(lo, hi);
    if valid_utf8(s) {
        decode_utf8(s)
    } else {
        seq![]
    }
}

/// Relies on `core::str::from_utf8`: it succeeds exactly on valid UTF-8, and
/// the text it gives is what the bytes encode.
#[verifier::external_body]
fn decode_text(b: &[u8]) -> (r: Option<String>)
    ensures
        r is Some <==> valid_utf8(b@),
        r matches Some(s) ==> s@ == decode_utf8(b@),
{
    match core::str::from_utf8(b) {
        Ok(s) => Some(s.to_string()),
        Err(_) => None,
    }
}

/// The text in `buf[lo..hi]`, degraded to the empty text where it is not
/// valid UTF-8.
pub fn read_text(buf: &[u8], lo: usize, hi: usize) -> (r: String)
    requires
        lo <= hi <= buf.len(),
    ensures
        r@ == text_of(buf@, lo as int, hi as int),
{
    match decode_text(slice_subrange(buf, lo, hi)) {
        Some(s) => s,
        None => String::new(),
    }
}

/// Version of one component of the robot.
#[derive(Clone, Debug)]
pub struct VersionInfo {
    pub ty: u8,
    pub id: u8,
    pub name: String,
    pub version: String,
}

/// Flags of an error message.
#[derive(Clone, Copy, Debug, PartialEq, Eq, Structural)]
pub struct ErrorMsgFlags {
    pub bits: u8,
}

pub const ERROR_FLAG_ERROR: u8 = 0b0000_0001;
pub const ERROR_FLAG_IS_LV_CODE: u8 = 0b0000_0010;

/// An error or warning that the robot code raised.
#[derive(Clone, Debug)]
pub struct ErrorMessage {
    /// Bit pattern of the big-endian `f32` timestamp.
    pub timestamp: u32,
    pub seqnum: u16,
    pub error_code: i32,
    pub flags: ErrorMsgFlags,
    pub details: String,
    pub location: String,
    pub call_stack: String,
}

/// A line that the robot code printed.
#[derive(Clone, Debug)]
pub struct Stdout {
    /// Bit pattern of the big-endian `f32` timestamp.
    pub timestamp: u32,
    pub seqnum: u16,
    pub message: String,
}

/// One tag of the incoming event stream.
#[derive(Clone, Debug)]
pub enum TcpIncomingTag {
    RadioEvent(String),
    UsageReport,
    DisableFaults(DisableFaults),
    RailFaults(RailFaults),
    VersionInfo(VersionInfo),
    ErrorMessage(ErrorMessage),
    Stdout(Stdout),
    Dummy,
}

/// What a tag holds, with its texts as character sequences.
pub enum TcpTagView {
    RadioEvent(Seq<char>),
    UsageReport,
    DisableFaults(DisableFaults),
    RailFaults(RailFaults),
    VersionInfo { ty: u8, id: u8, name: Seq<char>, version: Seq<char> },
    ErrorMessage {
        timestamp: u32,
        seqnum: u16,
        error_code: i32,
        flags: u8,
        details: Seq<char>,
        location: Seq<char>,
        call_stack: Seq<char>,
    },
    Stdout { timestamp: u32, seqnum: u16, message: Seq<char> },
    Dummy,
}

impl View for TcpIncomingTag {
    type V = TcpTagView;

    open spec fn view(&self) -> TcpTagView {
        match self {
            TcpIncomingTag::RadioEvent(s) => TcpTagView::RadioEvent(s@),
            TcpIncomingTag::UsageReport => TcpTagView::UsageReport,
            TcpIncomingTag::DisableFaults(f) => TcpTagView::DisableFaults(*f),
            TcpIncomingTag::RailFaults(f) => TcpTagView::RailFaults(*f),
            TcpIncomingTag::VersionInfo(v) => TcpTagView::VersionInfo {
                ty: v.ty,
                id: v.id,
                name: v.name@,
                version: v.version@,
            },
            TcpIncomingTag::ErrorMessage(e) => TcpTagView::ErrorMessage {
                timestamp: e.timestamp,
                seqnum: e.seqnum,
                error_code: e.error_code,
                flags: e.flags.bits,
                details: e.details@,
                location: e.location@,
                call_stack: e.call_stack@,
            },
            TcpIncomingTag::Stdout(s) => TcpTagView::Stdout {
                timestamp: s.timestamp,
                seqnum: s.seqnum,
                message: s.message@,
            },
            TcpIncomingTag::Dummy => TcpTagView::Dummy,
        }
    }
}

pub const TCP_TAG_RADIO_EVENT: u8 = 0x00;
pub const TCP_TAG_USAGE_REPORT: u8 = 0x01;
pub const TCP_TAG_DISABLE_FAULTS: u8 = 0x04;
pub const TCP_TAG_RAIL_FAULTS: u8 = 0x05;
pub const TCP_TAG_VERSION_INFO: u8 = 0x0A;
pub const TCP_TAG_ERROR_MESSAGE: u8 = 0x0B;
pub const TCP_TAG_STDOUT: u8 = 0x0C;
pub const TCP_TAG_DUMMY: u8 = 0x0D;

/// The payload that a tag of id `0x0D` must carry.
pub open spec fn dummy_payload() -> Seq<u8> {
    seq![0x00u8, 0x00, 0x04, 0x04, 0x04, 0x04]
}

/// The version info tag whose payload is `b[q..q + n]`.
pub open spec fn spec_version_info(b: Seq<u8>, q: int, n: int) -> Result<TcpTagView, Error> {
    if n < 6 {
        Err(Error::MalformedTag)
    } else {
        let nl = b[q + 4] as int;
        if 6 + nl > n {
            Err(Error::MalformedTag)
        } else {
            let vl = b[q + 5 + nl] as int;
            if 6 + nl + vl > n {
                Err(Error::MalformedTag)
            } else {
                Ok(
                    TcpTagView::VersionInfo {
                        ty: b[q],
                        id: b[q + 3],
                        name: text_of(b, q + 5, q + 5 + nl),
                        version: text_of(b, q + 6 + nl, q + 6 + nl + vl),
                    },
                )
            }
        }
    }
}

/// The error message tag whose payload is `b[q..q + n]`.
pub open spec fn spec_error_message(b: Seq<u8>, q: int, n: int) -> Result<TcpTagView, Error> {
    if n < 15 {
        Err(Error::MalformedTag)
    } else {
        let dl = be_u16(b, q + 13) as int;
        if 17 + dl > n {
            Err(Error::MalformedTag)
        } else {
            let ll = be_u16(b, q + 15 + dl) as int;
            if 19 + dl + ll > n {
                Err(Error::MalformedTag)
            } else {
                let cl = be_u16(b, q + 17 + dl + ll) as int;
                if 19 + dl + ll + cl > n {
                    Err(Error::MalformedTag)
                } else {
                    Ok(
                        TcpTagView::ErrorMessage {
                            timestamp: be_u32(b, q),
                            seqnum: be_u16(b, q + 4),
                            error_code: be_u32(b, q + 8) as i32,
                            flags: if b[q + 12] & !(ERROR_FLAG_ERROR | ERROR_FLAG_IS_LV_CODE)
                                == 0 {
                                b[q + 12]
                            } else {
                                0
                            },
                            details: text_of(b, q + 15, q + 15 + dl),
                            location: text_of(b, q + 17 + dl, q + 17 + dl + ll),
                            call_stack: text_of(b, q + 19 + dl + ll, q + 19 + dl + ll + cl),
                        },
                    )
                }
            }
        }
    }
}

/// The tag with id `id` whose payload is `b[q..q + n]`; `None` for an id
/// that is not recognised, which ends the stream.
pub open spec fn spec_tcp_tag(b: Seq<u8>, id: u8, q: int, n: int) -> Option<
    Result<TcpTagView, Error>,
> {
    if id == TCP_TAG_RADIO_EVENT {
        Some(Ok(TcpTagView::RadioEvent(text_of(b, q, q + n))))
    } else if id == TCP_TAG_USAGE_REPORT {
        Some(Ok(TcpTagView::UsageReport))
    } else if id == TCP_TAG_DISABLE_FAULTS {
        Some(
            if n == 4 {
                Ok(TcpTagView::DisableFaults(DisableFaults::spec_parse(b, q)))
            } else {
                Err(Error::MalformedTag)
            },
        )
    } else if id == TCP_TAG_RAIL_FAULTS {
        Some(
            if n == 6 {
                Ok(TcpTagView::RailFaults(RailFaults::spec_parse(b, q)))
            } else {
                Err(Error::MalformedTag)
            },
        )
    } else if id == TCP_TAG_VERSION_INFO {
        Some(spec_version_info(b, q, n))
    } else if id == TCP_TAG_ERROR_MESSAGE {
        Some(spec_error_message(b, q, n))
    } else if id == TCP_TAG_STDOUT {
        Some(
            if n >= 6 {
                Ok(
                    TcpTagView::Stdout {
                        timestamp: be_u32(b, q),
                        seqnum: be_u16(b, q + 4),
                        message: text_of(b, q + 6, q + n),
                    },
                )
            } else {
                Err(Error::MalformedTag)
            },
        )
    } else if id == TCP_TAG_DUMMY {
        Some(
            if b.subrange(q, q + n) == dummy_payload() {
                Ok(TcpTagView::Dummy)
            } else {
                Err(Error::MalformedTag)
            },
        )
    } else {
        None
    }
}

/// What the stream yields at `p`: `None` where fewer than two bytes remain,
/// the length is zero, the frame reaches past the end, or the id is not
/// recognised; otherwise the tag or the reason it breaks its layout.
pub open spec fn spec_tcp_next(b: Seq<u8>, p: int) -> Option<Result<TcpTagView, Error>> {
    if b.len() - p < 2 {
        None
    } else {
        let size = be_u16(b, p) as int;
        if size == 0 || p + 2 + size > b.len() {
            None
        } else {
            spec_tcp_tag(b, b[p + 2], p + 3, size - 1)
        }
    }
}

/// Where the cursor stands after the stream yielded a tag at `p`.
pub open spec fn spec_tcp_after(b: Seq<u8>, p: int) -> int {
    match spec_tcp_next(b, p) {
        Some(Ok(_)) => p + 2 + be_u16(b, p) as int,
        _ => b.len() as int,
    }
}

impl VersionInfo {
    /// Parses a version info payload `buf[q..q + n]`.
    pub fn parse(buf: &[u8], q: usize, n: usize) -> (r: Result<TcpIncomingTag, Error>)
        requires
            q + n <= buf.len(),
        ensures
            r matches Ok(t) ==> spec_version_info(buf@, q as int, n as int) == Ok::<
                TcpTagView,
                Error,
            >(t@),
            r matches Err(e) ==> spec_version_info(buf@, q as int, n as int) == Err::<
                TcpTagView,
                Error,
            >(e),
    {
        if n < 6 {
            return Err(Error::MalformedTag);
        }
        let nl = buf[q + 4] as usize;
        if 6 + nl > n {
            return Err(Error::MalformedTag);
        }
        let vl = buf[q + 5 + nl] as usize;
        if 6 + nl + vl > n {
            return Err(Error::MalformedTag);
        }
        Ok(
            TcpIncomingTag::VersionInfo(
                VersionInfo {
                    ty: buf[q],
                    id: buf[q + 3],
                    name: read_text(buf, q + 5, q + 5 + nl),
                    version: read_text(buf, q + 6 + nl, q + 6 + nl + vl),
                },
            ),
        )
    }
}

impl ErrorMsgFlags {
    /// The flags of a flag byte, or none where it holds an unknown bit.
    pub fn from_bits_or_empty(bits: u8) -> (r: Self)
        ensures
            r.bits == if bits & !(ERROR_FLAG_ERROR | ERROR_FLAG_IS_LV_CODE) == 0 {
                bits
            } else {
                0
            },
    {
        if bits & !(ERROR_FLAG_ERROR | ERROR_FLAG_IS_LV_CODE) == 0 {
            ErrorMsgFlags { bits }
        } else {
            ErrorMsgFlags { bits: 0 }
        }
    }

    pub fn is_error(&self) -> (r: bool)
        ensures
            r == (self.bits & ERROR_FLAG_ERROR != 0),
    {
        self.bits & ERROR_FLAG_ERROR != 0
    }
}

impl ErrorMessage {
    /// Parses an error message payload `buf[q..q + n]`.
    pub fn parse(buf: &[u8], q: usize, n: usize) -> (r: Result<TcpIncomingTag, Error>)
        requires
            q + n <= buf.len(),
        ensures
            r matches Ok(t) ==> spec_error_message(buf@, q as int, n as int) == Ok::<
                TcpTagView,
                Error,
            >(t@),
            r matches Err(e) ==> spec_error_message(buf@, q as int, n as int) == Err::<
                TcpTagView,
                Error,
            >(e),
    {
        if n < 15 {
            return Err(Error::MalformedTag);
        }
        let dl = read_be_u16(buf, q + 13) as usize;
        if 17 + dl > n {
            return Err(Error::MalformedTag);
        }
        let ll = read_be_u16(buf, q + 15 + dl) as usize;
        if 19 + dl + ll > n {
            return Err(Error::MalformedTag);
        }
        let cl = read_be_u16(buf, q + 17 + dl + ll) as usize;
        if 19 + dl + ll + cl > n {
            return Err(Error::MalformedTag);
        }
        Ok(
            TcpIncomingTag::ErrorMessage(
                ErrorMessage {
                    timestamp: read_be_u32(buf, q),
                    seqnum: read_be_u16(buf, q + 4),
                    error_code: read_be_u32(buf, q + 8) as i32,
                    flags: ErrorMsgFlags::from_bits_or_empty(buf[q + 12]),
                    details: read_text(buf, q + 15, q + 15 + dl),
                    location: read_text(buf, q + 17 + dl, q + 17 + dl + ll),
                    call_stack: read_text(buf, q + 19 + dl + ll, q + 19 + dl + ll + cl),
                },
            ),
        )
    }
}

impl Stdout {
    /// Parses a stdout payload `buf[q..q + n]`.
    pub fn parse(buf: &[u8], q: usize, n: usize) -> (r: Self)
        requires
            q + n <= buf.len(),
            n >= 6,
        ensures
            r.timestamp == be_u32(buf@, q as int),
            r.seqnum == be_u16(buf@, q as int + 4),
            r.message@ == text_of(buf@, q + 6, q + n),
    {
        Stdout {
            timestamp: read_be_u32(buf, q),
            seqnum: read_be_u16(buf, q + 4),
            message: read_text(buf, q + 6, q + n),
        }
    }
}

/// Whether `buf[q..q + n]` is the payload that a tag of id `0x0D` carries.
fn is_dummy_payload(buf: &[u8], q: usize, n: usize) -> (r: bool)
    requires
        q + n <= buf.len(),
    ensures
        r == (buf@.subrange(q as int, q + n) == dummy_payload()),
{
    let ok = n == 6 && buf[q] == 0 && buf[q + 1] == 0 && buf[q + 2] == 4 && buf[q + 3] == 4
        && buf[q + 4] == 4 && buf[q + 5] == 4;
    proof {
        let s = buf@.subrange(q as int, q + n);
        let d = dummy_payload();
        assert(d.len() == 6 && d[0] == 0 && d[1] == 0 && d[2] == 4 && d[3] == 4 && d[4] == 4 && d[5]
            == 4);
        if ok {
            assert(s =~= d);
        } else if s == d {
            assert(s[0] == buf@[q as int] && s[1] == buf@[q + 1] && s[2] == buf@[q + 2] && s[3]
                == buf@[q + 3] && s[4] == buf@[q + 4] && s[5] == buf@[q + 5]);
        }
    }
    ok
}

/// A cursor over one TCP buffer that yields the tags in it.
pub struct TcpTagStream {
    buf: Vec<u8>,
    pos: usize,
}

impl View for TcpTagStream {
    /// The buffer and the cursor.
    type V = (Seq<u8>, int);

    closed spec fn view(&self) -> (Seq<u8>, int) {
        (self.buf@, self.pos as int)
    }
}

impl TcpTagStream {
    pub closed spec fn wf(&self) -> bool {
        self.pos <= self.buf@.len()
    }

    pub fn new(buf: &[u8]) -> (r: Self)
        ensures
            r.wf(),
            r@ == (buf@, 0int),
    {
        TcpTagStream { buf: vstd::slice::slice_to_vec(buf), pos: 0 }
    }

    /// Yields the tag at the cursor and moves past it. A stream that ended,
    /// or met a tag that breaks its layout, stands at the end of its buffer.
    pub fn next(&mut self) -> (r: Option<Result<TcpIncomingTag, Error>>)
        requires
            old(self).wf(),
        ensures
            final(self).wf(),
            final(self)@ == (old(self)@.0, spec_tcp_after(old(self)@.0, old(self)@.1)),
            match r {
                None => spec_tcp_next(old(self)@.0, old(self)@.1) is None,
                Some(Ok(t)) => spec_tcp_next(old(self)@.0, old(self)@.1) == Some(
                    Ok::<TcpTagView, Error>(t@),
                ),
                Some(Err(e)) => spec_tcp_next(old(self)@.0, old(self)@.1) == Some(
                    Err::<TcpTagView, Error>(e),
                ),
            },
    {
        let len = self.buf.len();
        let p = self.pos;
        self.pos = len;
        if len - p < 2 {
            return None;
        }
        let b = self.buf.as_slice();
        let size = read_be_u16(b, p) as usize;
        if size == 0 || size > len - p - 2 {
            return None;
        }
        let id = b[p + 2];
        let q = p + 3;
        let n = size - 1;
        let r: Result<TcpIncomingTag, Error> = if id == TCP_TAG_RADIO_EVENT {
            Ok(TcpIncomingTag::RadioEvent(read_text(b, q, q + n)))
        } else if id == TCP_TAG_USAGE_REPORT {
            Ok(TcpIncomingTag::UsageReport)
        } else if id == TCP_TAG_DISABLE_FAULTS {
            if n == 4 {
                Ok(TcpIncomingTag::DisableFaults(DisableFaults::parse(b, q)))
            } else {
                Err(Error::MalformedTag)
            }
        } else if id == TCP_TAG_RAIL_FAULTS {
            if n == 6 {
                Ok(TcpIncomingTag::RailFaults(RailFaults::parse(b, q)))
            } else {
                Err(Error::MalformedTag)
            }
        } else if id == TCP_TAG_VERSION_INFO {
            VersionInfo::parse(b, q, n)
        } else if id == TCP_TAG_ERROR_MESSAGE {
            ErrorMessage::parse(b, q, n)
        } else if id == TCP_TAG_STDOUT {
            if n >= 6 {
                Ok(TcpIncomingTag::Stdout(Stdout::parse(b, q, n)))
            } else {
                Err(Error::MalformedTag)
            }
        } else if id == TCP_TAG_DUMMY {
            if is_dummy_payload(b, q, n) {
                Ok(TcpIncomingTag::Dummy)
            } else {
                Err(Error::MalformedTag)
            }
        } else {
            return None;
        };
        if r.is_ok() {
            self.pos = p + 2 + size;
        }
        Some(r)
    }
}

/// How loudly a tag is reported.
#[derive(Clone, Copy, Debug, PartialEq, Eq, Structural)]
pub enum Severity {
    Error,
    Warn,
    Info,
}

impl TcpIncomingTag {
    /// The severity that a tag is reported with: faults always as errors,
    /// error messages as errors or warnings by their flag, version info and
    /// printed lines as information; radio events, usage reports and the
    /// sentinel are not reported.
    pub open spec fn spec_severity(&self) -> Option<Severity> {
        match self {
            TcpIncomingTag::DisableFaults(_) => Some(Severity::Error),
            TcpIncomingTag::RailFaults(_) => Some(Severity::Error),
            TcpIncomingTag::ErrorMessage(e) => Some(
                if e.flags.bits & ERROR_FLAG_ERROR != 0 {
                    Severity::Error
                } else {
                    Severity::Warn
                },
            ),
            TcpIncomingTag::VersionInfo(_) => Some(Severity::Info),
            TcpIncomingTag::Stdout(_) => Some(Severity::Info),
            _ => None,
        }
    }

    pub fn severity(&self) -> (r: Option<Severity>)
        ensures
            r == self.spec_severity(),
    {
        match self {
            TcpIncomingTag::DisableFaults(_) => Some(Severity::Error),
            TcpIncomingTag::RailFaults(_) => Some(Severity::Error),
            TcpIncomingTag::ErrorMessage(e) => Some(
                if e.flags.is_error() {
                    Severity::Error
                } else {
                    Severity::Warn
                },
            ),
            TcpIncomingTag::VersionInfo(_) => Some(Severity::Info),
            TcpIncomingTag::Stdout(_) => Some(Severity::Info),
            _ => None,
        }
    }
}

/// A buffer that starts with a zero length yields no tag, and the stream
/// stands at its end afterwards.
pub proof fn lemma_tcp_zero_length_ends(b: Seq<u8>)
    requires
        b.len() >= 2,
        b[0] == 0,
        b[1] == 0,
    ensures
        spec_tcp_next(b, 0) is None,
        spec_tcp_after(b, 0) == b.len(),
{
}

} // verus!

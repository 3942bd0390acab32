//! Descriptor tags that the controller sends to the robot over TCP, framed
//! as `[length][tag id][length - 1 bytes]`.
use crate::wire::push_bytes;
use crate::Error;
use vstd::prelude::*;
use vstd::utf8::encode_utf8;

verus! {

/// The kind of a joystick, as the robot code sees it.
#[derive(Clone, Copy, Debug, PartialEq, Eq, Structural)]
pub enum JoystickKind {
    Unknown,
    XInputUnknown,
    XInputGamepad,
    XInputWheel,
    XInputArcade,
    XInputFlightStick,
    XInputDancePad,
    XInputGuitar,
    XInputGuitar2,
    XInputDrumKit,
    XInputGuitar3,
    XInputArcadePad,
    HIDJoystick,
    HIDGamepad,
    HIDDriving,
    HIDFlight,
    HIDFirstPerson,
}

impl JoystickKind {
    /// The wire byte of the kind; `Unknown` is `-1` as a signed byte.
    pub open spec fn spec_code(self) -> u8 {
        match self {
            JoystickKind::Unknown => 0xFF,
            JoystickKind::XInputUnknown => 0,
            JoystickKind::XInputGamepad => 1,
            JoystickKind::XInputWheel => 2,
            JoystickKind::XInputArcade => 3,
            JoystickKind::XInputFlightStick => 4,
            JoystickKind::XInputDancePad => 5,
            JoystickKind::XInputGuitar => 6,
            JoystickKind::XInputGuitar2 => 7,
            JoystickKind::XInputDrumKit => 8,
            JoystickKind::XInputGuitar3 => 11,
            JoystickKind::XInputArcadePad => 19,
            JoystickKind::HIDJoystick => 20,
            JoystickKind::HIDGamepad => 21,
            JoystickKind::HIDDriving => 22,
            JoystickKind::HIDFlight => 23,
            JoystickKind::HIDFirstPerson => 24,
        }
    }

    pub fn code(self) -> (r: u8)
        ensures
            r == self.spec_code(),
    {
        match self {
            JoystickKind::Unknown => 0xFF,
            JoystickKind::XInputUnknown => 0,
            JoystickKind::XInputGamepad => 1,
            JoystickKind::XInputWheel => 2,
            JoystickKind::XInputArcade => 3,
            JoystickKind::XInputFlightStick => 4,
            JoystickKind::XInputDancePad => 5,
            JoystickKind::XInputGuitar => 6,
            JoystickKind::XInputGuitar2 => 7,
            JoystickKind::XInputDrumKit => 8,
            JoystickKind::XInputGuitar3 => 11,
            JoystickKind::XInputArcadePad => 19,
            JoystickKind::HIDJoystick => 20,
            JoystickKind::HIDGamepad => 21,
            JoystickKind::HIDDriving => 22,
            JoystickKind::HIDFlight => 23,
            JoystickKind::HIDFirstPerson => 24,
        }
    }
}

/// The kind of one joystick axis.
#[derive(Clone, Copy, Debug, PartialEq, Eq, Structural)]
pub enum AxisKind {
    X,
    Y,
    Z,
    Twist,
    Throttle,
}

impl AxisKind {
    pub open spec fn spec_code(self) -> u8 {
        match self {
            AxisKind::X => 0,
            AxisKind::Y => 1,
            AxisKind::Z => 2,
            AxisKind::Twist => 3,
            AxisKind::Throttle => 4,
        }
    }

    pub fn code(self) -> (r: u8)
        ensures
            r == self.spec_code(),
    {
        match self {
            AxisKind::X => 0,
            AxisKind::Y => 1,
            AxisKind::Z => 2,
            AxisKind::Twist => 3,
            AxisKind::Throttle => 4,
        }
    }
}

/// The wire bytes of a list of axis kinds.
pub open spec fn axes_bytes(axes: Seq<AxisKind>) -> Seq<u8> {
    axes.map_values(|a: AxisKind| a.spec_code())
}

pub const TCP_OUT_TAG_JOYSTICK_DESCRIPTOR: u8 = 0x02;

/// A tag that the controller sends over TCP.
#[derive(Clone, Debug)]
pub enum TcpOutgoingTag {
    JoystickDescriptor {
        index: u8,
        is_xbox: bool,
        kind: JoystickKind,
        name: String,
        axes: Vec<AxisKind>,
        button_count: u8,
        pov_count: u8,
    },
    MatchInfo { competition: String, match_kind: u8 },
    GameData { game_data: String },
}

/// The frame of a joystick descriptor, from its length byte on.
pub open spec fn joystick_descriptor_bytes(
    index: u8,
    is_xbox: bool,
    kind: JoystickKind,
    name: Seq<u8>,
    axes: Seq<AxisKind>,
    button_count: u8,
    pov_count: u8,
) -> Seq<u8> {
    seq![
        (8 + name.len() + axes.len()) as u8,
        TCP_OUT_TAG_JOYSTICK_DESCRIPTOR,
        index,
        if is_xbox { 1u8 } else { 0u8 },
        kind.spec_code(),
        name.len() as u8,
    ] + name + seq![axes.len() as u8] + axes_bytes(axes) + seq![button_count, pov_count]
}

/// Whether a descriptor with a name of `name_len` bytes and `axis_count`
/// axes fits its one-byte length field.
pub open spec fn joystick_descriptor_fits(name_len: int, axis_count: int) -> bool {
    8 + name_len + axis_count <= 0xFF
}

/// Appends the bytes of `axes` to `out`.
fn push_axes(out: &mut Vec<u8>, axes: &Vec<AxisKind>)
    ensures
        final(out)@ == old(out)@ + axes_bytes(axes@),
{
    let mut i: usize = 0;
    while i < axes.len()
        invariant
            i <= axes@.len(),
            out@ == old(out)@ + axes_bytes(axes@.subrange(0, i as int)),
        decreases axes@.len() - i,
    {
        out.push(axes[i].code());
        proof {
            assert(axes_bytes(axes@.subrange(0, i + 1)) =~= axes_bytes(axes@.subrange(0, i as int)).push(
                axes@[i as int].spec_code(),
            ));
        }
        i = i + 1;
    }
    proof {
        assert(axes@.subrange(0, axes@.len() as int) =~= axes@);
    }
}

impl TcpOutgoingTag {
    /// Encodes the tag. Match info and game data have no encoding yet.
    pub fn write(&self) -> (r: Result<Vec<u8>, Error>)
        ensures
            match self {
                TcpOutgoingTag::JoystickDescriptor {
                    index,
                    is_xbox,
                    kind,
                    name,
                    axes,
                    button_count,
                    pov_count,
                } => if joystick_descriptor_fits(encode_utf8(name@).len() as int, axes@.len() as int) {
                    r matches Ok(v) && v@ == joystick_descriptor_bytes(
                        *index,
                        *is_xbox,
                        *kind,
                        encode_utf8(name@),
                        axes@,
                        *button_count,
                        *pov_count,
                    )
                } else {
                    r == Err::<Vec<u8>, Error>(Error::TooLong)
                },
                _ => r == Err::<Vec<u8>, Error>(Error::Unsupported),
            },
    {
        match self {
            TcpOutgoingTag::JoystickDescriptor {
                index,
                is_xbox,
                kind,
                name,
                axes,
                button_count,
                pov_count,
            } => {
                let name_bytes = name.as_str().as_bytes();
                if name_bytes.len() > 0xFF - 8 || axes.len() > 0xFF - 8 - name_bytes.len() {
                    return Err(Error::TooLong);
                }
                let mut buf: Vec<u8> = Vec::new();
                buf.push((8 + name_bytes.len() + axes.len()) as u8);
                buf.push(TCP_OUT_TAG_JOYSTICK_DESCRIPTOR);
                buf.push(*index);
                buf.push(if *is_xbox { 1u8 } else { 0u8 });
                buf.push(kind.code());
                buf.push(name_bytes.len() as u8);
                push_bytes(&mut buf, name_bytes);
                buf.push(axes.len() as u8);
                push_axes(&mut buf, axes);
                buf.push(*button_count);
                buf.push(*pov_count);
                proof {
                    assert(buf@ =~= joystick_descriptor_bytes(
                        *index,
                        *is_xbox,
                        *kind,
                        encode_utf8(name@),
                        axes@,
                        *button_count,
                        *pov_count,
                    ));
                }
                Ok(buf)
            },
            _ => Err(Error::Unsupported),
        }
    }
}

} // verus!

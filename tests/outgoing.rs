use ds_proto::outgoing_tcp::{AxisKind, JoystickKind, TcpOutgoingTag};
use ds_proto::outgoing_udp::{UdpOutgoingPacket, UdpOutgoingTag};
use ds_proto::session::SessionState;
use ds_proto::utils::gen_team_ip;
use ds_proto::{AlliancePos, Error, RobotCodeMode, RobotStatus};

#[test]
fn alliance_positions_encode() {
    assert_eq!(AlliancePos::Blue(2).to_pos(), 4);
    assert_eq!(AlliancePos::Red(1).to_pos(), 0);
    assert_eq!(AlliancePos::Red(3).to_pos(), 2);
    assert_eq!(AlliancePos::Blue(1).to_pos(), 3);
    assert_eq!(AlliancePos::Blue(3).to_pos(), 5);
}

fn state(status: RobotStatus, mode: RobotCodeMode) -> SessionState {
    let mut s = SessionState::new();
    s.set_status(status);
    s.mode = mode;
    s
}

#[test]
fn control_packet_header() {
    let mut s = state(RobotStatus::Enabled, RobotCodeMode::Teleop);
    s.set_alliance_pos(AlliancePos::Blue(2));
    let pkt = UdpOutgoingPacket::build(&s);
    assert_eq!(pkt.write(), Ok(vec![0, 0, 0x01, 0x04, 0x00, 0x04]));
}

#[test]
fn control_byte_round_trips() {
    let modes = [RobotCodeMode::Teleop, RobotCodeMode::Autonomous, RobotCodeMode::Test];
    let statuses = [
        RobotStatus::NoCommunication,
        RobotStatus::NoRobotCode,
        RobotStatus::EStopped,
        RobotStatus::BrownedOut,
        RobotStatus::Disabled,
        RobotStatus::Enabled,
    ];
    for mode in modes {
        for status in statuses {
            let bytes = UdpOutgoingPacket::build(&state(status, mode)).write().unwrap();
            let c = bytes[3];
            assert_eq!(c & 0x80 != 0, status == RobotStatus::EStopped);
            assert_eq!(c & 0x04 != 0, status == RobotStatus::Enabled);
            let m = match c & 0b11 {
                0b00 => RobotCodeMode::Teleop,
                0b10 => RobotCodeMode::Autonomous,
                0b01 => RobotCodeMode::Test,
                _ => panic!("mode field names no mode"),
            };
            assert_eq!(m, mode);
        }
    }
    let a = UdpOutgoingPacket::build(&state(RobotStatus::Disabled, RobotCodeMode::Test));
    let b = UdpOutgoingPacket::build(&state(RobotStatus::NoCommunication, RobotCodeMode::Test));
    assert_eq!(a.write(), b.write());
    assert_eq!(
        UdpOutgoingPacket::build(&state(RobotStatus::EStopped, RobotCodeMode::Autonomous)).write(),
        Ok(vec![0, 0, 0x01, 0x82, 0x00, 0x00])
    );
}

#[test]
fn requests_set_their_bit() {
    let s = SessionState::new();
    let mut pkt = UdpOutgoingPacket::build(&s);
    pkt.reboot_rio();
    assert_eq!(pkt.write().unwrap()[4], 0x08);
    pkt.restart_code();
    assert_eq!(pkt.write().unwrap()[4], 0x04);
}

#[test]
fn joystick_tag_packs_buttons_most_significant_first() {
    let mut buttons = vec![true, false, false, false, false, false, false, true];
    buttons.extend_from_slice(&[true, true, true]);
    let tag = UdpOutgoingTag::Joystick { axes: vec![-1, 5], buttons, povs: vec![-1, 90] };
    assert_eq!(
        tag.write(),
        Ok(vec![2, 0xFF, 0x05, 2, 0x81, 2, 0xFF, 0xFF, 0x00, 0x5A])
    );
    let empty = UdpOutgoingTag::Joystick { axes: vec![], buttons: vec![], povs: vec![] };
    assert_eq!(empty.write(), Ok(vec![0, 0, 0]));
}

#[test]
fn joystick_tag_with_too_many_axes_is_refused() {
    let tag = UdpOutgoingTag::Joystick { axes: vec![0; 256], buttons: vec![], povs: vec![] };
    assert_eq!(tag.write(), Err(Error::TooLong));
}

#[test]
fn packet_frames_its_tags() {
    let mut pkt = UdpOutgoingPacket::build(&SessionState::new());
    pkt.tags.push(UdpOutgoingTag::Countdown { countdown: 15.0f32.to_bits() });
    pkt.tags.push(UdpOutgoingTag::Timezone { timezone: "UTC".to_string() });
    pkt.tags.push(UdpOutgoingTag::Date {
        microseconds: 0,
        second: 0,
        minute: 0,
        hour: 0,
        day: 1,
        month: 0,
        year: 124,
    });
    let mut expected = vec![0, 0, 0x01, 0x00, 0x00, 0x00, 5, 0x07];
    expected.extend_from_slice(&15.0f32.to_bits().to_be_bytes());
    expected.extend_from_slice(&[4, 0x10, b'U', b'T', b'C', 1, 0x0F]);
    assert_eq!(pkt.write(), Ok(expected));
}

#[test]
fn joystick_descriptor_bytes() {
    let tag = TcpOutgoingTag::JoystickDescriptor {
        index: 1,
        is_xbox: true,
        kind: JoystickKind::Unknown,
        name: "pad".to_string(),
        axes: vec![AxisKind::X, AxisKind::Throttle],
        button_count: 10,
        pov_count: 1,
    };
    assert_eq!(
        tag.write(),
        Ok(vec![13, 0x02, 1, 1, 0xFF, 3, b'p', b'a', b'd', 2, 0, 4, 10, 1])
    );
    let kind = TcpOutgoingTag::JoystickDescriptor {
        index: 0,
        is_xbox: false,
        kind: JoystickKind::HIDGamepad,
        name: String::new(),
        axes: vec![],
        button_count: 0,
        pov_count: 0,
    };
    assert_eq!(kind.write(), Ok(vec![8, 0x02, 0, 0, 21, 0, 0, 0, 0]));
}

#[test]
fn match_info_and_game_data_are_unsupported() {
    let m = TcpOutgoingTag::MatchInfo { competition: "x".to_string(), match_kind: 1 };
    assert_eq!(m.write(), Err(Error::Unsupported));
    let g = TcpOutgoingTag::GameData { game_data: "L".to_string() };
    assert_eq!(g.write(), Err(Error::Unsupported));
}

#[test]
fn team_addresses() {
    assert_eq!(gen_team_ip(12345), Some([10, 123, 45, 2]));
    assert_eq!(gen_team_ip(25599), Some([10, 255, 99, 2]));
    assert_eq!(gen_team_ip(25600), None);
    assert_eq!(gen_team_ip(0), Some([10, 0, 0, 2]));
}

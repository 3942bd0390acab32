use ds_proto::incoming_tcp::{Severity, TcpIncomingTag, TcpTagStream};
use ds_proto::incoming_udp::{Status, Trace, UdpIncomingStream, UdpIncomingTag};
use ds_proto::session::SessionState;
use ds_proto::utils::find_status;
use ds_proto::{Error, RobotCodeMode, RobotStatus};

fn header(status: u8, trace: u8) -> Vec<u8> {
    vec![0x00, 0x2A, 0x01, status, trace, 0x0C, 0x80, 0x00]
}

#[test]
fn estop_with_robot_code_is_estopped_whatever_the_enabled_bit() {
    let r = find_status(Status::from_bits_retain(0x80), Trace::from_bits_retain(0x20));
    assert_eq!(r, (RobotStatus::EStopped, RobotCodeMode::Teleop));
    let r = find_status(Status::from_bits_retain(0x84), Trace::from_bits_retain(0x20));
    assert_eq!(r, (RobotStatus::EStopped, RobotCodeMode::Teleop));
}

#[test]
fn derivation_follows_its_precedence() {
    let code = Trace::from_bits_retain(0x20);
    let none = Trace::from_bits_retain(0x10);
    assert_eq!(find_status(Status::from_bits_retain(0x94), none).0, RobotStatus::NoRobotCode);
    assert_eq!(find_status(Status::from_bits_retain(0x90), code).0, RobotStatus::EStopped);
    assert_eq!(find_status(Status::from_bits_retain(0x14), code).0, RobotStatus::BrownedOut);
    assert_eq!(find_status(Status::from_bits_retain(0x04), code).0, RobotStatus::Enabled);
    assert_eq!(find_status(Status::from_bits_retain(0x08), code).0, RobotStatus::Disabled);
}

#[test]
fn derivation_reads_the_mode_field() {
    let code = Trace::from_bits_retain(0x20);
    assert_eq!(find_status(Status::from_bits_retain(0x00), code).1, RobotCodeMode::Teleop);
    assert_eq!(find_status(Status::from_bits_retain(0x02), code).1, RobotCodeMode::Autonomous);
    assert_eq!(find_status(Status::from_bits_retain(0x01), code).1, RobotCodeMode::Test);
}

#[test]
fn status_flag_queries() {
    let s = Status::from_bits_retain(0x96);
    assert!(s.is_estopped());
    assert!(s.is_browned_out());
    assert!(s.is_enabled());
    assert!(s.is_in_auto());
    assert!(!s.is_in_teleop());
    assert!(!s.is_in_test());
    assert!(Trace::from_bits_retain(0x20).has_robot_code());
    assert!(!Trace::from_bits_retain(0x1F).has_robot_code());
}

#[test]
fn udp_eight_bytes_hold_no_datagram() {
    let buf = header(0x04, 0x20);
    assert!(UdpIncomingStream::new(&buf).next().is_none());
    assert!(UdpIncomingStream::new(&[]).next().is_none());
}

#[test]
fn udp_header_only_datagram() {
    let mut buf = header(0x04, 0x20);
    buf.push(0);
    let mut stream = UdpIncomingStream::new(&buf);
    let pkt = stream.next().unwrap();
    assert!(stream.next().is_none());
    assert_eq!(pkt.seqnum, 0x2A);
    assert_eq!(pkt.comm_version, 1);
    assert_eq!(pkt.battery, 0x8C);
    assert!(!pkt.need_date);
    assert!(pkt.tags.is_empty());

    let mut state = SessionState::new();
    state.can_bus_util = 7;
    assert_eq!(state.apply_udp_packet(&pkt), Ok(()));
    assert_eq!(state.status, RobotStatus::Enabled);
    assert_eq!(state.mode, RobotCodeMode::Teleop);
    assert_eq!(state.battery, 0x8C);
    assert_eq!(state.can_bus_util, 7);
}

#[test]
fn udp_parsing_twice_gives_the_same_datagram() {
    let mut buf = header(0x02, 0x20);
    buf.extend_from_slice(&[9, 0x06, 0, 0, 1, 0, 0, 0, 2, 0]);
    let a = UdpIncomingStream::parse_one(&buf);
    let b = UdpIncomingStream::parse_one(&buf);
    assert_eq!(a.seqnum, b.seqnum);
    assert_eq!(a.status, b.status);
    assert_eq!(a.trace, b.trace);
    assert_eq!(a.battery, b.battery);
    assert_eq!(a.tags, b.tags);
    assert_eq!(a.tags.len(), 1);
    match a.tags[0] {
        UdpIncomingTag::RamInfo(r) => {
            assert_eq!(r.block, 256);
            assert_eq!(r.free_space, 512);
        }
        _ => panic!("expected RAM info"),
    }
}

#[test]
fn udp_can_metrics_sets_only_the_utilization() {
    let mut buf = header(0x00, 0x20);
    let util = 37.5f32.to_bits().to_be_bytes();
    buf.extend_from_slice(&[15, 0x0E, util[0], util[1], util[2], util[3]]);
    buf.extend_from_slice(&[0, 0, 0, 1, 0, 0, 0, 2, 3, 4]);
    let pkt = UdpIncomingStream::parse_one(&buf);
    assert_eq!(pkt.tags.len(), 1);

    let mut state = SessionState::new();
    let before = state;
    state.apply_udp_tag(&pkt.tags[0]);
    assert_eq!(f32::from_bits(state.can_bus_util), 37.5);
    assert_eq!(state.status, before.status);
    assert_eq!(state.mode, before.mode);
    assert_eq!(state.battery, before.battery);
    assert_eq!(state.alliance_pos, before.alliance_pos);
    match pkt.tags[0] {
        UdpIncomingTag::CanMetrics(m) => {
            assert_eq!(m.bus_off, 1);
            assert_eq!(m.tx_full, 2);
            assert_eq!(m.rx_errors, 3);
            assert_eq!(m.tx_errors, 4);
        }
        _ => panic!("expected CAN metrics"),
    }
}

#[test]
fn udp_unknown_tags_are_skipped_by_length() {
    let mut buf = header(0x00, 0x20);
    buf.extend_from_slice(&[3, 0x42, 0xAA, 0xBB]);
    buf.extend_from_slice(&[5, 0x04, 0, 0, 0x10, 0]);
    let pkt = UdpIncomingStream::parse_one(&buf);
    assert_eq!(pkt.tags, vec![UdpIncomingTag::DiskSpace(0x1000)]);
}

#[test]
fn udp_joystick_output_is_little_endian() {
    let mut buf = header(0x00, 0x20);
    buf.extend_from_slice(&[9, 0x01, 0x01, 0x02, 0x00, 0x00, 0x00, 0x05, 0x00, 0x06]);
    let pkt = UdpIncomingStream::parse_one(&buf);
    match pkt.tags[0] {
        UdpIncomingTag::JoystickOutput(j) => {
            assert_eq!(j.outputs, 0x0201);
            assert_eq!(j.left_rumble, 5);
            assert_eq!(j.right_rumble, 6);
        }
        _ => panic!("expected joystick output"),
    }
}

#[test]
fn udp_overrunning_tag_aborts_the_datagram() {
    let mut buf = header(0x00, 0x20);
    buf.extend_from_slice(&[10, 0x09, 0, 0]);
    assert!(UdpIncomingStream::new(&buf).next().is_none());
}

#[test]
fn udp_known_tag_with_wrong_size_aborts_the_datagram() {
    let mut buf = header(0x00, 0x20);
    buf.extend_from_slice(&[3, 0x0E, 0, 0]);
    assert!(UdpIncomingStream::new(&buf).next().is_none());
}

#[test]
fn udp_conflicting_mode_bits_are_refused() {
    let mut buf = header(0x07, 0x20);
    buf.push(0);
    let pkt = UdpIncomingStream::parse_one(&buf);
    let mut state = SessionState::new();
    assert_eq!(state.apply_udp_packet(&pkt), Err(Error::ModeConflict));
    assert_eq!(state, SessionState::new());
}

#[test]
fn tcp_zero_length_yields_no_tags() {
    let buf = [0u8, 0, 0, 5, 0x05, 0, 1, 0, 2, 0, 3];
    let mut stream = TcpTagStream::new(&buf);
    assert!(stream.next().is_none());
    assert!(stream.next().is_none());
}

#[test]
fn tcp_rail_faults_are_reported_as_errors() {
    let buf = [0u8, 7, 0x05, 0, 10, 0, 20, 0, 30];
    let mut stream = TcpTagStream::new(&buf);
    let tag = stream.next().unwrap().unwrap();
    match &tag {
        TcpIncomingTag::RailFaults(f) => {
            assert_eq!(f.pwr6v, 10);
            assert_eq!(f.pwr5v, 20);
            assert_eq!(f.pwr3_3v, 30);
        }
        _ => panic!("expected rail faults"),
    }
    assert_eq!(tag.severity(), Some(Severity::Error));
    assert!(stream.next().is_none());
}

#[test]
fn tcp_disable_faults_then_radio_event() {
    let buf = [0u8, 5, 0x04, 0, 1, 0, 2, 0, 3, 0x00, b'h', b'i'];
    let mut stream = TcpTagStream::new(&buf);
    match stream.next().unwrap().unwrap() {
        TcpIncomingTag::DisableFaults(f) => {
            assert_eq!(f.comms, 1);
            assert_eq!(f.pwr12v, 2);
        }
        _ => panic!("expected disable faults"),
    }
    let tag = stream.next().unwrap().unwrap();
    match &tag {
        TcpIncomingTag::RadioEvent(s) => assert_eq!(s, "hi"),
        _ => panic!("expected a radio event"),
    }
    assert_eq!(tag.severity(), None);
    assert!(stream.next().is_none());
}

#[test]
fn tcp_invalid_text_degrades_to_empty() {
    let buf = [0u8, 3, 0x00, 0xFF, 0xFE];
    match TcpTagStream::new(&buf).next().unwrap().unwrap() {
        TcpIncomingTag::RadioEvent(s) => assert_eq!(s, ""),
        _ => panic!("expected a radio event"),
    }
}

#[test]
fn tcp_fixed_size_tag_with_wrong_size_is_malformed() {
    let buf = [0u8, 4, 0x05, 0, 1, 0];
    let mut stream = TcpTagStream::new(&buf);
    assert_eq!(stream.next().unwrap().err(), Some(Error::MalformedTag));
    assert!(stream.next().is_none());
}

#[test]
fn tcp_truncated_frame_yields_nothing() {
    let buf = [0u8, 7, 0x05, 0, 10];
    assert!(TcpTagStream::new(&buf).next().is_none());
}

#[test]
fn tcp_unknown_id_ends_the_stream() {
    let buf = [0u8, 1, 0x42, 0, 1, 0x01];
    let mut stream = TcpTagStream::new(&buf);
    assert!(stream.next().is_none());
    assert!(stream.next().is_none());
}

#[test]
fn tcp_sentinel_tag() {
    let ok = [0u8, 7, 0x0D, 0, 0, 4, 4, 4, 4];
    assert!(matches!(TcpTagStream::new(&ok).next(), Some(Ok(TcpIncomingTag::Dummy))));
    let bad = [0u8, 7, 0x0D, 0, 0, 4, 4, 4, 5];
    assert_eq!(TcpTagStream::new(&bad).next().unwrap().err(), Some(Error::MalformedTag));
}

#[test]
fn tcp_version_info() {
    let buf = [0u8, 12, 0x0A, 7, 0, 0, 3, 3, b'r', b'i', b'o', 2, b'v', b'1'];
    let tag = TcpTagStream::new(&buf).next().unwrap().unwrap();
    match &tag {
        TcpIncomingTag::VersionInfo(v) => {
            assert_eq!(v.ty, 7);
            assert_eq!(v.id, 3);
            assert_eq!(v.name, "rio");
            assert_eq!(v.version, "v1");
        }
        _ => panic!("expected version info"),
    }
    assert_eq!(tag.severity(), Some(Severity::Info));
}

#[test]
fn tcp_error_message_and_warning() {
    let mut buf = vec![0u8, 0, 0x0B];
    buf.extend_from_slice(&1.5f32.to_bits().to_be_bytes());
    buf.extend_from_slice(&[0, 9, 0, 0]);
    buf.extend_from_slice(&(-2i32).to_be_bytes());
    buf.push(0x01);
    buf.extend_from_slice(&[0, 2, b'a', b'b', 0, 1, b'c', 0, 0]);
    buf[1] = (buf.len() - 2) as u8;
    let tag = TcpTagStream::new(&buf).next().unwrap().unwrap();
    match &tag {
        TcpIncomingTag::ErrorMessage(e) => {
            assert_eq!(f32::from_bits(e.timestamp), 1.5);
            assert_eq!(e.seqnum, 9);
            assert_eq!(e.error_code, -2);
            assert_eq!(e.details, "ab");
            assert_eq!(e.location, "c");
            assert_eq!(e.call_stack, "");
        }
        _ => panic!("expected an error message"),
    }
    assert_eq!(tag.severity(), Some(Severity::Error));

    buf[15] = 0x00;
    let tag = TcpTagStream::new(&buf).next().unwrap().unwrap();
    assert_eq!(tag.severity(), Some(Severity::Warn));
}

#[test]
fn tcp_stdout() {
    let mut buf = vec![0u8, 10, 0x0C];
    buf.extend_from_slice(&2.0f32.to_bits().to_be_bytes());
    buf.extend_from_slice(&[0, 4, b'o', b'k', b'!']);
    let tag = TcpTagStream::new(&buf).next().unwrap().unwrap();
    match &tag {
        TcpIncomingTag::Stdout(s) => {
            assert_eq!(f32::from_bits(s.timestamp), 2.0);
            assert_eq!(s.seqnum, 4);
            assert_eq!(s.message, "ok!");
        }
        _ => panic!("expected stdout"),
    }
    assert_eq!(tag.severity(), Some(Severity::Info));
}

use nlyzer::filter::{build_filter_record, evaluate_filter, load_filter, record_fields,
    FieldValue, FilterPredicate};
use nlyzer::session::{
    begin_selection, capture_iteration, frame_step, parse_selection, selection_step,
    session_transition, CaptureEvent, CaptureSession, CaptureStep, InputEvent, SelectionOutcome,
    SessionError, SessionEvent, SessionState,
};
use nlyzer::summary::{describe_udp, summary_line};
use nlyzer::text::{dec_string, ipv4_string, ipv6_string, mac_string};
use nlyzer::headers::{decode_ethernet, UdpHeader};

/// The frame the filter scenario uses: Ethernet + IPv4 + UDP with fixed
/// addresses and ports.
fn mdns_frame() -> Vec<u8> {
    let mut b: Vec<u8> = Vec::new();
    b.extend_from_slice(&[0x11, 0x22, 0x33, 0x44, 0x55, 0x66]); // destination MAC
    b.extend_from_slice(&[0xaa, 0xbb, 0xcc, 0xdd, 0xee, 0xff]); // source MAC
    b.extend_from_slice(&[0x08, 0x00]); // IPv4
    b.extend_from_slice(&[0x45, 0, 0, 0, 0, 0, 0, 0, 64, 17, 0, 0]); // IPv4, UDP
    b.extend_from_slice(&[10, 0, 0, 1]); // source IP
    b.extend_from_slice(&[10, 0, 0, 2]); // destination IP
    b.extend_from_slice(&[0x14, 0xe9, 0x14, 0xe9]); // ports 5353, 5353
    b.extend_from_slice(&[0, 12, 0, 0]); // length, checksum
    b.extend_from_slice(b"data");
    b
}

fn load_predicate(script: &str) -> FilterPredicate {
    load_filter(script, "filter").unwrap()
}

#[test]
fn record_carries_all_decoded_fields() {
    let b = mdns_frame();
    let rec = build_filter_record(&b).unwrap();
    assert_eq!(rec.src_mac, "aa:bb:cc:dd:ee:ff");
    assert_eq!(rec.dst_mac, "11:22:33:44:55:66");
    assert_eq!(rec.ethertype, "IPv4");
    assert_eq!(rec.src_ip.as_deref(), Some("10.0.0.1"));
    assert_eq!(rec.dst_ip.as_deref(), Some("10.0.0.2"));
    assert_eq!(rec.protocol.as_deref(), Some("UDP"));
    assert_eq!(rec.udp_src_port, Some(5353));
    assert_eq!(rec.udp_dst_port, Some(5353));
}

#[test]
fn record_omits_absent_layers() {
    let mut b = mdns_frame();
    b[12] = 0x12;
    b[13] = 0x34; // ethertype neither IPv4 nor IPv6
    let rec = build_filter_record(&b).unwrap();
    assert_eq!(rec.ethertype, "Other");
    assert!(rec.src_ip.is_none());
    assert!(rec.dst_ip.is_none());
    assert!(rec.protocol.is_none());
    assert!(rec.udp_src_port.is_none());
    assert!(rec.udp_dst_port.is_none());
    assert!(build_filter_record(&b[..13]).is_none());
}

#[test]
fn record_flattens_in_order() {
    let rec = build_filter_record(&mdns_frame()).unwrap();
    let fields = record_fields(rec);
    let keys: Vec<&str> = fields.iter().map(|(k, _)| k.as_str()).collect();
    assert_eq!(
        keys,
        [
            "src_mac",
            "dst_mac",
            "ethertype",
            "src_ip",
            "dst_ip",
            "protocol",
            "udp_src_port",
            "udp_dst_port"
        ]
    );
    assert_eq!(fields[2].1, FieldValue::Text("IPv4".to_string()));
    assert_eq!(fields[7].1, FieldValue::Number(5353));
}

#[test]
fn predicate_on_udp_port_accepts_and_rejects() {
    let accept = load_predicate("function filter(r) return r.udp_dst_port == 5353 end");
    assert!(evaluate_filter(&accept, &mdns_frame()));
    let reject = load_predicate("function filter(r) return r.udp_dst_port == 80 end");
    assert!(!evaluate_filter(&reject, &mdns_frame()));
}

#[test]
fn predicate_error_counts_as_reject() {
    let failing = load_predicate("function filter(r) error('boom') end");
    assert!(!evaluate_filter(&failing, &mdns_frame()));
    let nil_result = load_predicate("function filter(r) return nil end");
    assert!(!evaluate_filter(&nil_result, &mdns_frame()));
    // Lua's notion of truth applies to the result: any non-nil,
    // non-false value accepts.
    let truthy = load_predicate("function filter(r) return 'yes' end");
    assert!(evaluate_filter(&truthy, &mdns_frame()));
}

#[test]
fn predicate_sees_mac_strings() {
    let f = load_predicate(
        "function filter(r) return r.src_mac == 'aa:bb:cc:dd:ee:ff' and r.dst_ip == '10.0.0.2' end",
    );
    assert!(evaluate_filter(&f, &mdns_frame()));
}

#[test]
fn selection_timeout_aborts_before_any_device_opens() {
    let r = selection_step(InputEvent::TimedOut, 3);
    assert_eq!(r, SelectionOutcome::Abort(SessionError::SelectionTimeout));
    let r = selection_step(InputEvent::Failed, 3);
    assert_eq!(r, SelectionOutcome::Abort(SessionError::SelectionInputError));
}

#[test]
fn selection_parses_and_bounds_the_index() {
    assert_eq!(parse_selection(b" 2 \n", 3), Some(1));
    assert_eq!(parse_selection(b"1", 3), Some(0));
    assert_eq!(parse_selection(b"3", 3), Some(2));
    assert_eq!(parse_selection(b"4", 3), None);
    assert_eq!(parse_selection(b"0", 3), None);
    assert_eq!(parse_selection(b"", 3), None);
    assert_eq!(parse_selection(b"  \t ", 3), None);
    assert_eq!(parse_selection(b"two", 3), None);
    assert_eq!(parse_selection(b"1x", 3), None);
    assert_eq!(parse_selection(b"99999999999999999999999999", 3), None);
    assert_eq!(
        selection_step(InputEvent::Line(b"2\n".to_vec()), 3),
        SelectionOutcome::Selected(1)
    );
    assert_eq!(
        selection_step(InputEvent::Line(b"nine\n".to_vec()), 3),
        SelectionOutcome::Reprompt
    );
}

#[test]
fn cancellation_stops_the_iteration() {
    let f = load_predicate("function filter(r) return true end");
    assert!(matches!(
        capture_iteration(&f, CaptureEvent::Cancelled, false),
        CaptureStep::Stopped
    ));
    assert!(matches!(
        capture_iteration(&f, CaptureEvent::ReadFailed, false),
        CaptureStep::Stopped
    ));
}

#[test]
fn accepted_frame_emits_the_dissection() {
    let f = load_predicate("function filter(r) return true end");
    match capture_iteration(&f, CaptureEvent::Frame(mdns_frame()), false) {
        CaptureStep::Emitted(s) => {
            assert!(s.contains("Ethernet Packet:"));
            assert!(s.contains("  Source MAC: aa:bb:cc:dd:ee:ff\n"));
            assert!(s.contains("IPv4 Packet:"));
            assert!(s.contains("  Source IP: 10.0.0.1\n"));
            assert!(s.contains("UDP Packet:"));
            assert!(s.contains("  Destination Port: 5353\n"));
        }
        other_step => panic!("frame was not emitted: {:?}", step_name(&other_step)),
    }
    let g = load_predicate("function filter(r) return false end");
    assert!(matches!(
        capture_iteration(&g, CaptureEvent::Frame(mdns_frame()), false),
        CaptureStep::Rejected
    ));
}

fn step_name(s: &CaptureStep) -> &'static str {
    match s {
        CaptureStep::Stopped => "Stopped",
        CaptureStep::Rejected => "Rejected",
        CaptureStep::Emitted(_) => "Emitted",
    }
}

#[test]
fn loader_rejects_bad_scripts() {
    assert!(load_filter("this is not lua", "filter").is_none());
    assert!(load_filter("x = 1", "filter").is_none());
    assert!(load_filter("function filter(r) return true end", "other").is_none());
    assert!(load_filter("function filter(r) return true end", "filter").is_some());
}

#[test]
fn frame_step_follows_the_decision() {
    let b = mdns_frame();
    assert!(matches!(frame_step(false, &b, false), CaptureStep::Rejected));
    match frame_step(true, &b, true) {
        CaptureStep::Emitted(s) => {
            assert_eq!(s, "aa:bb:cc:dd:ee:ff -> 11:22:33:44:55:66 [IPv4]")
        }
        _ => panic!("accepted frame was not emitted"),
    }
    match frame_step(true, &b, false) {
        CaptureStep::Emitted(s) => assert!(s.starts_with("Ethernet Packet:")),
        _ => panic!("accepted frame was not emitted"),
    }
    // An accepted frame with no Ethernet header is still dropped.
    assert!(matches!(frame_step(true, &[0u8; 5], false), CaptureStep::Rejected));
}

#[test]
fn summary_mode_emits_one_line() {
    let f = load_predicate("function filter(r) return true end");
    match capture_iteration(&f, CaptureEvent::Frame(mdns_frame()), true) {
        CaptureStep::Emitted(s) => {
            assert_eq!(s, "aa:bb:cc:dd:ee:ff -> 11:22:33:44:55:66 [IPv4]");
        }
        _ => panic!("frame was not emitted"),
    }
}

#[test]
fn empty_device_list_does_not_proceed() {
    assert_eq!(begin_selection(0), Err(SessionError::EnumerationError));
    assert_eq!(begin_selection(3), Ok(()));
}

#[test]
fn session_holder_tracks_the_machine() {
    let mut s = CaptureSession::begin("eth0".to_string());
    assert_eq!(s.device, "eth0");
    assert!(!s.is_stopped());
    s.observe(SessionEvent::FrameHandled);
    assert!(!s.is_stopped());
    s.observe(SessionEvent::CaptureEnded);
    assert!(s.is_stopped());
}

#[test]
fn session_states_follow_the_machine() {
    assert_eq!(
        session_transition(SessionState::Idle, SessionEvent::ScanRequested),
        SessionState::SelectingDevice
    );
    assert_eq!(
        session_transition(SessionState::SelectingDevice, SessionEvent::DeviceOpened),
        SessionState::Capturing
    );
    assert_eq!(
        session_transition(SessionState::SelectingDevice, SessionEvent::SessionFailed),
        SessionState::Stopped
    );
    assert_eq!(
        session_transition(SessionState::Capturing, SessionEvent::FrameHandled),
        SessionState::Capturing
    );
    assert_eq!(
        session_transition(SessionState::Capturing, SessionEvent::CaptureEnded),
        SessionState::Stopped
    );
    assert_eq!(
        session_transition(SessionState::Stopped, SessionEvent::FrameHandled),
        SessionState::Stopped
    );
}

#[test]
fn rendered_text_is_exact() {
    assert_eq!(mac_string(0xaabbccddeeff), "aa:bb:cc:dd:ee:ff");
    assert_eq!(mac_string(0x0102030a0b0c), "01:02:03:0a:0b:0c");
    assert_eq!(ipv4_string(0x0a000001), "10.0.0.1");
    assert_eq!(ipv4_string(0xffffffff), "255.255.255.255");
    assert_eq!(ipv4_string(0), "0.0.0.0");
    assert_eq!(
        ipv6_string(0x20010db800000000, 1),
        "2001:0db8:0000:0000:0000:0000:0000:0001"
    );
    assert_eq!(dec_string(0), "0");
    assert_eq!(dec_string(65535), "65535");
    assert_eq!(dec_string(4294967295), "4294967295");
    let u = UdpHeader { src_port: 5353, dst_port: 53, length: 12, checksum: 0xbeef };
    assert_eq!(
        describe_udp(&u),
        "UDP Packet:\n  Source Port: 5353\n  Destination Port: 53\n  Length: 12\n  Checksum: 48879\n"
    );
    let b = mdns_frame();
    let (eth, _) = decode_ethernet(&b).unwrap();
    assert_eq!(
        summary_line(&eth),
        "aa:bb:cc:dd:ee:ff -> 11:22:33:44:55:66 [IPv4]"
    );
}

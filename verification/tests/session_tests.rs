use dhcp_monitor::decoder::DHCPMessageType;
use dhcp_monitor::resolver::DeviceDescriptor;
use dhcp_monitor::session::{
    capture_filter_expression, producer_run, producer_step, DHCPCapture, DHCPError, PollEvent,
    ProducerAction, MAX_CONSECUTIVE_ERRORS,
};

fn device(name: &str, desc: Option<&str>) -> DeviceDescriptor {
    DeviceDescriptor {
        name: name.to_string(),
        desc: desc.map(|d| d.to_string()),
        addresses: Vec::new(),
    }
}

/// A decodable DISCOVER frame: all zero (byte 278 is the pad sentinel) with
/// one message-type record.
fn discover_frame() -> Vec<u8> {
    let mut f = vec![0u8; 300];
    f[278] = 53;
    f[279] = 1;
    f[280] = 1;
    f[281] = 255;
    f
}

/// A frame long enough to probe but with no recognisable options base.
fn undecodable_frame() -> Vec<u8> {
    let mut f = vec![0u8; 300];
    for pos in [278, 282, 286, 290] {
        f[pos] = 9;
    }
    f
}

#[test]
fn start_on_nonexistent_interface_reports_not_found() {
    let cap = DHCPCapture::new("nonexistent-iface").expect("session creation must succeed");
    let devices = vec![device("eth0", Some("Ethernet adapter")), device("lo", Some("Loopback"))];
    let r = cap.resolve_target(&devices);
    assert_eq!(r, Err(DHCPError::InterfaceNotFound));
    assert!(!cap.is_active());
}

#[test]
fn resolve_target_finds_matching_device() {
    let cap = DHCPCapture::new("eth").expect("session creation must succeed");
    let devices = vec![device("lo", Some("Loopback")), device("eth0", Some("Ethernet adapter"))];
    assert_eq!(cap.resolve_target(&devices), Ok(1));
}

#[test]
fn stop_without_session_is_a_no_op() {
    let mut cap = DHCPCapture::new("eth0").expect("session creation must succeed");
    assert!(!cap.is_active());
    cap.stop_capture();
    cap.stop_capture();
    assert!(!cap.is_active());
}

#[test]
fn stop_raises_the_producer_signal() {
    let mut cap = DHCPCapture::new("eth0").expect("session creation must succeed");
    let sig = cap.activate();
    assert!(cap.is_active());
    assert!(!sig.is_cancelled());
    cap.stop_capture();
    assert!(!cap.is_active());
    assert!(sig.is_cancelled());
}

#[test]
fn duplicated_signal_handle_observes_the_raise() {
    let mut cap = DHCPCapture::new("eth0").expect("session creation must succeed");
    let sig = cap.activate();
    let other = sig.duplicate();
    assert!(!other.is_cancelled());
    cap.stop_capture();
    assert!(other.is_cancelled());
}

#[test]
fn filter_expression_is_fixed() {
    assert_eq!(capture_filter_expression(), "udp and (port 67 or port 68)");
}

#[test]
fn producer_step_exits_on_cancellation() {
    let mut errors: u32 = 3;
    let r = producer_step(&PollEvent::Cancelled, &mut errors);
    assert!(matches!(r, ProducerAction::Exit));
    assert_eq!(errors, 3);
}

#[test]
fn producer_step_delivers_decodable_frame_and_resets_errors() {
    let mut errors: u32 = 4;
    let r = producer_step(&PollEvent::Frame(77, discover_frame()), &mut errors);
    assert_eq!(errors, 0);
    match r {
        ProducerAction::Deliver(p) => {
            assert_eq!(p.message_type, DHCPMessageType::Discover);
            assert_eq!(p.timestamp, 77);
        }
        _ => panic!("a decodable frame must be delivered"),
    }
}

#[test]
fn producer_step_drops_undecodable_frame() {
    let mut errors: u32 = 4;
    let r = producer_step(&PollEvent::Frame(0, vec![1, 2, 3]), &mut errors);
    assert_eq!(errors, 0);
    assert!(matches!(r, ProducerAction::Poll));
}

#[test]
fn producer_step_backs_off_past_error_threshold() {
    let mut errors: u32 = 0;
    for k in 1..=MAX_CONSECUTIVE_ERRORS {
        let r = producer_step(&PollEvent::ReadFailed, &mut errors);
        assert_eq!(errors, k);
        assert!(matches!(r, ProducerAction::Poll));
    }
    let r = producer_step(&PollEvent::ReadFailed, &mut errors);
    assert_eq!(errors, MAX_CONSECUTIVE_ERRORS + 1);
    assert!(matches!(r, ProducerAction::Backoff));
    let r = producer_step(&PollEvent::ReadFailed, &mut errors);
    assert!(matches!(r, ProducerAction::Backoff));
}

#[test]
fn run_delivers_decodable_subset_in_order() {
    let events = vec![
        PollEvent::Frame(1, discover_frame()),
        PollEvent::Frame(2, undecodable_frame()),
        PollEvent::ReadFailed,
        PollEvent::Frame(3, discover_frame()),
        PollEvent::Frame(4, vec![0u8; 10]),
        PollEvent::Frame(5, discover_frame()),
    ];
    let out = producer_run(&events);
    let stamps: Vec<i64> = out.iter().map(|p| p.timestamp).collect();
    assert_eq!(stamps, vec![1, 3, 5]);
    for p in &out {
        assert_eq!(p.message_type, DHCPMessageType::Discover);
    }
}

#[test]
fn nothing_reaches_the_sink_after_cancellation() {
    let events = vec![
        PollEvent::Frame(1, discover_frame()),
        PollEvent::Cancelled,
        PollEvent::Frame(2, discover_frame()),
        PollEvent::Frame(3, discover_frame()),
    ];
    let out = producer_run(&events);
    let stamps: Vec<i64> = out.iter().map(|p| p.timestamp).collect();
    assert_eq!(stamps, vec![1]);
}

#[test]
fn empty_run_delivers_nothing() {
    let out = producer_run(&Vec::new());
    assert!(out.is_empty());
}

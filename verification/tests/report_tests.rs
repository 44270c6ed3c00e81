use dhcp_monitor::interfaces::NetworkInterface as CoreInterface;
use dhcp_monitor::report::{get_interfaces, DHCPLog};

fn core_iface(name: &str, active: bool) -> CoreInterface {
    CoreInterface {
        name: name.to_string(),
        description: "desc".to_string(),
        addresses: vec!["10.0.0.1".to_string()],
        is_loopback: false,
        is_active: active,
        real_name: "real".to_string(),
    }
}

#[test]
fn report_carries_activity_as_is_up() {
    let r = get_interfaces(vec![core_iface("a", true), core_iface("b", false)]);
    assert_eq!(r.len(), 2);
    assert_eq!(r[0].name, "a");
    assert!(r[0].is_up);
    assert!(!r[1].is_up);
    assert_eq!(r[1].name, "b");
    assert_eq!(r[0].addresses, vec!["10.0.0.1".to_string()]);
    assert_eq!(r[0].real_name, "real");
}

#[test]
fn log_rows_hold_rendered_fields() {
    let log = DHCPLog {
        timestamp: "2024-01-01T00:00:00+00:00".to_string(),
        packet_type: "Discover".to_string(),
        source_ip: "192.168.1.10".to_string(),
        destination_ip: "192.168.1.1".to_string(),
        option_50: Some("10.0.0.42".to_string()),
        interface: "eth0".to_string(),
        raw_data: "[1, 2, 3]".to_string(),
    };
    assert_eq!(log.packet_type, "Discover");
    assert_eq!(log.option_50.as_deref(), Some("10.0.0.42"));
}

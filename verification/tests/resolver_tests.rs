use dhcp_monitor::resolver::{resolve, DeviceDescriptor};

fn device(name: &str, desc: Option<&str>) -> DeviceDescriptor {
    DeviceDescriptor {
        name: name.to_string(),
        desc: desc.map(|d| d.to_string()),
        addresses: Vec::new(),
    }
}

#[test]
fn exact_name_matches() {
    let devices = vec![device("eth0", None), device("wlan0", None)];
    assert_eq!(resolve("wlan0", &devices), Some(1));
}

#[test]
fn selector_as_name_substring_matches() {
    let devices = vec![device("lo", None), device("enp3s0f1", None)];
    assert_eq!(resolve("p3s0", &devices), Some(1));
}

#[test]
fn selector_as_description_substring_matches() {
    let devices = vec![
        device("\\Device\\NPF_{A}", Some("Realtek Gaming Ethernet")),
        device("\\Device\\NPF_{B}", Some("Intel(R) Wi-Fi 6 AX200")),
    ];
    assert_eq!(resolve("Wi-Fi", &devices), Some(1));
}

#[test]
fn first_match_wins_in_list_order() {
    let devices = vec![
        device("eth0", Some("Ethernet adapter one")),
        device("eth1", Some("Ethernet adapter two")),
    ];
    assert_eq!(resolve("eth", &devices), Some(0));
    assert_eq!(resolve("Ethernet", &devices), Some(0));
}

#[test]
fn missing_description_is_no_match() {
    let devices = vec![device("eth0", None)];
    assert_eq!(resolve("Ethernet adapter", &devices), None);
}

#[test]
fn no_match_yields_none() {
    let devices = vec![device("eth0", Some("Ethernet")), device("lo", Some("Loopback"))];
    assert_eq!(resolve("nonexistent-iface", &devices), None);
    assert_eq!(resolve("anything", &Vec::new()), None);
}

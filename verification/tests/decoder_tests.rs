use dhcp_monitor::addr::Ipv4Address;
use dhcp_monitor::decoder::{
    decode, decode_now, frame_looks_like_dhcp, DHCPMessageType, MIN_FRAME_LEN,
};

/// A frame of `len` zero bytes: byte 278 is then the pad sentinel, so the
/// options base is found there whenever the frame is long enough.
fn zero_frame(len: usize) -> Vec<u8> {
    vec![0u8; len]
}

/// A frame with plausible fixed-header addresses and the given option bytes
/// placed at offset 278.
fn frame_with_options(options: &[u8]) -> Vec<u8> {
    let mut f = zero_frame(400);
    f[26] = 192;
    f[27] = 168;
    f[28] = 1;
    f[29] = 10;
    f[30] = 192;
    f[31] = 168;
    f[32] = 1;
    f[33] = 1;
    for (k, b) in options.iter().enumerate() {
        f[278 + k] = *b;
    }
    f
}

#[test]
fn short_frame_returns_none() {
    assert!(decode(&[], 0).is_none());
    assert!(decode(&zero_frame(1), 0).is_none());
    assert!(decode(&zero_frame(100), 0).is_none());
    assert!(decode(&zero_frame(MIN_FRAME_LEN - 1), 0).is_none());
}

#[test]
fn frame_without_options_base_returns_none() {
    // Long enough overall, but too short for any candidate offset to fit.
    assert!(decode(&zero_frame(250), 0).is_none());
    // Long enough, but no candidate byte is a sentinel.
    let mut f = zero_frame(400);
    for pos in [278, 282, 286, 290] {
        f[pos] = 7;
    }
    assert!(decode(&f, 0).is_none());
}

#[test]
fn discover_frame_decodes() {
    let f = frame_with_options(&[53, 1, 1, 255]);
    let p = decode(&f, 1234).expect("well-formed DISCOVER frame must decode");
    assert_eq!(p.message_type, DHCPMessageType::Discover);
    assert_eq!(p.timestamp, 1234);
    assert_eq!(p.source_ip, Ipv4Address::new(192, 168, 1, 10));
    assert_eq!(p.destination_ip, Ipv4Address::new(192, 168, 1, 1));
    assert_eq!(p.raw_data, f);
}

#[test]
fn option_50_wins_over_option_32() {
    let f = frame_with_options(&[
        53, 1, 3, // request
        32, 4, 10, 0, 0, 99, // legacy requested address
        50, 4, 10, 0, 0, 42, // requested address
        255,
    ]);
    let p = decode(&f, 0).expect("frame must decode");
    assert_eq!(p.message_type, DHCPMessageType::Request);
    assert_eq!(p.option_50, Some(Ipv4Address::new(10, 0, 0, 42)));
}

#[test]
fn option_32_alone_supplies_requested_ip() {
    let f = frame_with_options(&[53, 1, 3, 32, 4, 172, 16, 5, 9, 255]);
    let p = decode(&f, 0).expect("frame must decode");
    assert_eq!(p.option_50, Some(Ipv4Address::new(172, 16, 5, 9)));
}

#[test]
fn no_requested_ip_when_neither_option_present() {
    let f = frame_with_options(&[53, 1, 2, 255]);
    let p = decode(&f, 0).expect("frame must decode");
    assert_eq!(p.message_type, DHCPMessageType::Offer);
    assert_eq!(p.option_50, None);
}

#[test]
fn overrunning_option_does_not_abort_scan() {
    // At the base: padding, then a record whose declared length overruns the
    // frame, then a zero-length record; the scan resynchronises byte by byte
    // and still reads the valid message-type record after them.
    let f = frame_with_options(&[0, 77, 250, 0, 53, 1, 2, 255]);
    let p = decode(&f, 0).expect("decoding must survive malformed records");
    assert_eq!(p.message_type, DHCPMessageType::Offer);
}

#[test]
fn later_message_type_overrides_earlier() {
    let f = frame_with_options(&[53, 1, 1, 53, 1, 5, 255]);
    let p = decode(&f, 0).expect("frame must decode");
    assert_eq!(p.message_type, DHCPMessageType::Ack);
}

#[test]
fn raw_fallback_finds_message_type_after_end_marker() {
    // The structured walk stops at the end marker without seeing option 53;
    // the raw byte-pattern search still finds [53, 1, value] beyond it.
    let f = frame_with_options(&[255, 53, 1, 5]);
    let p = decode(&f, 0).expect("frame must decode");
    assert_eq!(p.message_type, DHCPMessageType::Ack);
}

#[test]
fn raw_fallback_finds_requested_ip_after_end_marker() {
    let f = frame_with_options(&[255, 50, 4, 10, 1, 2, 3]);
    let p = decode(&f, 0).expect("frame must decode");
    assert_eq!(p.option_50, Some(Ipv4Address::new(10, 1, 2, 3)));
}

#[test]
fn raw_fallback_finds_legacy_requested_ip() {
    let f = frame_with_options(&[255, 32, 4, 10, 9, 8, 7]);
    let p = decode(&f, 0).expect("frame must decode");
    assert_eq!(p.option_50, Some(Ipv4Address::new(10, 9, 8, 7)));
}

#[test]
fn absent_message_type_maps_to_unknown() {
    let f = frame_with_options(&[255]);
    let p = decode(&f, 0).expect("frame must decode");
    assert_eq!(p.message_type, DHCPMessageType::Unknown);
}

#[test]
fn later_candidate_offset_is_probed() {
    // Byte 278 is not a sentinel, byte 282 is: the options base moves there.
    let mut f = zero_frame(400);
    f[278] = 9;
    f[282] = 53;
    f[283] = 1;
    f[284] = 6;
    f[285] = 255;
    let p = decode(&f, 0).expect("frame must decode at the second candidate");
    assert_eq!(p.message_type, DHCPMessageType::Nack);
}

#[test]
fn message_type_table_is_exact() {
    assert_eq!(DHCPMessageType::from(1), DHCPMessageType::Discover);
    assert_eq!(DHCPMessageType::from(2), DHCPMessageType::Offer);
    assert_eq!(DHCPMessageType::from(3), DHCPMessageType::Request);
    assert_eq!(DHCPMessageType::from(4), DHCPMessageType::Unknown);
    assert_eq!(DHCPMessageType::from(5), DHCPMessageType::Ack);
    assert_eq!(DHCPMessageType::from(6), DHCPMessageType::Nack);
    assert_eq!(DHCPMessageType::from(7), DHCPMessageType::Decline);
    assert_eq!(DHCPMessageType::from(8), DHCPMessageType::Release);
    assert_eq!(DHCPMessageType::from(9), DHCPMessageType::Inform);
    assert_eq!(DHCPMessageType::from(0), DHCPMessageType::Unknown);
    assert_eq!(DHCPMessageType::from(200), DHCPMessageType::Unknown);
}

#[test]
fn dhcp_candidate_test_reads_fixed_positions() {
    let mut f = vec![0u8; 50];
    f[12] = 8;
    f[13] = 0;
    f[23] = 17;
    f[37] = 67;
    assert!(frame_looks_like_dhcp(&f));
    f[37] = 68;
    assert!(frame_looks_like_dhcp(&f));
    f[37] = 80;
    assert!(!frame_looks_like_dhcp(&f));
    f[35] = 68;
    assert!(frame_looks_like_dhcp(&f));
    f[35] = 0;
    f[37] = 67;
    f[23] = 6;
    assert!(!frame_looks_like_dhcp(&f));
    f[23] = 17;
    f[12] = 0x86;
    assert!(!frame_looks_like_dhcp(&f));
    assert!(!frame_looks_like_dhcp(&vec![0u8; 37]));
}

#[test]
fn decode_now_stamps_a_clock_reading() {
    let f = frame_with_options(&[53, 1, 1, 255]);
    let p = decode_now(&f).expect("frame must decode");
    assert_eq!(p.message_type, DHCPMessageType::Discover);
    // The clock reading is after the start of 2020 in milliseconds.
    assert!(p.timestamp > 1_577_836_800_000);
    assert!(decode_now(&zero_frame(10)).is_none());
}

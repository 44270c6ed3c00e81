//! The DHCP frame decoder: a pure function from raw link-layer frame bytes to
//! a decoded DHCP record, or none when the frame is not recognisable.
//!
//! Because the link, network and transport headers preceding the DHCP payload
//! have variable length, the decoder probes a small ordered set of candidate
//! byte offsets for the options region and accepts the first whose leading
//! byte is a recognised option sentinel. From there it walks the option
//! records structurally, resynchronising one byte at a time over malformed
//! records, and falls back to a raw byte-pattern search for the fields the
//! structured walk did not locate.

use vstd::prelude::*;
use vstd::slice::slice_to_vec;

use crate::addr::Ipv4Address;

verus! {

/// Shortest frame the decoder accepts: anything below this cannot hold an
/// options region.
pub const MIN_FRAME_LEN: usize = 236;

/// Option code carrying the DHCP message type.
pub const OPT_MESSAGE_TYPE: u8 = 53;

/// Option code carrying the requested IPv4 address.
pub const OPT_REQUESTED_IP: u8 = 50;

/// Legacy option code carrying the requested IPv4 address, honoured only when
/// option 50 is absent.
pub const OPT_LEGACY_REQUESTED_IP: u8 = 32;

/// Option code for zero-length padding.
pub const OPT_PAD: u8 = 0;

/// Option code terminating the option scan.
pub const OPT_END: u8 = 255;

/// The DHCP message kinds, derived from the single numeric byte of option 53.
#[derive(Clone, Copy, Debug, PartialEq, Eq, Structural)]
pub enum DHCPMessageType {
    Discover,
    Offer,
    Request,
    Ack,
    Nack,
    Decline,
    Release,
    Inform,
    Unknown,
}

/// The fixed lookup table from the message-type byte to the message kind.
/// Every unlisted byte, including 0 for "absent", maps to `Unknown`.
pub open spec fn spec_message_type_of(value: u8) -> DHCPMessageType {
    if value == 1 {
        DHCPMessageType::Discover
    } else if value == 2 {
        DHCPMessageType::Offer
    } else if value == 3 {
        DHCPMessageType::Request
    } else if value == 5 {
        DHCPMessageType::Ack
    } else if value == 6 {
        DHCPMessageType::Nack
    } else if value == 7 {
        DHCPMessageType::Decline
    } else if value == 8 {
        DHCPMessageType::Release
    } else if value == 9 {
        DHCPMessageType::Inform
    } else {
        DHCPMessageType::Unknown
    }
}

impl From<u8> for DHCPMessageType {
    fn from(value: u8) -> (r: Self) {
        match value {
            1 => DHCPMessageType::Discover,
            2 => DHCPMessageType::Offer,
            3 => DHCPMessageType::Request,
            5 => DHCPMessageType::Ack,
            6 => DHCPMessageType::Nack,
            7 => DHCPMessageType::Decline,
            8 => DHCPMessageType::Release,
            9 => DHCPMessageType::Inform,
            _ => DHCPMessageType::Unknown,
        }
    }
}

impl vstd::std_specs::convert::FromSpecImpl<u8> for DHCPMessageType {
    open spec fn obeys_from_spec() -> bool {
        true
    }

    open spec fn from_spec(v: u8) -> Self {
        spec_message_type_of(v)
    }
}

/// A decoded DHCP record. Immutable once constructed; produced exclusively by
/// `decode` and handed to the caller-supplied sink.
#[derive(Clone, Debug)]
pub struct DHCPPacket {
    /// Wall-clock capture time, in milliseconds since the Unix epoch.
    pub timestamp: i64,
    pub message_type: DHCPMessageType,
    pub source_ip: Ipv4Address,
    pub destination_ip: Ipv4Address,
    pub option_50: Option<Ipv4Address>,
    /// The original frame bytes, retained verbatim.
    pub raw_data: Vec<u8>,
}

/// The mathematical value of a decoded DHCP record.
pub struct PacketModel {
    pub timestamp: int,
    pub message_type: DHCPMessageType,
    pub source_ip: Ipv4Address,
    pub destination_ip: Ipv4Address,
    pub option_50: Option<Ipv4Address>,
    pub raw_data: Seq<u8>,
}

impl View for DHCPPacket {
    type V = PacketModel;

    open spec fn view(&self) -> PacketModel {
        PacketModel {
            timestamp: self.timestamp as int,
            message_type: self.message_type,
            source_ip: self.source_ip,
            destination_ip: self.destination_ip,
            option_50: self.option_50,
            raw_data: self.raw_data@,
        }
    }
}

impl DeepView for DHCPPacket {
    type V = PacketModel;

    open spec fn deep_view(&self) -> PacketModel {
        self.view()
    }
}

/// What the structured option walk tracks: the last-seen message-type byte,
/// the last-seen option 50 value, and the last-seen option 32 value.
#[derive(Clone, Copy, Debug, PartialEq, Eq)]
pub struct OptionScanState {
    pub message_type: Option<u8>,
    pub requested: Option<Ipv4Address>,
    pub legacy: Option<Ipv4Address>,
}

/// The scan state before any option record has been read.
pub open spec fn empty_scan_state() -> OptionScanState {
    OptionScanState { message_type: None, requested: None, legacy: None }
}

/// The four octets of `frame` starting at `i`, as an IPv4 address.
pub open spec fn ipv4_at(frame: Seq<u8>, i: int) -> Ipv4Address
    recommends
        0 <= i,
        i + 4 <= frame.len(),
{
    Ipv4Address { o0: frame[i], o1: frame[i + 1], o2: frame[i + 2], o3: frame[i + 3] }
}

/// A byte that may open the options region: a message-type record, padding,
/// or the end marker.
pub open spec fn is_option_sentinel(b: u8) -> bool {
    b == OPT_MESSAGE_TYPE || b == OPT_PAD || b == OPT_END
}

/// Whether the candidate byte offset `pos` is accepted as the options-base
/// offset of `frame`.
pub open spec fn candidate_ok(frame: Seq<u8>, pos: int) -> bool {
    pos + 3 < frame.len() && is_option_sentinel(frame[pos])
}

/// The options-base offset: the first of the candidate offsets 278, 282, 286
/// and 290 whose leading byte is an option sentinel, if any. This is an
/// accepted heuristic, not a header-computed offset.
pub open spec fn spec_options_base(frame: Seq<u8>) -> Option<int> {
    if candidate_ok(frame, 278) {
        Some(278int)
    } else if candidate_ok(frame, 282) {
        Some(282int)
    } else if candidate_ok(frame, 286) {
        Some(286int)
    } else if candidate_ok(frame, 290) {
        Some(290int)
    } else {
        None
    }
}

/// How one well-formed option record at `i` updates the scan state. A later
/// occurrence of a tracked option overrides an earlier one.
pub open spec fn spec_record_update(frame: Seq<u8>, i: int, st: OptionScanState) -> OptionScanState
    recommends
        0 <= i,
        i + 2 <= frame.len(),
{
    let code = frame[i];
    let olen = frame[i + 1] as int;
    if code == OPT_MESSAGE_TYPE && olen == 1 {
        OptionScanState { message_type: Some(frame[i + 2]), ..st }
    } else if code == OPT_REQUESTED_IP && olen == 4 {
        OptionScanState { requested: Some(ipv4_at(frame, i + 2)), ..st }
    } else if code == OPT_LEGACY_REQUESTED_IP && olen == 4 {
        OptionScanState { legacy: Some(ipv4_at(frame, i + 2)), ..st }
    } else {
        st
    }
}

/// The structured option scan from position `i` with state `st`: records are
/// read as (code, length, value); code 0 skips one byte, code 255 ends the
/// scan, and a record whose length is zero or would overrun the frame is
/// malformed, so the scan resynchronises by exactly one byte.
pub open spec fn spec_scan_from(frame: Seq<u8>, i: int, st: OptionScanState) -> OptionScanState
    decreases frame.len() - i,
{
    if i < 0 || i + 1 >= frame.len() {
        st
    } else {
        let code = frame[i];
        let olen = frame[i + 1] as int;
        if code == OPT_END {
            st
        } else if code == OPT_PAD {
            spec_scan_from(frame, i + 1, st)
        } else if olen == 0 || i + 2 + olen > frame.len() {
            spec_scan_from(frame, i + 1, st)
        } else {
            spec_scan_from(frame, i + 2 + olen, spec_record_update(frame, i, st))
        }
    }
}

/// The structured option scan of `frame` starting at the options-base
/// offset `base`.
pub open spec fn spec_scan(frame: Seq<u8>, base: int) -> OptionScanState {
    spec_scan_from(frame, base, empty_scan_state())
}

/// The raw fallback search for the message type: the value byte of the first
/// literal pattern [53, 1, value] at or after position `j`, if any.
pub open spec fn spec_raw_message_byte(frame: Seq<u8>, j: int) -> Option<u8>
    decreases frame.len() - j,
{
    if j < 0 || j + 2 >= frame.len() {
        None
    } else if frame[j] == OPT_MESSAGE_TYPE && frame[j + 1] == 1 {
        Some(frame[j + 2])
    } else {
        spec_raw_message_byte(frame, j + 1)
    }
}

/// The raw fallback search for a four-byte address option: the value of the
/// first literal pattern [code, 4, v0, v1, v2, v3] at or after position `j`,
/// if any.
pub open spec fn spec_raw_ipv4(frame: Seq<u8>, j: int, code: u8) -> Option<Ipv4Address>
    decreases frame.len() - j,
{
    if j < 0 || j + 5 >= frame.len() {
        None
    } else if frame[j] == code && frame[j + 1] == 4 {
        Some(ipv4_at(frame, j + 2))
    } else {
        spec_raw_ipv4(frame, j + 1, code)
    }
}

/// The message-type byte of `frame` given options base `base`: the structured
/// walk's result, else the raw fallback's, else 0 (which maps to `Unknown`).
pub open spec fn spec_message_byte(frame: Seq<u8>, base: int) -> u8 {
    match spec_scan(frame, base).message_type {
        Some(b) => b,
        None => match spec_raw_message_byte(frame, base) {
            Some(b) => b,
            None => 0u8,
        },
    }
}

/// The requested IPv4 address of `frame` given options base `base`: option 50
/// from the structured walk, else option 32 from the structured walk, else
/// the raw fallback for option 50, else the raw fallback for option 32.
pub open spec fn spec_requested_ip(frame: Seq<u8>, base: int) -> Option<Ipv4Address> {
    let st = spec_scan(frame, base);
    if st.requested is Some {
        st.requested
    } else if st.legacy is Some {
        st.legacy
    } else if spec_raw_ipv4(frame, base, OPT_REQUESTED_IP) is Some {
        spec_raw_ipv4(frame, base, OPT_REQUESTED_IP)
    } else {
        spec_raw_ipv4(frame, base, OPT_LEGACY_REQUESTED_IP)
    }
}

/// What `decode` returns on `frame` with capture time `ts`: none when the
/// frame is shorter than the minimum viable length or no options-base offset
/// is found, and otherwise the record assembled from the option scans, the
/// fixed source and destination address positions, and the frame itself.
pub open spec fn spec_decode(frame: Seq<u8>, ts: int) -> Option<PacketModel> {
    if frame.len() < MIN_FRAME_LEN {
        None
    } else {
        match spec_options_base(frame) {
            None => None,
            Some(base) => Some(
                PacketModel {
                    timestamp: ts,
                    message_type: spec_message_type_of(spec_message_byte(frame, base)),
                    source_ip: ipv4_at(frame, 26),
                    destination_ip: ipv4_at(frame, 30),
                    option_50: spec_requested_ip(frame, base),
                    raw_data: frame,
                },
            ),
        }
    }
}

/// A frame shorter than the minimum viable length never decodes, whatever its
/// contents and whatever the capture time.
pub proof fn lemma_short_frame_never_decodes(frame: Seq<u8>, ts: int)
    requires
        frame.len() < MIN_FRAME_LEN,
    ensures
        spec_decode(frame, ts) is None,
{
}

/// When the structured option walk finds option 50, the decoded requested
/// address is option 50's value; a present option 32 is ignored.
pub proof fn lemma_requested_ip_prefers_option_50(frame: Seq<u8>, ts: int)
    requires
        frame.len() >= MIN_FRAME_LEN,
        spec_options_base(frame) matches Some(base) && spec_scan(frame, base).requested is Some,
    ensures
        spec_decode(frame, ts) matches Some(p) && p.option_50 == spec_scan(
            frame,
            spec_options_base(frame)->Some_0,
        ).requested,
{
}

/// When the structured option walk finds no option 50 but finds option 32, the
/// decoded requested address is option 32's value.
pub proof fn lemma_requested_ip_falls_back_to_option_32(frame: Seq<u8>, ts: int)
    requires
        frame.len() >= MIN_FRAME_LEN,
        spec_options_base(frame) matches Some(base) && spec_scan(frame, base).requested is None
            && spec_scan(frame, base).legacy is Some,
    ensures
        spec_decode(frame, ts) matches Some(p) && p.option_50 == spec_scan(
            frame,
            spec_options_base(frame)->Some_0,
        ).legacy,
{
}

/// A record whose declared length is zero or would overrun the frame does not
/// end the option walk: the walk resynchronises by exactly one byte and goes
/// on with the state it had, so later well-formed records are still read.
pub proof fn lemma_malformed_record_resyncs(frame: Seq<u8>, i: int, st: OptionScanState)
    requires
        0 <= i,
        i + 1 < frame.len(),
        frame[i] != OPT_PAD,
        frame[i] != OPT_END,
        frame[i + 1] == 0 || i + 2 + frame[i + 1] > frame.len(),
    ensures
        spec_scan_from(frame, i, st) == spec_scan_from(frame, i + 1, st),
{
}

/// Probes the candidate options-base offsets in order and returns the first
/// accepted one.
fn find_options_base(frame: &[u8]) -> (r: Option<usize>)
    requires
        frame@.len() >= MIN_FRAME_LEN,
    ensures
        match r {
            Some(b) => Some(b as int) == spec_options_base(frame@),
            None => spec_options_base(frame@) is None,
        },
{
    let len = frame.len();
    if 278 < len - 3 && is_sentinel_byte(frame[278]) {
        Some(278)
    } else if 282 < len - 3 && is_sentinel_byte(frame[282]) {
        Some(282)
    } else if 286 < len - 3 && is_sentinel_byte(frame[286]) {
        Some(286)
    } else if 290 < len - 3 && is_sentinel_byte(frame[290]) {
        Some(290)
    } else {
        None
    }
}

fn is_sentinel_byte(b: u8) -> (r: bool)
    ensures
        r == is_option_sentinel(b),
{
    b == OPT_MESSAGE_TYPE || b == OPT_PAD || b == OPT_END
}

/// The structured option walk over `frame` from `base`.
fn scan_options(frame: &[u8], base: usize) -> (st: OptionScanState)
    requires
        frame@.len() >= MIN_FRAME_LEN,
        base <= frame@.len(),
    ensures
        st == spec_scan(frame@, base as int),
{
    let len = frame.len();
    let mut st = OptionScanState { message_type: None, requested: None, legacy: None };
    let mut i = base;
    while i < len - 1
        invariant
            len == frame@.len(),
            len >= MIN_FRAME_LEN,
            i <= len,
            spec_scan_from(frame@, i as int, st) == spec_scan(frame@, base as int),
        ensures
            st == spec_scan(frame@, base as int),
        decreases len - i,
    {
        let code = frame[i];
        let olen = frame[i + 1];
        if code == OPT_END {
            break;
        }
        if code == OPT_PAD {
            i = i + 1;
            continue;
        }
        if olen == 0 || olen as usize > len - 2 - i {
            // Malformed record: resynchronise by one byte.
            i = i + 1;
            continue;
        }
        if code == OPT_MESSAGE_TYPE && olen == 1 {
            st = OptionScanState { message_type: Some(frame[i + 2]), ..st };
        } else if code == OPT_REQUESTED_IP && olen == 4 {
            st = OptionScanState { requested: Some(read_ipv4(frame, i + 2)), ..st };
        } else if code == OPT_LEGACY_REQUESTED_IP && olen == 4 {
            st = OptionScanState { legacy: Some(read_ipv4(frame, i + 2)), ..st };
        }
        i = i + 2 + olen as usize;
    }
    st
}

/// Reads the four octets at `i` as an IPv4 address.
fn read_ipv4(frame: &[u8], i: usize) -> (r: Ipv4Address)
    requires
        i + 4 <= frame@.len(),
    ensures
        r == ipv4_at(frame@, i as int),
{
    Ipv4Address::new(frame[i], frame[i + 1], frame[i + 2], frame[i + 3])
}

/// The raw fallback search for the literal pattern [53, 1, value].
fn raw_message_byte(frame: &[u8], base: usize) -> (r: Option<u8>)
    ensures
        r == spec_raw_message_byte(frame@, base as int),
{
    let len = frame.len();
    let mut j = base;
    loop
        invariant
            len == frame@.len(),
            spec_raw_message_byte(frame@, j as int) == spec_raw_message_byte(frame@, base as int),
            base <= j,
        decreases len - j,
    {
        if len < 3 || j >= len - 2 {
            return None;
        }
        if frame[j] == OPT_MESSAGE_TYPE && frame[j + 1] == 1 {
            return Some(frame[j + 2]);
        }
        j = j + 1;
    }
}

/// The raw fallback search for the literal pattern [code, 4, v0, v1, v2, v3].
fn raw_ipv4(frame: &[u8], base: usize, code: u8) -> (r: Option<Ipv4Address>)
    ensures
        r == spec_raw_ipv4(frame@, base as int, code),
{
    let len = frame.len();
    let mut j = base;
    loop
        invariant
            len == frame@.len(),
            spec_raw_ipv4(frame@, j as int, code) == spec_raw_ipv4(frame@, base as int, code),
            base <= j,
        decreases len - j,
    {
        if len < 6 || j >= len - 5 {
            return None;
        }
        if frame[j] == code && frame[j + 1] == 4 {
            return Some(read_ipv4(frame, j + 2));
        }
        j = j + 1;
    }
}

/// Decodes one raw link-layer frame into a DHCP record, stamping it with the
/// given capture time; returns none when the frame is too short or no
/// options-base offset is found.
pub fn decode(frame: &[u8], timestamp_millis: i64) -> (r: Option<DHCPPacket>)
    ensures
        match r {
            Some(p) => Some(p@) == spec_decode(frame@, timestamp_millis as int),
            None => spec_decode(frame@, timestamp_millis as int) is None,
        },
{
    if frame.len() < MIN_FRAME_LEN {
        return None;
    }
    let base = match find_options_base(frame) {
        Some(b) => b,
        None => {
            return None;
        },
    };
    let st = scan_options(frame, base);
    let message_byte = match st.message_type {
        Some(b) => b,
        None => match raw_message_byte(frame, base) {
            Some(b) => b,
            None => 0u8,
        },
    };
    let requested = match st.requested {
        Some(ip) => Some(ip),
        None => match st.legacy {
            Some(ip) => Some(ip),
            None => match raw_ipv4(frame, base, OPT_REQUESTED_IP) {
                Some(ip) => Some(ip),
                None => raw_ipv4(frame, base, OPT_LEGACY_REQUESTED_IP),
            },
        },
    };
    let source_ip = read_ipv4(frame, 26);
    let destination_ip = read_ipv4(frame, 30);
    Some(
        DHCPPacket {
            timestamp: timestamp_millis,
            message_type: DHCPMessageType::from(message_byte),
            source_ip,
            destination_ip,
            option_50: requested,
            raw_data: slice_to_vec(frame),
        },
    )
}

/// Whether the fixed header positions of a frame look like IPv4 UDP traffic
/// on a DHCP port: the quick diagnostic test made on each captured frame
/// before decoding is attempted.
pub open spec fn spec_is_dhcp_candidate(frame: Seq<u8>) -> bool {
    frame.len() >= 38 && (frame[12] as int) * 256 + (frame[13] as int) == 0x0800 && frame[23]
        == 17 && {
        let src_port = (frame[34] as int) * 256 + (frame[35] as int);
        let dst_port = (frame[36] as int) * 256 + (frame[37] as int);
        src_port == 67 || src_port == 68 || dst_port == 67 || dst_port == 68
    }
}

/// Whether a frame looks like IPv4 UDP traffic on a DHCP port, judged from
/// the fixed header positions alone.
pub fn frame_looks_like_dhcp(frame: &[u8]) -> (r: bool)
    ensures
        r == spec_is_dhcp_candidate(frame@),
{
    if frame.len() < 38 {
        return false;
    }
    let eth_type = (frame[12] as u32) * 256 + (frame[13] as u32);
    if eth_type != 0x0800 {
        return false;
    }
    if frame[23] != 17 {
        return false;
    }
    let src_port = (frame[34] as u32) * 256 + (frame[35] as u32);
    let dst_port = (frame[36] as u32) * 256 + (frame[37] as u32);
    src_port == 67 || src_port == 68 || dst_port == 67 || dst_port == 68
}

/// Relies on std::time::SystemTime::now: the current wall-clock time in
/// milliseconds since the Unix epoch. The value depends on the clock, so
/// nothing is claimed about it; a clock before the epoch reads as the epoch,
/// and one beyond the range of the result type as its largest value, so no
/// reading aborts.
#[verifier::external_body]
fn now_millis() -> i64 {
    match std::time::SystemTime::now().duration_since(std::time::UNIX_EPOCH) {
        Ok(d) => i64::try_from(d.as_millis()).unwrap_or(i64::MAX),
        Err(_) => 0,
    }
}

/// Decodes one raw link-layer frame, stamping the record with the current
/// wall-clock time. Whether a frame decodes at all does not depend on the
/// clock, only the timestamp field does.
pub fn decode_now(frame: &[u8]) -> (r: Option<DHCPPacket>)
    ensures
        match r {
            Some(p) => Some(p@) == spec_decode(frame@, p@.timestamp),
            None => forall|ts: int| spec_decode(frame@, ts) is None,
        },
{
    let ts = now_millis();
    let r = decode(frame, ts);
    proof {
        if spec_decode(frame@, ts as int) is None {
            assert(forall|t: int| spec_decode(frame@, t) is None);
        }
    }
    r
}

} // verus!

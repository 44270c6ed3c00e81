//! Live DHCP traffic monitoring: a capture-session state machine with
//! cooperative start/stop, a decoder from raw link-layer frames to structured
//! DHCP records, an interface resolver and naming layer, and the release
//! evaluation behind the update check. The device reads, threads and HTTP
//! calls themselves live with the embedding program; every decision they feed
//! is specified and verified here.

pub mod addr;
pub mod decoder;
pub mod interfaces;
pub mod report;
pub mod resolver;
pub mod session;
pub mod text;
pub mod update;

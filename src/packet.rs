//! The two packet layers: raw packets on the transport, and virtual packets
//! carried in them.
pub mod parser;
pub mod raw;
pub mod vtl;

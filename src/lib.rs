//! Host side of the DUSB calculator link protocol: raw packet framing with
//! buffer-size flow control, virtual packets split over raw packets, the
//! typed message catalogue, and the per-operation session logic.
pub mod dusb;
pub mod error;
pub mod packet;
pub mod session;
pub mod util;

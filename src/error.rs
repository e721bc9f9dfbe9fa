//! The errors of the link, one enum for every layer.
use vstd::prelude::*;

use crate::dusb::{InvalidParameterPayload, UnknownParameterKindError};
use crate::packet::raw;
use crate::packet::vtl;

verus! {

/// Why an exchange with the calculator failed.
#[derive(Debug, Clone, Copy, PartialEq, Eq, Structural)]
pub enum LinkError {
    /// A raw packet carried a kind byte outside the five known kinds.
    UnknownRawPacketKind(raw::UnknownPacketKindError),
    /// A raw packet of one kind came where another was required.
    WrongRawPacketKind(raw::WrongPacketKind),
    /// A raw packet's payload had the wrong length for its kind.
    WrongPacketSize(raw::WrongPacketSize),
    /// An acknowledgment did not carry the fixed sentinel.
    InvalidAcknowledge(raw::InvalidPayload),
    /// A raw packet's payload does not have the shape that its kind needs.
    InvalidPayload(raw::InvalidPayload),
    /// A virtual packet carried an unknown kind.
    UnknownPacketKind(vtl::UnknownPacketKindError),
    /// A virtual packet of one kind came where another was required.
    WrongPacketKind(vtl::WrongPacketKind),
    /// A parameter response named an unknown parameter.
    UnknownParameterKind(UnknownParameterKindError),
    /// A parameter's payload could not be read as its kind requires.
    InvalidParameterPayload(InvalidParameterPayload),
    /// A variable header named an unknown attribute.
    UnknownAttributeKind(u16),
    /// A variable's kind attribute named an unknown kind of contents.
    UnknownVariableKind(u32),
    /// A mode message carried an unknown mode.
    UnknownMode(u8),
    /// The calculator reported an error code outside the known set.
    UnknownDeviceError(u16),
    /// The calculator reported an error.
    Device(vtl::DeviceError),
    /// A variable header without the kind attribute.
    MissingKindAttribute,
    /// A payload ended before all of its fields were read.
    TruncatedPayload,
    /// A value is too long for its length field.
    PayloadTooLarge,
    /// This kind of message or contents cannot be encoded or decoded.
    Unsupported,
    /// No raw packet can be sent while the negotiated size is zero.
    ZeroPacketSize,
}

} // verus!

//! Virtual packets: the logical messages of the protocol, their payloads, and
//! how they travel in raw packets.
use vstd::prelude::*;

use crate::dusb::{
    Mode, Parameter, ParameterKind, ParameterView, Variable, VariableAttribute,
    VariableAttributeKind, VariableView,
};
use crate::error::LinkError;
use crate::packet::parser::{
    parameter_request, parameter_response, parameter_views, spec_parameter_request,
    spec_parameter_response, spec_variable_header, variable_header,
};
use crate::packet::raw::{
    InvalidPayload, RawPacketKind, RawPackets, WrongPacketKind as RawWrongPacketKind, ACK_SENTINEL,
};
use crate::session::Calculator;
use crate::util::{
    be16_at, be16_bytes, be32_at, be32_bytes, lemma_be16_round_trip, lemma_be32_round_trip,
    push_u16_be, push_u32_be, read_u16_be, read_u32_be,
};
use vstd::slice::slice_to_vec;
use vstd::utf8::encode_utf8;

verus! {

/// The kind of a virtual packet, by its 16-bit id.
#[derive(Debug, Clone, Copy, PartialEq, Eq, Structural)]
pub enum VirtualPacketKind {
    SetMode,
    ParameterRequest,
    ParameterResponse,
    DirectoryRequest,
    VariableHeader,
    RequestToSend,
    RequestVariable,
    VariableContents,
    SetModeAcknowledge,
    DataAcknowledge,
    Wait,
    EndOfTransmission,
    Error,
}

impl VirtualPacketKind {
    pub open spec fn spec_id(self) -> u16 {
        match self {
            VirtualPacketKind::SetMode => 0x0001,
            VirtualPacketKind::ParameterRequest => 0x0007,
            VirtualPacketKind::ParameterResponse => 0x0008,
            VirtualPacketKind::DirectoryRequest => 0x0009,
            VirtualPacketKind::VariableHeader => 0x000a,
            VirtualPacketKind::RequestToSend => 0x000b,
            VirtualPacketKind::RequestVariable => 0x000c,
            VirtualPacketKind::VariableContents => 0x000d,
            VirtualPacketKind::SetModeAcknowledge => 0x0012,
            VirtualPacketKind::DataAcknowledge => 0xaa00,
            VirtualPacketKind::Wait => 0xbb00,
            VirtualPacketKind::EndOfTransmission => 0xdd00,
            VirtualPacketKind::Error => 0xee00,
        }
    }

    pub open spec fn spec_from_id(id: u16) -> Option<VirtualPacketKind> {
        if id == 0x0001 {
            Some(VirtualPacketKind::SetMode)
        } else if id == 0x0007 {
            Some(VirtualPacketKind::ParameterRequest)
        } else if id == 0x0008 {
            Some(VirtualPacketKind::ParameterResponse)
        } else if id == 0x0009 {
            Some(VirtualPacketKind::DirectoryRequest)
        } else if id == 0x000a {
            Some(VirtualPacketKind::VariableHeader)
        } else if id == 0x000b {
            Some(VirtualPacketKind::RequestToSend)
        } else if id == 0x000c {
            Some(VirtualPacketKind::RequestVariable)
        } else if id == 0x000d {
            Some(VirtualPacketKind::VariableContents)
        } else if id == 0x0012 {
            Some(VirtualPacketKind::SetModeAcknowledge)
        } else if id == 0xaa00 {
            Some(VirtualPacketKind::DataAcknowledge)
        } else if id == 0xbb00 {
            Some(VirtualPacketKind::Wait)
        } else if id == 0xdd00 {
            Some(VirtualPacketKind::EndOfTransmission)
        } else if id == 0xee00 {
            Some(VirtualPacketKind::Error)
        } else {
            None
        }
    }

    pub fn id(self) -> (r: u16)
        ensures
            r == self.spec_id(),
    {
        match self {
            VirtualPacketKind::SetMode => 0x0001,
            VirtualPacketKind::ParameterRequest => 0x0007,
            VirtualPacketKind::ParameterResponse => 0x0008,
            VirtualPacketKind::DirectoryRequest => 0x0009,
            VirtualPacketKind::VariableHeader => 0x000a,
            VirtualPacketKind::RequestToSend => 0x000b,
            VirtualPacketKind::RequestVariable => 0x000c,
            VirtualPacketKind::VariableContents => 0x000d,
            VirtualPacketKind::SetModeAcknowledge => 0x0012,
            VirtualPacketKind::DataAcknowledge => 0xaa00,
            VirtualPacketKind::Wait => 0xbb00,
            VirtualPacketKind::EndOfTransmission => 0xdd00,
            VirtualPacketKind::Error => 0xee00,
        }
    }

    pub fn from_id(id: u16) -> (r: Option<VirtualPacketKind>)
        ensures
            r == Self::spec_from_id(id),
    {
        if id == 0x0001 {
            Some(VirtualPacketKind::SetMode)
        } else if id == 0x0007 {
            Some(VirtualPacketKind::ParameterRequest)
        } else if id == 0x0008 {
            Some(VirtualPacketKind::ParameterResponse)
        } else if id == 0x0009 {
            Some(VirtualPacketKind::DirectoryRequest)
        } else if id == 0x000a {
            Some(VirtualPacketKind::VariableHeader)
        } else if id == 0x000b {
            Some(VirtualPacketKind::RequestToSend)
        } else if id == 0x000c {
            Some(VirtualPacketKind::RequestVariable)
        } else if id == 0x000d {
            Some(VirtualPacketKind::VariableContents)
        } else if id == 0x0012 {
            Some(VirtualPacketKind::SetModeAcknowledge)
        } else if id == 0xaa00 {
            Some(VirtualPacketKind::DataAcknowledge)
        } else if id == 0xbb00 {
            Some(VirtualPacketKind::Wait)
        } else if id == 0xdd00 {
            Some(VirtualPacketKind::EndOfTransmission)
        } else if id == 0xee00 {
            Some(VirtualPacketKind::Error)
        } else {
            None
        }
    }
}

/// An error that the calculator reports, by its 16-bit code.
#[derive(Debug, Clone, Copy, PartialEq, Eq, Structural)]
pub enum DeviceError {
    /// Invalid argument.
    InvalidArgument,
    /// The app cannot be deleted.
    AppDeleteFail,
    /// Transmission error or invalid code.
    InvalidCode,
    /// Basic mode used while in boot mode.
    WrongMode,
    /// Out of memory.
    OutOfMemory,
    /// Invalid folder name.
    InvalidFolderName,
    /// Invalid name.
    InvalidName,
    /// Busy.
    Busy,
    /// The variable is locked or archived.
    VariableUnwritable,
    /// The mode token was too small.
    ModeTooSmall,
    /// The mode token was too large.
    ModeTooLarge,
    /// Invalid parameter id or data.
    InvalidParameter,
    /// Remote control.
    RemoteControl,
    /// Battery too low to transfer an OS.
    BatteryLow,
    /// The handheld is busy (not at HOME).
    HandheldBusy,
}

impl DeviceError {
    pub open spec fn spec_code(self) -> u16 {
        match self {
            DeviceError::InvalidArgument => 0x04,
            DeviceError::AppDeleteFail => 0x06,
            DeviceError::InvalidCode => 0x08,
            DeviceError::WrongMode => 0x09,
            DeviceError::OutOfMemory => 0x0c,
            DeviceError::InvalidFolderName => 0x0d,
            DeviceError::InvalidName => 0x0e,
            DeviceError::Busy => 0x11,
            DeviceError::VariableUnwritable => 0x12,
            DeviceError::ModeTooSmall => 0x1c,
            DeviceError::ModeTooLarge => 0x1d,
            DeviceError::InvalidParameter => 0x22,
            DeviceError::RemoteControl => 0x29,
            DeviceError::BatteryLow => 0x2b,
            DeviceError::HandheldBusy => 0x34,
        }
    }

    pub open spec fn spec_from_code(id: u16) -> Option<DeviceError> {
        if id == 0x04 {
            Some(DeviceError::InvalidArgument)
        } else if id == 0x06 {
            Some(DeviceError::AppDeleteFail)
        } else if id == 0x08 {
            Some(DeviceError::InvalidCode)
        } else if id == 0x09 {
            Some(DeviceError::WrongMode)
        } else if id == 0x0c {
            Some(DeviceError::OutOfMemory)
        } else if id == 0x0d {
            Some(DeviceError::InvalidFolderName)
        } else if id == 0x0e {
            Some(DeviceError::InvalidName)
        } else if id == 0x11 {
            Some(DeviceError::Busy)
        } else if id == 0x12 {
            Some(DeviceError::VariableUnwritable)
        } else if id == 0x1c {
            Some(DeviceError::ModeTooSmall)
        } else if id == 0x1d {
            Some(DeviceError::ModeTooLarge)
        } else if id == 0x22 {
            Some(DeviceError::InvalidParameter)
        } else if id == 0x29 {
            Some(DeviceError::RemoteControl)
        } else if id == 0x2b {
            Some(DeviceError::BatteryLow)
        } else if id == 0x34 {
            Some(DeviceError::HandheldBusy)
        } else {
            None
        }
    }

    pub fn code(self) -> (r: u16)
        ensures
            r == self.spec_code(),
    {
        match self {
            DeviceError::InvalidArgument => 0x04,
            DeviceError::AppDeleteFail => 0x06,
            DeviceError::InvalidCode => 0x08,
            DeviceError::WrongMode => 0x09,
            DeviceError::OutOfMemory => 0x0c,
            DeviceError::InvalidFolderName => 0x0d,
            DeviceError::InvalidName => 0x0e,
            DeviceError::Busy => 0x11,
            DeviceError::VariableUnwritable => 0x12,
            DeviceError::ModeTooSmall => 0x1c,
            DeviceError::ModeTooLarge => 0x1d,
            DeviceError::InvalidParameter => 0x22,
            DeviceError::RemoteControl => 0x29,
            DeviceError::BatteryLow => 0x2b,
            DeviceError::HandheldBusy => 0x34,
        }
    }

    pub fn from_code(id: u16) -> (r: Option<DeviceError>)
        ensures
            r == Self::spec_from_code(id),
    {
        if id == 0x04 {
            Some(DeviceError::InvalidArgument)
        } else if id == 0x06 {
            Some(DeviceError::AppDeleteFail)
        } else if id == 0x08 {
            Some(DeviceError::InvalidCode)
        } else if id == 0x09 {
            Some(DeviceError::WrongMode)
        } else if id == 0x0c {
            Some(DeviceError::OutOfMemory)
        } else if id == 0x0d {
            Some(DeviceError::InvalidFolderName)
        } else if id == 0x0e {
            Some(DeviceError::InvalidName)
        } else if id == 0x11 {
            Some(DeviceError::Busy)
        } else if id == 0x12 {
            Some(DeviceError::VariableUnwritable)
        } else if id == 0x1c {
            Some(DeviceError::ModeTooSmall)
        } else if id == 0x1d {
            Some(DeviceError::ModeTooLarge)
        } else if id == 0x22 {
            Some(DeviceError::InvalidParameter)
        } else if id == 0x29 {
            Some(DeviceError::RemoteControl)
        } else if id == 0x2b {
            Some(DeviceError::BatteryLow)
        } else if id == 0x34 {
            Some(DeviceError::HandheldBusy)
        } else {
            None
        }
    }
}

/// A virtual packet of an unknown kind.
#[derive(Debug, Clone, Copy, PartialEq, Eq, Structural)]
pub struct UnknownPacketKindError(pub u16);

/// A virtual packet of one kind came where another was required.
#[derive(Debug, Clone, Copy, PartialEq, Eq, Structural)]
pub struct WrongPacketKind {
    pub expected: VirtualPacketKind,
    pub received: VirtualPacketKind,
}

/// What a sender does with a raw packet that came while it awaited an
/// acknowledgment.
#[derive(Debug, Clone, PartialEq)]
pub enum Acknowledgment {
    /// The fragment was acknowledged: send the next one.
    Received,
    /// Send this answer, then wait again.
    Respond(RawPackets),
}

/// The fixed bytes that close a directory request.
pub open spec fn directory_trailer() -> Seq<u8> {
    seq![0u8, 1u8, 0u8, 1u8, 0u8, 1u8, 1u8]
}

/// The fixed bytes that follow the name in a variable request.
pub open spec fn request_filler() -> Seq<u8> {
    seq![0u8, 1u8, 0xffu8, 0xffu8, 0xffu8, 0xffu8]
}

/// A logical message of the protocol.
#[derive(Debug, Clone, PartialEq)]
pub enum VirtualPacket {
    SetMode(Mode),
    ParameterRequest(Vec<ParameterKind>),
    ParameterResponse(Vec<Parameter>),
    DirectoryRequest(Vec<VariableAttributeKind>),
    VariableHeader(Variable),
    /// Announces a variable that the host is about to send. Its payload has
    /// the layout of a variable header.
    RequestToSend(Variable),
    /// A variable's name, the attributes asked for, and attributes given.
    RequestVariable(String, Vec<VariableAttributeKind>, Vec<VariableAttribute>),
    VariableContents(Vec<u8>),
    SetModeAcknowledge,
    /// The calculator's answer to a variable's contents.
    DataAcknowledge,
    /// The calculator asks for a pause of this many milliseconds.
    Wait(u32),
    EndOfTransmission,
    Error(DeviceError),
}

/// A virtual packet as values.
pub enum VirtualPacketView {
    SetMode(Mode),
    ParameterRequest(Seq<ParameterKind>),
    ParameterResponse(Seq<ParameterView>),
    DirectoryRequest(Seq<VariableAttributeKind>),
    VariableHeader(VariableView),
    RequestToSend(VariableView),
    RequestVariable(Seq<char>, Seq<VariableAttributeKind>, Seq<VariableAttribute>),
    VariableContents(Seq<u8>),
    SetModeAcknowledge,
    DataAcknowledge,
    Wait(u32),
    EndOfTransmission,
    Error(DeviceError),
}

impl View for VirtualPacket {
    type V = VirtualPacketView;

    open spec fn view(&self) -> VirtualPacketView {
        match self {
            VirtualPacket::SetMode(m) => VirtualPacketView::SetMode(*m),
            VirtualPacket::ParameterRequest(ids) => VirtualPacketView::ParameterRequest(ids@),
            VirtualPacket::ParameterResponse(ps) => VirtualPacketView::ParameterResponse(
                parameter_views(ps@),
            ),
            VirtualPacket::DirectoryRequest(ids) => VirtualPacketView::DirectoryRequest(ids@),
            VirtualPacket::VariableHeader(v) => VirtualPacketView::VariableHeader(v@),
            VirtualPacket::RequestToSend(v) => VirtualPacketView::RequestToSend(v@),
            VirtualPacket::RequestVariable(name, req, given) => VirtualPacketView::RequestVariable(
                name@,
                req@,
                given@,
            ),
            VirtualPacket::VariableContents(b) => VirtualPacketView::VariableContents(b@),
            VirtualPacket::SetModeAcknowledge => VirtualPacketView::SetModeAcknowledge,
            VirtualPacket::DataAcknowledge => VirtualPacketView::DataAcknowledge,
            VirtualPacket::Wait(ms) => VirtualPacketView::Wait(*ms),
            VirtualPacket::EndOfTransmission => VirtualPacketView::EndOfTransmission,
            VirtualPacket::Error(e) => VirtualPacketView::Error(*e),
        }
    }
}

impl VirtualPacketView {
    pub open spec fn kind(self) -> VirtualPacketKind {
        match self {
            VirtualPacketView::SetMode(_) => VirtualPacketKind::SetMode,
            VirtualPacketView::ParameterRequest(_) => VirtualPacketKind::ParameterRequest,
            VirtualPacketView::ParameterResponse(_) => VirtualPacketKind::ParameterResponse,
            VirtualPacketView::DirectoryRequest(_) => VirtualPacketKind::DirectoryRequest,
            VirtualPacketView::VariableHeader(_) => VirtualPacketKind::VariableHeader,
            VirtualPacketView::RequestToSend(_) => VirtualPacketKind::RequestToSend,
            VirtualPacketView::RequestVariable(..) => VirtualPacketKind::RequestVariable,
            VirtualPacketView::VariableContents(_) => VirtualPacketKind::VariableContents,
            VirtualPacketView::SetModeAcknowledge => VirtualPacketKind::SetModeAcknowledge,
            VirtualPacketView::DataAcknowledge => VirtualPacketKind::DataAcknowledge,
            VirtualPacketView::Wait(_) => VirtualPacketKind::Wait,
            VirtualPacketView::EndOfTransmission => VirtualPacketKind::EndOfTransmission,
            VirtualPacketView::Error(_) => VirtualPacketKind::Error,
        }
    }
}

/// The ids of `s`, each as a big-endian `u16`.
pub open spec fn parameter_ids_bytes(s: Seq<ParameterKind>) -> Seq<u8>
    decreases s.len(),
{
    if s.len() == 0 {
        Seq::empty()
    } else {
        parameter_ids_bytes(s.drop_last()) + be16_bytes(s.last().spec_id())
    }
}

/// The ids of `s`, each as a big-endian `u16`.
pub open spec fn attribute_ids_bytes(s: Seq<VariableAttributeKind>) -> Seq<u8>
    decreases s.len(),
{
    if s.len() == 0 {
        Seq::empty()
    } else {
        attribute_ids_bytes(s.drop_last()) + be16_bytes(s.last().spec_id())
    }
}

/// An attribute given in a request: `id:u16, length:u16, payload`.
pub open spec fn given_attribute_bytes(a: VariableAttribute) -> Seq<u8> {
    be16_bytes(a.spec_kind().spec_id()) + be16_bytes(a.spec_payload().len() as u16)
        + a.spec_payload()
}

pub open spec fn given_attributes_bytes(s: Seq<VariableAttribute>) -> Seq<u8>
    decreases s.len(),
{
    if s.len() == 0 {
        Seq::empty()
    } else {
        given_attributes_bytes(s.drop_last()) + given_attribute_bytes(s.last())
    }
}

/// An attribute in a header: `id:u16, validity:u8 (0), length:u16, payload`.
pub open spec fn header_attribute_bytes(a: VariableAttribute) -> Seq<u8> {
    be16_bytes(a.spec_kind().spec_id()) + seq![0u8] + be16_bytes(a.spec_payload().len() as u16)
        + a.spec_payload()
}

pub open spec fn header_attributes_bytes(s: Seq<VariableAttribute>) -> Seq<u8>
    decreases s.len(),
{
    if s.len() == 0 {
        Seq::empty()
    } else {
        header_attributes_bytes(s.drop_last()) + header_attribute_bytes(s.last())
    }
}

/// A name: the length of its UTF-8 bytes as a big-endian `u16`, then the bytes.
pub open spec fn name_bytes(name: Seq<char>) -> Seq<u8> {
    be16_bytes(encode_utf8(name).len() as u16) + encode_utf8(name)
}

/// A header: the name, a `00` byte, `count:u16` and the attributes.
pub open spec fn header_bytes(v: VariableView) -> Seq<u8> {
    name_bytes(v.name) + seq![0u8] + be16_bytes(v.attributes.len() as u16)
        + header_attributes_bytes(v.attributes)
}

pub open spec fn header_fits(v: VariableView) -> bool {
    encode_utf8(v.name).len() <= 0xffff && v.attributes.len() <= 0xffff
}

/// The payload of a virtual packet, or why it cannot be encoded: a length
/// that overflows its field, or a message that only the calculator sends.
pub open spec fn spec_encode(v: VirtualPacketView) -> Result<Seq<u8>, LinkError> {
    match v {
        VirtualPacketView::SetMode(m) => Ok(m.spec_payload()),
        VirtualPacketView::ParameterRequest(ids) => if ids.len() <= 0xffff {
            Ok(be16_bytes(ids.len() as u16) + parameter_ids_bytes(ids))
        } else {
            Err(LinkError::PayloadTooLarge)
        },
        VirtualPacketView::ParameterResponse(_) => Err(LinkError::Unsupported),
        VirtualPacketView::DirectoryRequest(ids) => if ids.len() <= u32::MAX {
            Ok(be32_bytes(ids.len() as u32) + attribute_ids_bytes(ids) + directory_trailer())
        } else {
            Err(LinkError::PayloadTooLarge)
        },
        VirtualPacketView::VariableHeader(h) => if header_fits(h) {
            Ok(header_bytes(h))
        } else {
            Err(LinkError::PayloadTooLarge)
        },
        VirtualPacketView::RequestToSend(h) => if header_fits(h) {
            Ok(header_bytes(h))
        } else {
            Err(LinkError::PayloadTooLarge)
        },
        VirtualPacketView::RequestVariable(name, req, given) => if encode_utf8(name).len()
            <= 0xffff && req.len() <= 0xffff && given.len() <= 0xffff {
            Ok(
                name_bytes(name) + request_filler() + be16_bytes(req.len() as u16)
                    + attribute_ids_bytes(req) + be16_bytes(given.len() as u16)
                    + given_attributes_bytes(given) + seq![0u8, 0u8],
            )
        } else {
            Err(LinkError::PayloadTooLarge)
        },
        VirtualPacketView::VariableContents(b) => Ok(b),
        VirtualPacketView::SetModeAcknowledge => Ok(Seq::empty()),
        VirtualPacketView::DataAcknowledge => Ok(Seq::empty()),
        VirtualPacketView::Wait(ms) => Ok(be32_bytes(ms)),
        VirtualPacketView::EndOfTransmission => Ok(Seq::empty()),
        VirtualPacketView::Error(e) => Ok(be16_bytes(e.spec_code())),
    }
}

fn parameter_ids_payload(ids: &Vec<ParameterKind>) -> (r: Vec<u8>)
    ensures
        r@ == parameter_ids_bytes(ids@),
{
    let mut out: Vec<u8> = Vec::new();
    let mut i: usize = 0;
    while i < ids.len()
        invariant
            i <= ids@.len(),
            out@ == parameter_ids_bytes(ids@.subrange(0, i as int)),
        decreases ids@.len() - i,
    {
        push_u16_be(&mut out, ids[i].id());
        assert(ids@.subrange(0, i + 1).drop_last() =~= ids@.subrange(0, i as int));
        i = i + 1;
    }
    assert(ids@.subrange(0, i as int) =~= ids@);
    out
}

fn attribute_ids_payload(ids: &Vec<VariableAttributeKind>) -> (r: Vec<u8>)
    ensures
        r@ == attribute_ids_bytes(ids@),
{
    let mut out: Vec<u8> = Vec::new();
    let mut i: usize = 0;
    while i < ids.len()
        invariant
            i <= ids@.len(),
            out@ == attribute_ids_bytes(ids@.subrange(0, i as int)),
        decreases ids@.len() - i,
    {
        push_u16_be(&mut out, ids[i].id());
        assert(ids@.subrange(0, i + 1).drop_last() =~= ids@.subrange(0, i as int));
        i = i + 1;
    }
    assert(ids@.subrange(0, i as int) =~= ids@);
    out
}

fn given_attributes_payload(attrs: &Vec<VariableAttribute>) -> (r: Vec<u8>)
    ensures
        r@ == given_attributes_bytes(attrs@),
{
    let mut out: Vec<u8> = Vec::new();
    let mut i: usize = 0;
    while i < attrs.len()
        invariant
            i <= attrs@.len(),
            out@ == given_attributes_bytes(attrs@.subrange(0, i as int)),
        decreases attrs@.len() - i,
    {
        let a = attrs[i];
        push_u16_be(&mut out, a.kind().id());
        let mut data = a.into_payload();
        push_u16_be(&mut out, data.len() as u16);
        out.append(&mut data);
        assert(attrs@.subrange(0, i + 1).drop_last() =~= attrs@.subrange(0, i as int));
        assert(out@ =~= given_attributes_bytes(attrs@.subrange(0, i + 1)));
        i = i + 1;
    }
    assert(attrs@.subrange(0, i as int) =~= attrs@);
    out
}

fn header_attributes_payload(attrs: &Vec<VariableAttribute>) -> (r: Vec<u8>)
    ensures
        r@ == header_attributes_bytes(attrs@),
{
    let mut out: Vec<u8> = Vec::new();
    let mut i: usize = 0;
    while i < attrs.len()
        invariant
            i <= attrs@.len(),
            out@ == header_attributes_bytes(attrs@.subrange(0, i as int)),
        decreases attrs@.len() - i,
    {
        let a = attrs[i];
        push_u16_be(&mut out, a.kind().id());
        out.push(0u8);
        let mut data = a.into_payload();
        push_u16_be(&mut out, data.len() as u16);
        out.append(&mut data);
        assert(attrs@.subrange(0, i + 1).drop_last() =~= attrs@.subrange(0, i as int));
        assert(out@ =~= header_attributes_bytes(attrs@.subrange(0, i + 1)));
        i = i + 1;
    }
    assert(attrs@.subrange(0, i as int) =~= attrs@);
    out
}

/// Appends a name, or refuses one whose UTF-8 form overflows its length field.
fn push_name(out: &mut Vec<u8>, name: &String) -> (r: Result<(), LinkError>)
    ensures
        encode_utf8(name@).len() <= 0xffff ==> r is Ok && final(out)@ == old(out)@ + name_bytes(
            name@,
        ),
        encode_utf8(name@).len() > 0xffff ==> r == Err::<(), LinkError>(
            LinkError::PayloadTooLarge,
        ),
{
    let bytes = name.as_str().as_bytes();
    let n = bytes.len();
    if n > 0xffff {
        return Err(LinkError::PayloadTooLarge);
    }
    push_u16_be(out, n as u16);
    out.extend_from_slice(bytes);
    assert(final(out)@ =~= old(out)@ + name_bytes(name@));
    Ok(())
}

fn header_payload(v: &Variable) -> (r: Result<Vec<u8>, LinkError>)
    ensures
        header_fits(v@) ==> r is Ok && r.unwrap()@ == header_bytes(v@),
        !header_fits(v@) ==> r == Err::<Vec<u8>, LinkError>(LinkError::PayloadTooLarge),
{
    let mut out: Vec<u8> = Vec::new();
    match push_name(&mut out, &v.name) {
        Ok(()) => {},
        Err(e) => return Err(e),
    }
    let n = v.attributes.len();
    if n > 0xffff {
        return Err(LinkError::PayloadTooLarge);
    }
    out.push(0u8);
    push_u16_be(&mut out, n as u16);
    let mut rest = header_attributes_payload(&v.attributes);
    out.append(&mut rest);
    assert(out@ =~= header_bytes(v@));
    Ok(out)
}

/// The message that a payload of kind `kind` encodes, or why it does not.
/// The calculator does not send directory or variable requests, so those
/// are not decoded.
pub open spec fn spec_decode(kind: VirtualPacketKind, p: Seq<u8>) -> Result<
    VirtualPacketView,
    LinkError,
> {
    match kind {
        VirtualPacketKind::SetMode => if p.len() < 2 {
            Err(LinkError::TruncatedPayload)
        } else {
            match Mode::spec_from_id(p[1]) {
                Some(m) => Ok(VirtualPacketView::SetMode(m)),
                None => Err(LinkError::UnknownMode(p[1])),
            }
        },
        VirtualPacketKind::ParameterRequest => match spec_parameter_request(p) {
            Ok(ids) => Ok(VirtualPacketView::ParameterRequest(ids)),
            Err(e) => Err(e),
        },
        VirtualPacketKind::ParameterResponse => match spec_parameter_response(p) {
            Ok(ps) => Ok(VirtualPacketView::ParameterResponse(ps)),
            Err(e) => Err(e),
        },
        VirtualPacketKind::DirectoryRequest => Err(LinkError::Unsupported),
        VirtualPacketKind::VariableHeader => match spec_variable_header(p) {
            Ok(v) => Ok(VirtualPacketView::VariableHeader(v)),
            Err(e) => Err(e),
        },
        VirtualPacketKind::RequestToSend => match spec_variable_header(p) {
            Ok(v) => Ok(VirtualPacketView::RequestToSend(v)),
            Err(e) => Err(e),
        },
        VirtualPacketKind::RequestVariable => Err(LinkError::Unsupported),
        VirtualPacketKind::VariableContents => Ok(VirtualPacketView::VariableContents(p)),
        VirtualPacketKind::SetModeAcknowledge => Ok(VirtualPacketView::SetModeAcknowledge),
        VirtualPacketKind::DataAcknowledge => Ok(VirtualPacketView::DataAcknowledge),
        VirtualPacketKind::Wait => if p.len() < 4 {
            Err(LinkError::TruncatedPayload)
        } else {
            Ok(VirtualPacketView::Wait(be32_at(p, 0)))
        },
        VirtualPacketKind::EndOfTransmission => Ok(VirtualPacketView::EndOfTransmission),
        VirtualPacketKind::Error => if p.len() < 2 {
            Err(LinkError::TruncatedPayload)
        } else {
            match DeviceError::spec_from_code(be16_at(p, 0)) {
                Some(e) => Ok(VirtualPacketView::Error(e)),
                None => Err(LinkError::UnknownDeviceError(be16_at(p, 0))),
            }
        },
    }
}

/// The bytes of a virtual packet before they are split:
/// `[payload length:u32][kind:u16][payload]`.
pub open spec fn spec_stream(kind_id: u16, payload: Seq<u8>) -> Seq<u8> {
    be32_bytes(payload.len() as u32) + be16_bytes(kind_id) + payload
}

/// The kind id and payload of reassembled bytes: exactly as many payload bytes
/// as the header declares, whatever follows them. `None` when the bytes are
/// shorter than the header or the declared length.
pub open spec fn spec_read_stream(b: Seq<u8>) -> Option<(u16, Seq<u8>)> {
    if b.len() >= 6 && 6 + be32_at(b, 0) <= b.len() {
        Some((be16_at(b, 4), b.subrange(6, 6 + be32_at(b, 0))))
    } else {
        None
    }
}

/// The message that reassembled bytes hold, or why they hold none.
pub open spec fn spec_receive(b: Seq<u8>) -> Result<VirtualPacketView, LinkError> {
    match spec_read_stream(b) {
        None => Err(LinkError::TruncatedPayload),
        Some((id, p)) => match VirtualPacketKind::spec_from_id(id) {
            None => Err(LinkError::UnknownPacketKind(UnknownPacketKindError(id))),
            Some(k) => spec_decode(k, p),
        },
    }
}

/// `b` cut into pieces of `m` bytes, the last of them possibly shorter. Empty
/// bytes make one empty piece.
pub open spec fn fragments(b: Seq<u8>, m: nat) -> Seq<Seq<u8>>
    decreases b.len(),
{
    if m == 0 || b.len() <= m {
        seq![b]
    } else {
        seq![b.take(m as int)] + fragments(b.skip(m as int), m)
    }
}

/// Whether `packets` carry `chunks` in order: data fragments, then one final
/// fragment.
pub open spec fn carries(packets: Seq<RawPackets>, chunks: Seq<Seq<u8>>) -> bool {
    &&& packets.len() == chunks.len()
    &&& forall|i: int|
        0 <= i < packets.len() ==> (#[trigger] packets[i]).wire_payload() == chunks[i] && if i
            + 1 < packets.len() {
            packets[i].spec_kind() == RawPacketKind::VirtData
        } else {
            packets[i].spec_kind() == RawPacketKind::VirtDataLast
        }
}

/// The payloads of `packets`, joined in order.
pub open spec fn joined_payloads(packets: Seq<RawPackets>) -> Seq<u8> {
    packets.map_values(|p: RawPackets| p.wire_payload()).flatten()
}

/// Splits `bytes` into raw data packets of at most `max` bytes.
fn fragment(bytes: &Vec<u8>, max: usize) -> (r: Vec<RawPackets>)
    requires
        max > 0,
    ensures
        carries(r@, fragments(bytes@, max as nat)),
{
    let n = bytes.len();
    let mut packets: Vec<RawPackets> = Vec::new();
    let mut start: usize = 0;
    let ghost mut done: Seq<Seq<u8>> = Seq::empty();
    assert(bytes@.subrange(0, n as int) =~= bytes@);
    assert(done + fragments(bytes@, max as nat) =~= fragments(bytes@, max as nat));
    while n - start > max
        invariant
            start <= n,
            n == bytes@.len(),
            max > 0,
            fragments(bytes@, max as nat) == done + fragments(
                bytes@.subrange(start as int, n as int),
                max as nat,
            ),
            packets@.len() == done.len(),
            forall|i: int|
                0 <= i < done.len() ==> (#[trigger] packets@[i]).spec_kind()
                    == RawPacketKind::VirtData && packets@[i].wire_payload() == done[i],
        decreases n - start,
    {
        let chunk = slice_to_vec(&bytes.as_slice()[start..start + max]);
        proof {
            let rest = bytes@.subrange(start as int, n as int);
            assert(rest.take(max as int) =~= chunk@);
            assert(rest.skip(max as int) =~= bytes@.subrange(start + max, n as int));
            assert(done + fragments(rest, max as nat) =~= done.push(chunk@) + fragments(
                bytes@.subrange(start + max, n as int),
                max as nat,
            ));
            done = done.push(chunk@);
        }
        packets.push(RawPackets::VirtualData(chunk));
        start = start + max;
    }
    let last = slice_to_vec(&bytes.as_slice()[start..n]);
    proof {
        assert(last@ =~= bytes@.subrange(start as int, n as int));
        assert(done + fragments(last@, max as nat) =~= done.push(last@));
        done = done.push(last@);
    }
    packets.push(RawPackets::FinalVirtData(last));
    assert(carries(packets@, done));
    packets
}

pub proof fn lemma_fragments_join(b: Seq<u8>, m: nat)
    requires
        m > 0,
    ensures
        fragments(b, m).flatten() == b,
        forall|i: int|
            0 <= i < fragments(b, m).len() ==> (#[trigger] fragments(b, m)[i]).len() <= m,
        b.len() > 0 ==> forall|i: int|
            0 <= i < fragments(b, m).len() ==> (#[trigger] fragments(b, m)[i]).len() > 0,
    decreases b.len(),
{
    let f = fragments(b, m);
    if b.len() <= m {
        assert(f.drop_first() =~= Seq::<Seq<u8>>::empty());
        assert(f.drop_first().flatten() == Seq::<u8>::empty());
        assert(f.flatten() == f.first() + f.drop_first().flatten());
        assert(f.flatten() =~= b);
    } else {
        lemma_fragments_join(b.skip(m as int), m);
        assert(f.drop_first() =~= fragments(b.skip(m as int), m));
        assert(b.take(m as int) + b.skip(m as int) =~= b);
        assert forall|i: int| 0 < i < f.len() implies f[i] == fragments(b.skip(m as int), m)[i
            - 1] by {}
    }
}

/// Splitting a virtual packet's bytes into raw packets of at most `m` bytes
/// and joining the payloads of those packets in order gives the bytes back;
/// reading them yields the packet's kind and exactly its payload, and so the
/// message that the payload encodes. No packet is empty or longer than `m`.
pub proof fn lemma_fragment_then_reassemble(
    kind_id: u16,
    payload: Seq<u8>,
    m: nat,
    packets: Seq<RawPackets>,
)
    requires
        m > 0,
        payload.len() <= u32::MAX,
        carries(packets, fragments(spec_stream(kind_id, payload), m)),
    ensures
        joined_payloads(packets) == spec_stream(kind_id, payload),
        spec_read_stream(joined_payloads(packets)) == Some((kind_id, payload)),
        spec_receive(joined_payloads(packets)) == match VirtualPacketKind::spec_from_id(kind_id) {
            Some(k) => spec_decode(k, payload),
            None => Err(LinkError::UnknownPacketKind(UnknownPacketKindError(kind_id))),
        },
        forall|i: int|
            0 <= i < packets.len() ==> 0 < (#[trigger] packets[i]).wire_payload().len() <= m,
{
    let s = spec_stream(kind_id, payload);
    lemma_fragments_join(s, m);
    assert(packets.map_values(|p: RawPackets| p.wire_payload()) =~= fragments(s, m));
    let len_bytes = be32_bytes(payload.len() as u32);
    lemma_be32_round_trip(payload.len() as u32, Seq::empty(), be16_bytes(kind_id) + payload);
    assert(Seq::<u8>::empty() + len_bytes + (be16_bytes(kind_id) + payload) =~= s);
    lemma_be16_round_trip(kind_id, len_bytes, payload);
    assert(len_bytes + be16_bytes(kind_id) + payload =~= s);
    assert(s.subrange(6, 6 + payload.len() as int) =~= payload);
    assert forall|i: int| 0 <= i < packets.len() implies 0 < (
        #[trigger] packets[i]).wire_payload().len() <= m by {
        assert(packets[i].wire_payload() == fragments(s, m)[i]);
    }
}

impl VirtualPacket {
    pub fn kind(&self) -> (r: VirtualPacketKind)
        ensures
            r == self@.kind(),
    {
        match self {
            VirtualPacket::SetMode(_) => VirtualPacketKind::SetMode,
            VirtualPacket::ParameterRequest(_) => VirtualPacketKind::ParameterRequest,
            VirtualPacket::ParameterResponse(_) => VirtualPacketKind::ParameterResponse,
            VirtualPacket::DirectoryRequest(_) => VirtualPacketKind::DirectoryRequest,
            VirtualPacket::VariableHeader(_) => VirtualPacketKind::VariableHeader,
            VirtualPacket::RequestToSend(_) => VirtualPacketKind::RequestToSend,
            VirtualPacket::RequestVariable(..) => VirtualPacketKind::RequestVariable,
            VirtualPacket::VariableContents(_) => VirtualPacketKind::VariableContents,
            VirtualPacket::SetModeAcknowledge => VirtualPacketKind::SetModeAcknowledge,
            VirtualPacket::DataAcknowledge => VirtualPacketKind::DataAcknowledge,
            VirtualPacket::Wait(_) => VirtualPacketKind::Wait,
            VirtualPacket::EndOfTransmission => VirtualPacketKind::EndOfTransmission,
            VirtualPacket::Error(_) => VirtualPacketKind::Error,
        }
    }

    /// Encodes the packet's payload.
    pub fn into_payload(self) -> (r: Result<Vec<u8>, LinkError>)
        ensures
            match spec_encode(self@) {
                Ok(b) => r.is_ok() && r.unwrap()@ == b,
                Err(e) => r == Err::<Vec<u8>, LinkError>(e),
            },
    {
        match self {
            VirtualPacket::SetMode(m) => Ok(m.into_payload()),
            VirtualPacket::ParameterRequest(ids) => {
                let n = ids.len();
                if n > 0xffff {
                    return Err(LinkError::PayloadTooLarge);
                }
                let mut out: Vec<u8> = Vec::new();
                push_u16_be(&mut out, n as u16);
                let mut rest = parameter_ids_payload(&ids);
                out.append(&mut rest);
                Ok(out)
            },
            VirtualPacket::ParameterResponse(_) => Err(LinkError::Unsupported),
            VirtualPacket::DirectoryRequest(ids) => {
                let n = ids.len();
                if n > 0xffff_ffff {
                    return Err(LinkError::PayloadTooLarge);
                }
                let mut out: Vec<u8> = Vec::new();
                push_u32_be(&mut out, n as u32);
                let mut rest = attribute_ids_payload(&ids);
                out.append(&mut rest);
                let mut trailer = vec![0u8, 1u8, 0u8, 1u8, 0u8, 1u8, 1u8];
                out.append(&mut trailer);
                assert(out@ =~= be32_bytes(n as u32) + attribute_ids_bytes(ids@)
                    + directory_trailer());
                Ok(out)
            },
            VirtualPacket::VariableHeader(v) => header_payload(&v),
            VirtualPacket::RequestToSend(v) => header_payload(&v),
            VirtualPacket::RequestVariable(name, req, given) => {
                let mut out: Vec<u8> = Vec::new();
                match push_name(&mut out, &name) {
                    Ok(()) => {},
                    Err(e) => return Err(e),
                }
                let nr = req.len();
                let ng = given.len();
                if nr > 0xffff || ng > 0xffff {
                    return Err(LinkError::PayloadTooLarge);
                }
                let mut filler = vec![0u8, 1u8, 0xffu8, 0xffu8, 0xffu8, 0xffu8];
                out.append(&mut filler);
                push_u16_be(&mut out, nr as u16);
                let mut ids = attribute_ids_payload(&req);
                out.append(&mut ids);
                push_u16_be(&mut out, ng as u16);
                let mut attrs = given_attributes_payload(&given);
                out.append(&mut attrs);
                out.push(0u8);
                out.push(0u8);
                assert(out@ =~= name_bytes(name@) + request_filler() + be16_bytes(nr as u16)
                    + attribute_ids_bytes(req@) + be16_bytes(ng as u16)
                    + given_attributes_bytes(given@) + seq![0u8, 0u8]);
                Ok(out)
            },
            VirtualPacket::VariableContents(b) => Ok(b),
            VirtualPacket::SetModeAcknowledge => Ok(Vec::new()),
            VirtualPacket::DataAcknowledge => Ok(Vec::new()),
            VirtualPacket::Wait(ms) => {
                let mut out: Vec<u8> = Vec::new();
                push_u32_be(&mut out, ms);
                Ok(out)
            },
            VirtualPacket::EndOfTransmission => Ok(Vec::new()),
            VirtualPacket::Error(e) => {
                let mut out: Vec<u8> = Vec::new();
                push_u16_be(&mut out, e.code());
                Ok(out)
            },
        }
    }

    /// Encodes the packet and splits its bytes into raw packets of at most
    /// `max_size` bytes: data fragments, then one final fragment.
    pub fn into_raw_packets(self, max_size: u32) -> (r: Result<Vec<RawPackets>, LinkError>)
        ensures
            max_size == 0 ==> r == Err::<Vec<RawPackets>, LinkError>(LinkError::ZeroPacketSize),
            max_size > 0 ==> match spec_encode(self@) {
                Ok(p) => if p.len() <= u32::MAX {
                    r.is_ok() && carries(
                        r.unwrap()@,
                        fragments(spec_stream(self@.kind().spec_id(), p), max_size as nat),
                    )
                } else {
                    r == Err::<Vec<RawPackets>, LinkError>(LinkError::PayloadTooLarge)
                },
                Err(e) => r == Err::<Vec<RawPackets>, LinkError>(e),
            },
    {
        if max_size == 0 {
            return Err(LinkError::ZeroPacketSize);
        }
        let kind = self.kind();
        let mut contents = match self.into_payload() {
            Ok(c) => c,
            Err(e) => return Err(e),
        };
        let n = contents.len();
        if n > 0xffff_ffff {
            return Err(LinkError::PayloadTooLarge);
        }
        let mut bytes: Vec<u8> = Vec::new();
        push_u32_be(&mut bytes, n as u32);
        push_u16_be(&mut bytes, kind.id());
        bytes.append(&mut contents);
        Ok(fragment(&bytes, max_size as usize))
    }

    /// Takes the next raw packet of a virtual packet being received, and adds
    /// its payload to `bytes`. Returns whether it was the final fragment; the
    /// sender waits for an acknowledgment of each fragment either way.
    pub fn receive_bytes(bytes: &mut Vec<u8>, packet: RawPackets) -> (r: Result<bool, LinkError>)
        ensures
            packet.spec_kind() == RawPacketKind::VirtData ==> r == Ok::<bool, LinkError>(false)
                && final(bytes)@ == old(bytes)@ + packet.wire_payload(),
            packet.spec_kind() == RawPacketKind::VirtDataLast ==> r == Ok::<bool, LinkError>(true)
                && final(bytes)@ == old(bytes)@ + packet.wire_payload(),
            packet.spec_kind() != RawPacketKind::VirtData && packet.spec_kind()
                != RawPacketKind::VirtDataLast ==> r == Err::<bool, LinkError>(
                LinkError::WrongRawPacketKind(
                    RawWrongPacketKind {
                        expected: RawPacketKind::VirtData,
                        received: packet.spec_kind(),
                    },
                ),
            ) && final(bytes)@ == old(bytes)@,
    {
        let received = packet.kind();
        match packet {
            RawPackets::VirtualData(mut p) => {
                bytes.append(&mut p);
                Ok(false)
            },
            RawPackets::FinalVirtData(mut p) => {
                bytes.append(&mut p);
                Ok(true)
            },
            _ => Err(
                LinkError::WrongRawPacketKind(
                    RawWrongPacketKind {
                        expected: RawPacketKind::VirtData,
                        received,
                    },
                ),
            ),
        }
    }

    /// Decides what to do with the raw packet that came while an
    /// acknowledgment of a sent fragment is awaited. A buffer-size request is
    /// answered with the link's current size, after which the wait goes on;
    /// an acknowledgment ends the wait.
    pub fn wait_for_acknowledge(handle: &Calculator, packet: RawPackets) -> (r: Result<
        Acknowledgment,
        LinkError,
    >)
        ensures
            match packet {
                RawPackets::RequestBufSize(_) => r == Ok::<Acknowledgment, LinkError>(
                    Acknowledgment::Respond(RawPackets::RespondBufSize(handle.packet_size())),
                ),
                RawPackets::VirtualDataAcknowledge(v) => if v == ACK_SENTINEL {
                    r == Ok::<Acknowledgment, LinkError>(Acknowledgment::Received)
                } else {
                    r == Err::<Acknowledgment, LinkError>(
                        LinkError::InvalidAcknowledge(InvalidPayload),
                    )
                },
                _ => r == Err::<Acknowledgment, LinkError>(
                    LinkError::WrongRawPacketKind(
                        RawWrongPacketKind {
                            expected: RawPacketKind::VirtDataAck,
                            received: packet.spec_kind(),
                        },
                    ),
                ),
            },
    {
        let received = packet.kind();
        match packet {
            RawPackets::RequestBufSize(_) => Ok(
                Acknowledgment::Respond(RawPackets::RespondBufSize(handle.max_raw_packet_size())),
            ),
            RawPackets::VirtualDataAcknowledge(v) => if v == ACK_SENTINEL {
                Ok(Acknowledgment::Received)
            } else {
                Err(LinkError::InvalidAcknowledge(InvalidPayload))
            },
            _ => Err(
                LinkError::WrongRawPacketKind(
                    RawWrongPacketKind {
                        expected: RawPacketKind::VirtDataAck,
                        received,
                    },
                ),
            ),
        }
    }

    /// Reads the message in the reassembled bytes of a virtual packet.
    pub fn receive(bytes: &[u8]) -> (r: Result<Self, LinkError>)
        ensures
            match spec_receive(bytes@) {
                Ok(v) => r.is_ok() && r.unwrap()@ == v,
                Err(e) => r == Err::<Self, LinkError>(e),
            },
    {
        let len = bytes.len();
        if len < 6 {
            return Err(LinkError::TruncatedPayload);
        }
        let size = read_u32_be(bytes, 0) as usize;
        let id = read_u16_be(bytes, 4);
        if size > len - 6 {
            return Err(LinkError::TruncatedPayload);
        }
        let kind = match VirtualPacketKind::from_id(id) {
            Some(k) => k,
            None => return Err(LinkError::UnknownPacketKind(UnknownPacketKindError(id))),
        };
        Self::from_payload(kind, &bytes[6..6 + size])
    }

    /// Decodes the payload of a packet of kind `kind`.
    pub fn from_payload(kind: VirtualPacketKind, payload: &[u8]) -> (r: Result<Self, LinkError>)
        ensures
            match spec_decode(kind, payload@) {
                Ok(v) => r.is_ok() && r.unwrap()@ == v,
                Err(e) => r == Err::<Self, LinkError>(e),
            },
    {
        let len = payload.len();
        match kind {
            VirtualPacketKind::SetMode => {
                if len < 2 {
                    return Err(LinkError::TruncatedPayload);
                }
                match Mode::from_id(payload[1]) {
                    Some(m) => Ok(VirtualPacket::SetMode(m)),
                    None => Err(LinkError::UnknownMode(payload[1])),
                }
            },
            VirtualPacketKind::ParameterRequest => match parameter_request(payload) {
                Ok(ids) => Ok(VirtualPacket::ParameterRequest(ids)),
                Err(e) => Err(e),
            },
            VirtualPacketKind::ParameterResponse => match parameter_response(payload) {
                Ok(ps) => Ok(VirtualPacket::ParameterResponse(ps)),
                Err(e) => Err(e),
            },
            VirtualPacketKind::DirectoryRequest => Err(LinkError::Unsupported),
            VirtualPacketKind::VariableHeader => match variable_header(payload) {
                Ok(v) => Ok(VirtualPacket::VariableHeader(v)),
                Err(e) => Err(e),
            },
            VirtualPacketKind::RequestToSend => match variable_header(payload) {
                Ok(v) => Ok(VirtualPacket::RequestToSend(v)),
                Err(e) => Err(e),
            },
            VirtualPacketKind::RequestVariable => Err(LinkError::Unsupported),
            VirtualPacketKind::VariableContents => Ok(
                VirtualPacket::VariableContents(slice_to_vec(payload)),
            ),
            VirtualPacketKind::SetModeAcknowledge => Ok(VirtualPacket::SetModeAcknowledge),
            VirtualPacketKind::DataAcknowledge => Ok(VirtualPacket::DataAcknowledge),
            VirtualPacketKind::Wait => {
                if len < 4 {
                    return Err(LinkError::TruncatedPayload);
                }
                Ok(VirtualPacket::Wait(read_u32_be(payload, 0)))
            },
            VirtualPacketKind::EndOfTransmission => Ok(VirtualPacket::EndOfTransmission),
            VirtualPacketKind::Error => {
                if len < 2 {
                    return Err(LinkError::TruncatedPayload);
                }
                let code = read_u16_be(payload, 0);
                match DeviceError::from_code(code) {
                    Some(e) => Ok(VirtualPacket::Error(e)),
                    None => Err(LinkError::UnknownDeviceError(code)),
                }
            },
        }
    }
}

} // verus!

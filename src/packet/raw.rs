//! Raw packets: `[length:u32 big-endian][kind:u8][payload]`.
use vstd::prelude::*;

use crate::error::LinkError;
use crate::packet::vtl::{UnknownPacketKindError as UnknownVirtualKind, VirtualPacketKind};
use crate::util::{
    be16_at, be16_bytes, be32_at, be32_bytes, lemma_be32_bytes_of, push_u16_be, push_u32_be,
    read_u16_be, read_u32_be,
};
use vstd::slice::slice_to_vec;

verus! {

/// The value that every data acknowledgment carries.
pub const ACK_SENTINEL: u16 = 0xe000;

/// The largest raw packet that the link accepts, whatever a device offers.
pub const MAX_RAW_PACKET_SIZE: u32 = 1018;

/// The kind of a raw packet, by its kind byte.
#[derive(Debug, Clone, Copy, PartialEq, Eq, Structural)]
pub enum RawPacketKind {
    BufSizeReq,
    BufSizeAlloc,
    VirtData,
    VirtDataLast,
    VirtDataAck,
}

impl RawPacketKind {
    pub open spec fn spec_id(self) -> u8 {
        match self {
            RawPacketKind::BufSizeReq => 1,
            RawPacketKind::BufSizeAlloc => 2,
            RawPacketKind::VirtData => 3,
            RawPacketKind::VirtDataLast => 4,
            RawPacketKind::VirtDataAck => 5,
        }
    }

    pub open spec fn spec_from_id(id: u8) -> Option<RawPacketKind> {
        if id == 1 {
            Some(RawPacketKind::BufSizeReq)
        } else if id == 2 {
            Some(RawPacketKind::BufSizeAlloc)
        } else if id == 3 {
            Some(RawPacketKind::VirtData)
        } else if id == 4 {
            Some(RawPacketKind::VirtDataLast)
        } else if id == 5 {
            Some(RawPacketKind::VirtDataAck)
        } else {
            None
        }
    }

    pub fn id(self) -> (r: u8)
        ensures
            r == self.spec_id(),
    {
        match self {
            RawPacketKind::BufSizeReq => 1,
            RawPacketKind::BufSizeAlloc => 2,
            RawPacketKind::VirtData => 3,
            RawPacketKind::VirtDataLast => 4,
            RawPacketKind::VirtDataAck => 5,
        }
    }

    /// The kind with kind byte `id`, or the error that names the byte.
    pub fn try_from_id(id: u8) -> (r: Result<RawPacketKind, UnknownPacketKindError>)
        ensures
            r == (match Self::spec_from_id(id) {
                Some(k) => Ok(k),
                None => Err(UnknownPacketKindError(id)),
            }),
    {
        if id == 1 {
            Ok(RawPacketKind::BufSizeReq)
        } else if id == 2 {
            Ok(RawPacketKind::BufSizeAlloc)
        } else if id == 3 {
            Ok(RawPacketKind::VirtData)
        } else if id == 4 {
            Ok(RawPacketKind::VirtDataLast)
        } else if id == 5 {
            Ok(RawPacketKind::VirtDataAck)
        } else {
            Err(UnknownPacketKindError(id))
        }
    }
}

/// A raw packet of one kind came where another was required.
#[derive(Debug, Clone, Copy, PartialEq, Eq, Structural)]
pub struct WrongPacketKind {
    pub expected: RawPacketKind,
    pub received: RawPacketKind,
}

/// A raw packet's payload had the wrong length for its kind.
#[derive(Debug, Clone, Copy, PartialEq, Eq, Structural)]
pub struct WrongPacketSize {
    pub expected: u32,
    pub received: u32,
}

/// An acknowledgment whose payload is not the sentinel.
#[derive(Debug, Clone, Copy, PartialEq, Eq, Structural)]
pub struct InvalidPayload;

/// A kind byte outside the five known kinds.
#[derive(Debug, Clone, Copy, PartialEq, Eq, Structural)]
pub struct UnknownPacketKindError(pub u8);

/// The bytes of a raw packet on the wire.
pub open spec fn spec_frame(kind: RawPacketKind, payload: Seq<u8>) -> Seq<u8> {
    be32_bytes(payload.len() as u32) + seq![kind.spec_id()] + payload
}

/// The size that the link keeps when a device offers `size`.
pub open spec fn spec_clamp(size: u32) -> u32 {
    if size > MAX_RAW_PACKET_SIZE {
        MAX_RAW_PACKET_SIZE
    } else {
        size
    }
}

/// The size that the link keeps when a device offers `size`: some models
/// offer more than they can take, so no offer above 1018 bytes is believed.
pub fn clamp_buffer_size(size: u32) -> (r: u32)
    ensures
        r == spec_clamp(size),
{
    if size > MAX_RAW_PACKET_SIZE {
        MAX_RAW_PACKET_SIZE
    } else {
        size
    }
}

/// A decoded raw packet.
#[derive(Debug, Clone, PartialEq)]
pub enum RawPackets {
    RequestBufSize(u32),
    RespondBufSize(u32),
    VirtualData(Vec<u8>),
    FinalVirtData(Vec<u8>),
    VirtualDataAcknowledge(u16),
}

/// The two payload bytes of an acknowledgment.
pub open spec fn ack_payload() -> Seq<u8> {
    seq![0xe0u8, 0x00u8]
}

impl RawPackets {
    pub open spec fn spec_kind(&self) -> RawPacketKind {
        match self {
            RawPackets::RequestBufSize(_) => RawPacketKind::BufSizeReq,
            RawPackets::RespondBufSize(_) => RawPacketKind::BufSizeAlloc,
            RawPackets::VirtualData(_) => RawPacketKind::VirtData,
            RawPackets::FinalVirtData(_) => RawPacketKind::VirtDataLast,
            RawPackets::VirtualDataAcknowledge(_) => RawPacketKind::VirtDataAck,
        }
    }

    /// The payload that the packet carries on the wire.
    pub open spec fn wire_payload(&self) -> Seq<u8> {
        match self {
            RawPackets::RequestBufSize(size) => be32_bytes(*size),
            RawPackets::RespondBufSize(size) => be32_bytes(*size),
            RawPackets::VirtualData(p) => p@,
            RawPackets::FinalVirtData(p) => p@,
            RawPackets::VirtualDataAcknowledge(v) => be16_bytes(*v),
        }
    }

    /// Why `kind` and `payload` make no packet, if they do not: a packet
    /// needs a known kind byte, four bytes for a buffer size, and exactly the
    /// sentinel for an acknowledgment.
    pub open spec fn spec_decode_error(kind: u8, payload: Seq<u8>) -> Option<LinkError> {
        if RawPacketKind::spec_from_id(kind).is_none() {
            Some(LinkError::UnknownRawPacketKind(UnknownPacketKindError(kind)))
        } else if (kind == 1 || kind == 2) && payload.len() != 4 {
            Some(
                LinkError::WrongPacketSize(
                    WrongPacketSize { expected: 4, received: payload.len() as u32 },
                ),
            )
        } else if kind == 5 && payload != ack_payload() {
            Some(LinkError::InvalidAcknowledge(InvalidPayload))
        } else {
            None
        }
    }

    pub fn kind(&self) -> (r: RawPacketKind)
        ensures
            r == self.spec_kind(),
    {
        match self {
            RawPackets::RequestBufSize(_) => RawPacketKind::BufSizeReq,
            RawPackets::RespondBufSize(_) => RawPacketKind::BufSizeAlloc,
            RawPackets::VirtualData(_) => RawPacketKind::VirtData,
            RawPackets::FinalVirtData(_) => RawPacketKind::VirtDataLast,
            RawPackets::VirtualDataAcknowledge(_) => RawPacketKind::VirtDataAck,
        }
    }

    /// Decodes the packet with kind byte `kind` and payload `payload`.
    pub fn from_payload(kind: u8, payload: Vec<u8>) -> (r: Result<Self, LinkError>)
        requires
            payload@.len() <= u32::MAX,
        ensures
            match Self::spec_decode_error(kind, payload@) {
                Some(e) => r == Err::<Self, LinkError>(e),
                None => r.is_ok() && r.unwrap().spec_kind().spec_id() == kind
                    && r.unwrap().wire_payload() == payload@,
            },
    {
        let len = payload.len();
        if kind == 1 || kind == 2 {
            if len != 4 {
                return Err(
                    LinkError::WrongPacketSize(
                        WrongPacketSize { expected: 4, received: len as u32 },
                    ),
                );
            }
            let size = read_u32_be(payload.as_slice(), 0);
            proof {
                lemma_be32_bytes_of(payload@);
            }
            if kind == 1 {
                Ok(RawPackets::RequestBufSize(size))
            } else {
                Ok(RawPackets::RespondBufSize(size))
            }
        } else if kind == 3 {
            Ok(RawPackets::VirtualData(payload))
        } else if kind == 4 {
            Ok(RawPackets::FinalVirtData(payload))
        } else if kind == 5 {
            if len != 2 || payload[0] != 0xe0 || payload[1] != 0x00 {
                return Err(LinkError::InvalidAcknowledge(InvalidPayload));
            }
            assert(payload@ =~= ack_payload());
            assert(be16_bytes(ACK_SENTINEL) =~= ack_payload());
            Ok(RawPackets::VirtualDataAcknowledge(ACK_SENTINEL))
        } else {
            Err(LinkError::UnknownRawPacketKind(UnknownPacketKindError(kind)))
        }
    }

    /// Whether `r` is what decoding a packet with kind byte `kind` and
    /// payload `payload` gives.
    pub open spec fn spec_decodes(kind: u8, payload: Seq<u8>, r: Result<Self, LinkError>) -> bool {
        match Self::spec_decode_error(kind, payload) {
            Some(e) => r == Err::<Self, LinkError>(e),
            None => r.is_ok() && r.unwrap().spec_kind().spec_id() == kind
                && r.unwrap().wire_payload() == payload,
        }
    }

    /// Decodes a raw packet from the five bytes of its header and the payload
    /// read after them.
    pub fn receive(header: &[u8], payload: Vec<u8>) -> (r: Result<Self, LinkError>)
        requires
            header@.len() == 5,
            payload@.len() == be32_at(header@, 0),
        ensures
            Self::spec_decodes(header@[4], payload@, r),
    {
        Self::from_payload(header[4], payload)
    }

    /// Decodes a raw packet as `receive` does, and refuses it unless it is of
    /// kind `kind`.
    pub fn receive_exact(kind: RawPacketKind, header: &[u8], payload: Vec<u8>) -> (r: Result<
        Self,
        LinkError,
    >)
        requires
            header@.len() == 5,
            payload@.len() == be32_at(header@, 0),
        ensures
            match Self::spec_decode_error(header@[4], payload@) {
                Some(e) => r == Err::<Self, LinkError>(e),
                None => if header@[4] == kind.spec_id() {
                    r.is_ok() && r.unwrap().spec_kind() == kind && r.unwrap().wire_payload()
                        == payload@
                } else {
                    r == Err::<Self, LinkError>(
                        LinkError::WrongRawPacketKind(
                            WrongPacketKind {
                                expected: kind,
                                received: RawPacketKind::spec_from_id(header@[4]).unwrap(),
                            },
                        ),
                    )
                },
            },
    {
        let packet = match Self::receive(header, payload) {
            Ok(p) => p,
            Err(e) => return Err(e),
        };
        let received = packet.kind();
        if received != kind {
            Err(LinkError::WrongRawPacketKind(WrongPacketKind { expected: kind, received }))
        } else {
            Ok(packet)
        }
    }

    /// Writes the packet's frame to `out`, the bytes bound for the transport.
    pub fn send(self, out: &mut Vec<u8>)
        requires
            self.wire_payload().len() <= u32::MAX,
        ensures
            final(out)@ == old(out)@ + spec_frame(self.spec_kind(), self.wire_payload()),
    {
        let kind = self.kind();
        let ghost wire = self.wire_payload();
        let payload: Vec<u8> = match self {
            RawPackets::RequestBufSize(size) => {
                let mut p: Vec<u8> = Vec::new();
                push_u32_be(&mut p, size);
                p
            },
            RawPackets::RespondBufSize(size) => {
                let mut p: Vec<u8> = Vec::new();
                push_u32_be(&mut p, size);
                p
            },
            RawPackets::VirtualData(p) => p,
            RawPackets::FinalVirtData(p) => p,
            RawPackets::VirtualDataAcknowledge(v) => {
                let mut p: Vec<u8> = Vec::new();
                push_u16_be(&mut p, v);
                p
            },
        };
        assert(payload@ =~= wire);
        RawPacket::new(kind, payload).send(out);
    }
}

/// A raw packet as kind and payload, undecoded.
#[derive(Debug, Clone, PartialEq)]
pub struct RawPacket {
    pub kind: RawPacketKind,
    pub payload: Vec<u8>,
}

impl RawPacket {
    pub fn new(kind: RawPacketKind, payload: Vec<u8>) -> (r: Self)
        ensures
            r.kind == kind,
            r.payload@ == payload@,
    {
        RawPacket { kind, payload }
    }

    /// Writes the packet's frame to `out`, the bytes bound for the transport.
    pub fn send(&self, out: &mut Vec<u8>)
        requires
            self.payload@.len() <= u32::MAX,
        ensures
            final(out)@ == old(out)@ + spec_frame(self.kind, self.payload@),
    {
        push_u32_be(out, self.payload.len() as u32);
        out.push(self.kind.id());
        out.extend_from_slice(self.payload.as_slice());
        assert(final(out)@ =~= old(out)@ + spec_frame(self.kind, self.payload@));
    }
}

/// The length and kind that open a raw packet.
#[derive(Debug, Clone, Copy, PartialEq, Eq, Structural)]
pub struct RawPacketHeader {
    pub size: u32,
    pub kind: RawPacketKind,
}

impl RawPacketHeader {
    /// Reads the header from the five bytes that open a raw packet.
    pub fn receive(bytes: &[u8]) -> (r: Result<Self, LinkError>)
        requires
            bytes@.len() == 5,
        ensures
            r == (match RawPacketKind::spec_from_id(bytes@[4]) {
                Some(k) => Ok(RawPacketHeader { size: be32_at(bytes@, 0), kind: k }),
                None => Err(LinkError::UnknownRawPacketKind(UnknownPacketKindError(bytes@[4]))),
            }),
    {
        let size = read_u32_be(bytes, 0);
        match RawPacketKind::try_from_id(bytes[4]) {
            Ok(kind) => Ok(RawPacketHeader { size, kind }),
            Err(e) => Err(LinkError::UnknownRawPacketKind(e)),
        }
    }
}

/// A raw packet of one fixed kind, as a typed record.
pub trait RawPacketTrait: Sized {
    spec fn spec_kind() -> RawPacketKind;

    /// Whether the record can be encoded.
    spec fn wf(&self) -> bool;

    /// The payload that the record carries on the wire.
    spec fn spec_payload(&self) -> Seq<u8>;

    /// Whether a payload has the shape that the record needs.
    spec fn spec_valid(payload: Seq<u8>) -> bool;

    /// Whether `r` is what decoding a valid payload gives.
    spec fn spec_decodes(payload: Seq<u8>, r: Result<Self, LinkError>) -> bool;

    fn kind() -> (r: RawPacketKind)
        ensures
            r == Self::spec_kind(),
    ;

    fn payload(&self) -> (r: Vec<u8>)
        requires
            self.wf(),
        ensures
            r@ == self.spec_payload(),
    ;

    fn is_valid(payload: &[u8]) -> (r: bool)
        ensures
            r == Self::spec_valid(payload@),
    ;

    fn from_payload(payload: &[u8]) -> (r: Result<Self, LinkError>)
        requires
            Self::spec_valid(payload@),
        ensures
            Self::spec_decodes(payload@, r),
    ;

    /// Writes the record's frame to `out`, the bytes bound for the transport.
    fn send(&self, out: &mut Vec<u8>) -> (r: Result<(), LinkError>)
        requires
            self.wf(),
        ensures
            self.spec_payload().len() <= u32::MAX ==> r is Ok && final(out)@ == old(out)@
                + spec_frame(Self::spec_kind(), self.spec_payload()),
            self.spec_payload().len() > u32::MAX ==> r == Err::<(), LinkError>(
                LinkError::PayloadTooLarge,
            ) && final(out)@ == old(out)@,
    {
        let payload = self.payload();
        if payload.len() > 0xffff_ffff {
            return Err(LinkError::PayloadTooLarge);
        }
        RawPacket::new(Self::kind(), payload).send(out);
        Ok(())
    }

    /// Reads the record from a received header and the payload after it. A
    /// packet of another kind, or a payload of the wrong shape, is refused.
    fn receive(header: RawPacketHeader, payload: &[u8]) -> (r: Result<Self, LinkError>)
        ensures
            header.kind != Self::spec_kind() ==> r == Err::<Self, LinkError>(
                LinkError::WrongRawPacketKind(
                    WrongPacketKind { expected: Self::spec_kind(), received: header.kind },
                ),
            ),
            header.kind == Self::spec_kind() && !Self::spec_valid(payload@) ==> r == Err::<
                Self,
                LinkError,
            >(LinkError::InvalidPayload(InvalidPayload)),
            header.kind == Self::spec_kind() && Self::spec_valid(payload@) ==> Self::spec_decodes(
                payload@,
                r,
            ),
    {
        let expected = Self::kind();
        if header.kind != expected {
            return Err(
                LinkError::WrongRawPacketKind(
                    WrongPacketKind { expected, received: header.kind },
                ),
            );
        }
        if !Self::is_valid(payload) {
            return Err(LinkError::InvalidPayload(InvalidPayload));
        }
        Self::from_payload(payload)
    }
}

/// A request for a raw packet size.
#[derive(Debug, Clone, Copy, PartialEq, Eq, Structural)]
pub struct BufSizeReqPacket {
    pub size: u32,
}

impl BufSizeReqPacket {
    pub fn new(size: u32) -> (r: Self)
        ensures
            r.size == size,
    {
        BufSizeReqPacket { size }
    }
}

impl RawPacketTrait for BufSizeReqPacket {
    open spec fn spec_kind() -> RawPacketKind {
        RawPacketKind::BufSizeReq
    }

    open spec fn wf(&self) -> bool {
        true
    }

    open spec fn spec_payload(&self) -> Seq<u8> {
        be32_bytes(self.size)
    }

    open spec fn spec_valid(payload: Seq<u8>) -> bool {
        payload.len() == 4
    }

    open spec fn spec_decodes(payload: Seq<u8>, r: Result<Self, LinkError>) -> bool {
        r == Ok::<Self, LinkError>(BufSizeReqPacket { size: be32_at(payload, 0) })
    }

    fn kind() -> (r: RawPacketKind) {
        RawPacketKind::BufSizeReq
    }

    fn payload(&self) -> (r: Vec<u8>) {
        let mut r: Vec<u8> = Vec::new();
        push_u32_be(&mut r, self.size);
        r
    }

    fn is_valid(payload: &[u8]) -> (r: bool) {
        payload.len() == 4
    }

    fn from_payload(payload: &[u8]) -> (r: Result<Self, LinkError>) {
        Ok(BufSizeReqPacket { size: read_u32_be(payload, 0) })
    }
}

/// A device's answer to a size request. Decoding clamps the offered size to
/// what the link accepts.
#[derive(Debug, Clone, Copy, PartialEq, Eq, Structural)]
pub struct BufSizeAllocPacket {
    pub size: u32,
}

impl BufSizeAllocPacket {
    pub fn new(size: u32) -> (r: Self)
        ensures
            r.size == size,
    {
        BufSizeAllocPacket { size }
    }
}

impl RawPacketTrait for BufSizeAllocPacket {
    open spec fn spec_kind() -> RawPacketKind {
        RawPacketKind::BufSizeAlloc
    }

    open spec fn wf(&self) -> bool {
        true
    }

    open spec fn spec_payload(&self) -> Seq<u8> {
        be32_bytes(self.size)
    }

    open spec fn spec_valid(payload: Seq<u8>) -> bool {
        payload.len() == 4
    }

    open spec fn spec_decodes(payload: Seq<u8>, r: Result<Self, LinkError>) -> bool {
        r == Ok::<Self, LinkError>(BufSizeAllocPacket { size: spec_clamp(be32_at(payload, 0)) })
    }

    fn kind() -> (r: RawPacketKind) {
        RawPacketKind::BufSizeAlloc
    }

    fn payload(&self) -> (r: Vec<u8>) {
        let mut r: Vec<u8> = Vec::new();
        push_u32_be(&mut r, self.size);
        r
    }

    fn is_valid(payload: &[u8]) -> (r: bool) {
        payload.len() == 4
    }

    fn from_payload(payload: &[u8]) -> (r: Result<Self, LinkError>) {
        Ok(BufSizeAllocPacket { size: clamp_buffer_size(read_u32_be(payload, 0)) })
    }
}

/// A virtual packet that fits in one raw packet: the final fragment carrying
/// `[payload length:u32][kind:u16][payload]`.
#[derive(Debug, Clone, PartialEq)]
pub struct FinalVirtDataPacket {
    pub packet_kind: VirtualPacketKind,
    pub virtual_payload: Vec<u8>,
}

impl FinalVirtDataPacket {
    pub fn new(packet_kind: VirtualPacketKind, virtual_payload: Vec<u8>) -> (r: Self)
        ensures
            r.packet_kind == packet_kind,
            r.virtual_payload@ == virtual_payload@,
    {
        FinalVirtDataPacket { packet_kind, virtual_payload }
    }
}

impl RawPacketTrait for FinalVirtDataPacket {
    open spec fn spec_kind() -> RawPacketKind {
        RawPacketKind::VirtDataLast
    }

    open spec fn wf(&self) -> bool {
        self.virtual_payload@.len() <= u32::MAX
    }

    open spec fn spec_payload(&self) -> Seq<u8> {
        be32_bytes(self.virtual_payload@.len() as u32) + be16_bytes(self.packet_kind.spec_id())
            + self.virtual_payload@
    }

    open spec fn spec_valid(payload: Seq<u8>) -> bool {
        payload.len() >= 6
    }

    open spec fn spec_decodes(payload: Seq<u8>, r: Result<Self, LinkError>) -> bool {
        match VirtualPacketKind::spec_from_id(be16_at(payload, 4)) {
            None => r == Err::<Self, LinkError>(
                LinkError::UnknownPacketKind(UnknownVirtualKind(be16_at(payload, 4))),
            ),
            Some(k) => if 6 + be32_at(payload, 0) <= payload.len() {
                r.is_ok() && r.unwrap().packet_kind == k && r.unwrap().virtual_payload@
                    == payload.subrange(6, 6 + be32_at(payload, 0))
            } else {
                r == Err::<Self, LinkError>(LinkError::TruncatedPayload)
            },
        }
    }

    fn kind() -> (r: RawPacketKind) {
        RawPacketKind::VirtDataLast
    }

    fn payload(&self) -> (r: Vec<u8>) {
        let mut r: Vec<u8> = Vec::new();
        push_u32_be(&mut r, self.virtual_payload.len() as u32);
        push_u16_be(&mut r, self.packet_kind.id());
        r.extend_from_slice(self.virtual_payload.as_slice());
        assert(r@ =~= self.spec_payload());
        r
    }

    fn is_valid(payload: &[u8]) -> (r: bool) {
        payload.len() >= 6
    }

    fn from_payload(payload: &[u8]) -> (r: Result<Self, LinkError>) {
        let size = read_u32_be(payload, 0) as usize;
        let id = read_u16_be(payload, 4);
        let packet_kind = match VirtualPacketKind::from_id(id) {
            Some(k) => k,
            None => return Err(LinkError::UnknownPacketKind(UnknownVirtualKind(id))),
        };
        if size > payload.len() - 6 {
            return Err(LinkError::TruncatedPayload);
        }
        let virtual_payload = slice_to_vec(&payload[6..6 + size]);
        Ok(FinalVirtDataPacket { packet_kind, virtual_payload })
    }
}

} // verus!

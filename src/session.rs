//! The connection state and the decisions of each session operation. The
//! caller moves the bytes: it sends the packets that these functions name and
//! hands back the packets that arrive.
use vstd::prelude::*;

use crate::dusb::{
    spec_contents, spec_contents_payload, Parameter, ParameterView, Variable, VariableAttribute,
    VariableAttributeKind, VariableContents, VariableKind, VariableView,
};
use crate::error::LinkError;
use crate::packet::parser::parameter_views;
use crate::packet::raw::{
    clamp_buffer_size, spec_clamp, RawPacketKind, RawPackets, WrongPacketKind as RawWrongPacketKind,
};
use crate::packet::vtl::{VirtualPacket, VirtualPacketKind, VirtualPacketView, WrongPacketKind};
use vstd::math::min;

verus! {

/// The raw packet size that a connection asks for first.
pub const INITIAL_PACKET_SIZE: u32 = 1024;

/// The state of one connection: the negotiated raw packet size, and the bytes
/// that the transport delivered beyond what was read so far.
#[derive(Debug)]
pub struct Calculator {
    max_raw_packet_size: u32,
    buffer: Vec<u8>,
}

impl Calculator {
    /// The negotiated raw packet size.
    pub closed spec fn packet_size(&self) -> u32 {
        self.max_raw_packet_size
    }

    pub fn max_raw_packet_size(&self) -> (r: u32)
        ensures
            r == self.packet_size(),
    {
        self.max_raw_packet_size
    }

    /// The bytes read ahead and not yet handed out.
    pub closed spec fn buffered(&self) -> Seq<u8> {
        self.buffer@
    }

    pub fn new() -> (r: Self)
        ensures
            r.packet_size() == INITIAL_PACKET_SIZE,
            r.buffered() == Seq::<u8>::empty(),
    {
        Calculator { max_raw_packet_size: INITIAL_PACKET_SIZE, buffer: Vec::new() }
    }

    /// Applies the device's answer to a buffer-size request: the offered size,
    /// clamped, becomes the link's size. Any other packet is refused and
    /// changes nothing.
    pub fn negotiate_packet_size(&mut self, response: RawPackets) -> (r: Result<(), LinkError>)
        ensures
            match response {
                RawPackets::RespondBufSize(size) => r is Ok && final(self).packet_size()
                    == spec_clamp(size) && final(self).buffered() == old(self).buffered(),
                _ => r == Err::<(), LinkError>(
                    LinkError::WrongRawPacketKind(
                        RawWrongPacketKind {
                            expected: RawPacketKind::BufSizeAlloc,
                            received: response.spec_kind(),
                        },
                    ),
                ) && *final(self) == *old(self),
            },
    {
        let received = response.kind();
        match response {
            RawPackets::RespondBufSize(size) => {
                self.max_raw_packet_size = clamp_buffer_size(size);
                Ok(())
            },
            _ => Err(
                LinkError::WrongRawPacketKind(
                    RawWrongPacketKind { expected: RawPacketKind::BufSizeAlloc, received },
                ),
            ),
        }
    }

    /// Whether the bytes read ahead are used up, so that the next read needs
    /// a transfer from the device.
    pub fn needs_transfer(&self) -> (r: bool)
        ensures
            r == (self.buffered().len() == 0),
    {
        self.buffer.len() == 0
    }

    /// Keeps a chunk that the transport delivered, once the earlier one is
    /// used up.
    pub fn fill(&mut self, chunk: Vec<u8>)
        requires
            old(self).buffered().len() == 0,
        ensures
            final(self).buffered() == chunk@,
            final(self).packet_size() == old(self).packet_size(),
    {
        self.buffer = chunk;
    }

    /// Hands out the next bytes read ahead: as many as asked for, but no more
    /// than the negotiated size nor than there are.
    pub fn read(&mut self, want: usize) -> (r: Vec<u8>)
        ensures
            r@.len() == min(
                min(want as int, old(self).packet_size() as int),
                old(self).buffered().len() as int,
            ),
            old(self).buffered() == r@ + final(self).buffered(),
            final(self).packet_size() == old(self).packet_size(),
    {
        let mut n = want;
        if n > self.max_raw_packet_size as usize {
            n = self.max_raw_packet_size as usize;
        }
        if n > self.buffer.len() {
            n = self.buffer.len();
        }
        let rest = self.buffer.split_off(n);
        let mut taken: Vec<u8> = Vec::new();
        taken.append(&mut self.buffer);
        self.buffer = rest;
        assert(old(self).buffered() =~= taken@ + self.buffered());
        taken
    }

    /// The answer that ends a mode change.
    pub fn set_mode_reply(reply: VirtualPacket) -> (r: Result<(), LinkError>)
        ensures
            reply@ is SetModeAcknowledge ==> r is Ok,
            !(reply@ is SetModeAcknowledge) ==> r == Err::<(), LinkError>(
                LinkError::WrongPacketKind(
                    WrongPacketKind {
                        expected: VirtualPacketKind::SetModeAcknowledge,
                        received: reply@.kind(),
                    },
                ),
            ),
    {
        match reply {
            VirtualPacket::SetModeAcknowledge => Ok(()),
            _ => Err(
                LinkError::WrongPacketKind(
                    WrongPacketKind::new(VirtualPacketKind::SetModeAcknowledge, reply),
                ),
            ),
        }
    }
}

/// The answer to a parameter request.
pub open spec fn spec_parameters_reply(reply: VirtualPacketView) -> Result<
    Seq<ParameterView>,
    LinkError,
> {
    match reply {
        VirtualPacketView::ParameterResponse(ps) => Ok(ps),
        other => Err(
            LinkError::WrongPacketKind(
                WrongPacketKind {
                    expected: VirtualPacketKind::ParameterResponse,
                    received: other.kind(),
                },
            ),
        ),
    }
}

/// The value of the first `Kind` attribute in `attrs`.
pub open spec fn first_kind_attribute(attrs: Seq<VariableAttribute>) -> Option<u32>
    decreases attrs.len(),
{
    if attrs.len() == 0 {
        None
    } else {
        match attrs[0] {
            VariableAttribute::Kind(k) => Some(k),
            _ => first_kind_attribute(attrs.drop_first()),
        }
    }
}

/// The kind of contents that a variable header announces, from its first
/// `Kind` attribute. A device error in place of the header is passed on.
pub open spec fn spec_variable_kind(reply: VirtualPacketView) -> Result<VariableKind, LinkError> {
    match reply {
        VirtualPacketView::VariableHeader(v) => match first_kind_attribute(v.attributes) {
            None => Err(LinkError::MissingKindAttribute),
            Some(id) => match VariableKind::spec_from_id(id) {
                Some(k) => Ok(k),
                None => Err(LinkError::UnknownVariableKind(id)),
            },
        },
        VirtualPacketView::Error(e) => Err(LinkError::Device(e)),
        other => Err(
            LinkError::WrongPacketKind(
                WrongPacketKind {
                    expected: VirtualPacketKind::VariableHeader,
                    received: other.kind(),
                },
            ),
        ),
    }
}

/// The attributes that a variable request asks for.
pub open spec fn requested_attributes() -> Seq<VariableAttributeKind> {
    seq![
        VariableAttributeKind::Archived,
        VariableAttributeKind::Version,
        VariableAttributeKind::Size,
        VariableAttributeKind::Kind,
    ]
}

/// The kind override that a variable request gives.
pub const KIND_OVERRIDE: u32 = 0xf00e001a;

/// The attributes that a variable request gives.
pub open spec fn given_attributes() -> Seq<VariableAttribute> {
    seq![VariableAttribute::Kind2(KIND_OVERRIDE)]
}

impl Calculator {
    /// The answer that ends a parameter request.
    pub fn parameters_reply(reply: VirtualPacket) -> (r: Result<Vec<Parameter>, LinkError>)
        ensures
            match spec_parameters_reply(reply@) {
                Ok(ps) => r.is_ok() && parameter_views(r.unwrap()@) == ps,
                Err(e) => r == Err::<Vec<Parameter>, LinkError>(e),
            },
    {
        match reply {
            VirtualPacket::ParameterResponse(ps) => Ok(ps),
            _ => Err(
                LinkError::WrongPacketKind(
                    WrongPacketKind::new(VirtualPacketKind::ParameterResponse, reply),
                ),
            ),
        }
    }

    /// The request for the variable `name`: it asks for the archived flag,
    /// version, size and kind, and gives a fixed kind override.
    pub fn request_variable_packet(name: String) -> (r: VirtualPacket)
        ensures
            r@ == VirtualPacketView::RequestVariable(
                name@,
                requested_attributes(),
                given_attributes(),
            ),
    {
        let r = VirtualPacket::RequestVariable(
            name,
            vec![
                VariableAttributeKind::Archived,
                VariableAttributeKind::Version,
                VariableAttributeKind::Size,
                VariableAttributeKind::Kind,
            ],
            vec![VariableAttribute::Kind2(KIND_OVERRIDE)],
        );
        assert(r@ == VirtualPacketView::RequestVariable(
            name@,
            requested_attributes(),
            given_attributes(),
        )) by {
            match r {
                VirtualPacket::RequestVariable(_, req, given) => {
                    assert(req@ =~= requested_attributes());
                    assert(given@ =~= given_attributes());
                },
                _ => {},
            }
        }
        r
    }

    /// The kind of contents announced by the header that answers a variable
    /// request.
    pub fn variable_kind_reply(reply: VirtualPacket) -> (r: Result<VariableKind, LinkError>)
        ensures
            r == spec_variable_kind(reply@),
    {
        let ghost whole = reply@;
        match reply {
            VirtualPacket::VariableHeader(v) => {
                assert(whole == VirtualPacketView::VariableHeader(v@));
                let attrs = &v.attributes;
                let mut i: usize = 0;
                assert(attrs@.subrange(0, attrs@.len() as int) =~= attrs@);
                while i < attrs.len()
                    invariant
                        i <= attrs@.len(),
                        whole == VirtualPacketView::VariableHeader(v@),
                        whole == reply@,
                        v@.attributes == attrs@,
                        first_kind_attribute(attrs@) == first_kind_attribute(
                            attrs@.subrange(i as int, attrs@.len() as int),
                        ),
                    decreases attrs@.len() - i,
                {
                    assert(attrs@.subrange(i as int, attrs@.len() as int).drop_first()
                        =~= attrs@.subrange(i + 1, attrs@.len() as int));
                    assert(attrs@.subrange(i as int, attrs@.len() as int)[0] == attrs@[i as int]);
                    match attrs[i] {
                        VariableAttribute::Kind(id) => {
                            assert(first_kind_attribute(
                                attrs@.subrange(i as int, attrs@.len() as int),
                            ) == Some(id));
                            let res = match VariableKind::from_id(id) {
                                Some(k) => Ok(k),
                                None => Err(LinkError::UnknownVariableKind(id)),
                            };
                            return res;
                        },
                        _ => {},
                    }
                    i = i + 1;
                }
                assert(attrs@.subrange(i as int, attrs@.len() as int).len() == 0);
                Err(LinkError::MissingKindAttribute)
            },
            VirtualPacket::Error(e) => Err(LinkError::Device(e)),
            _ => Err(
                LinkError::WrongPacketKind(
                    WrongPacketKind::new(VirtualPacketKind::VariableHeader, reply),
                ),
            ),
        }
    }

    /// The contents that answer a variable request, read as `kind` says.
    pub fn contents_reply(kind: VariableKind, reply: VirtualPacket) -> (r: Result<
        VariableContents,
        LinkError,
    >)
        ensures
            match reply@ {
                VirtualPacketView::VariableContents(b) => match spec_contents(kind, b) {
                    Some(c) => r.is_ok() && r.unwrap()@ == c,
                    None => r == Err::<VariableContents, LinkError>(LinkError::TruncatedPayload),
                },
                other => r == Err::<VariableContents, LinkError>(
                    LinkError::WrongPacketKind(
                        WrongPacketKind {
                            expected: VirtualPacketKind::VariableContents,
                            received: other.kind(),
                        },
                    ),
                ),
            },
    {
        match reply {
            VirtualPacket::VariableContents(b) => {
                VariableContents::from_payload(kind, b.as_slice())
            },
            _ => Err(
                LinkError::WrongPacketKind(
                    WrongPacketKind::new(VirtualPacketKind::VariableContents, reply),
                ),
            ),
        }
    }

    /// The two packets that send a variable: the announcement of its header,
    /// then its encoded contents.
    pub fn send_variable_packets(header: Variable, contents: VariableContents) -> (r: Result<
        (VirtualPacket, VirtualPacket),
        LinkError,
    >)
        ensures
            match spec_contents_payload(contents@) {
                Ok(b) => r.is_ok() && r.unwrap().0@ == VirtualPacketView::RequestToSend(header@)
                    && r.unwrap().1@ == VirtualPacketView::VariableContents(b),
                Err(e) => r == Err::<(VirtualPacket, VirtualPacket), LinkError>(e),
            },
    {
        match contents.into_payload() {
            Ok(b) => Ok((VirtualPacket::RequestToSend(header), VirtualPacket::VariableContents(b))),
            Err(e) => Err(e),
        }
    }

    /// The answer that acknowledges a variable's contents.
    pub fn data_ack_reply(reply: VirtualPacket) -> (r: Result<(), LinkError>)
        ensures
            reply@ is DataAcknowledge ==> r is Ok,
            !(reply@ is DataAcknowledge) ==> r == Err::<(), LinkError>(
                LinkError::WrongPacketKind(
                    WrongPacketKind {
                        expected: VirtualPacketKind::DataAcknowledge,
                        received: reply@.kind(),
                    },
                ),
            ),
    {
        match reply {
            VirtualPacket::DataAcknowledge => Ok(()),
            _ => Err(
                LinkError::WrongPacketKind(
                    WrongPacketKind::new(VirtualPacketKind::DataAcknowledge, reply),
                ),
            ),
        }
    }
}

/// What a directory listing does after a packet.
#[derive(Debug, Clone, Copy, PartialEq, Eq, Structural)]
pub enum DirectoryStep {
    /// Receive the next packet.
    Continue,
    /// The calculator asked for a pause of this many milliseconds; pause,
    /// then receive the next packet.
    Wait(u32),
    /// The listing is complete.
    Done,
}

/// A directory listing in progress: the headers received so far.
#[derive(Debug)]
pub struct DirectoryListing {
    variables: Vec<Variable>,
}

impl DirectoryListing {
    /// The headers received so far, in order.
    pub closed spec fn listed(&self) -> Seq<VariableView> {
        self.variables@.map_values(|v: Variable| v@)
    }

    pub fn new() -> (r: Self)
        ensures
            r.listed() == Seq::<VariableView>::empty(),
    {
        let r = DirectoryListing { variables: Vec::new() };
        assert(r.listed() =~= Seq::<VariableView>::empty());
        r
    }

    /// Takes the next packet that answers a directory request. A header is
    /// added to the listing, a wait asks for a pause, the end of transmission
    /// ends the listing, and a device error or any other packet fails it.
    pub fn on_packet(&mut self, packet: VirtualPacket) -> (r: Result<DirectoryStep, LinkError>)
        ensures
            match packet@ {
                VirtualPacketView::VariableHeader(v) => r == Ok::<DirectoryStep, LinkError>(
                    DirectoryStep::Continue,
                ) && final(self).listed() == old(self).listed().push(v),
                VirtualPacketView::Wait(ms) => r == Ok::<DirectoryStep, LinkError>(
                    DirectoryStep::Wait(ms),
                ) && final(self).listed() == old(self).listed(),
                VirtualPacketView::EndOfTransmission => r == Ok::<DirectoryStep, LinkError>(
                    DirectoryStep::Done,
                ) && final(self).listed() == old(self).listed(),
                VirtualPacketView::Error(e) => r == Err::<DirectoryStep, LinkError>(
                    LinkError::Device(e),
                ) && final(self).listed() == old(self).listed(),
                other => r == Err::<DirectoryStep, LinkError>(
                    LinkError::WrongPacketKind(
                        WrongPacketKind {
                            expected: VirtualPacketKind::VariableHeader,
                            received: other.kind(),
                        },
                    ),
                ) && final(self).listed() == old(self).listed(),
            },
    {
        match packet {
            VirtualPacket::VariableHeader(v) => {
                self.variables.push(v);
                assert(self.listed() =~= old(self).listed().push(v@));
                Ok(DirectoryStep::Continue)
            },
            VirtualPacket::Wait(ms) => Ok(DirectoryStep::Wait(ms)),
            VirtualPacket::EndOfTransmission => Ok(DirectoryStep::Done),
            VirtualPacket::Error(e) => Err(LinkError::Device(e)),
            _ => Err(
                LinkError::WrongPacketKind(
                    WrongPacketKind::new(VirtualPacketKind::VariableHeader, packet),
                ),
            ),
        }
    }

    /// The headers received, in order.
    pub fn into_variables(self) -> (r: Vec<Variable>)
        ensures
            r@.map_values(|v: Variable| v@) == self.listed(),
    {
        self.variables
    }
}

impl WrongPacketKind {
    pub fn new(expected: VirtualPacketKind, received: VirtualPacket) -> (r: Self)
        ensures
            r == (WrongPacketKind { expected, received: received@.kind() }),
    {
        WrongPacketKind { expected, received: received.kind() }
    }
}

} // verus!

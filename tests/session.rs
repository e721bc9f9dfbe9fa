use dusb_link::dusb::{Variable, VariableAttribute, VariableContents, VariableKind};
use dusb_link::error::LinkError;
use dusb_link::packet::vtl::{DeviceError, VirtualPacket, VirtualPacketKind, WrongPacketKind};
use dusb_link::session::{Calculator, DirectoryListing, DirectoryStep};

fn var(name: &str, size: u32) -> Variable {
    Variable { name: String::from(name), attributes: vec![VariableAttribute::Size(size)] }
}

#[test]
fn directory_listing_keeps_order_across_waits() {
    let a = var("A", 1);
    let b = var("B", 2);
    let mut listing = DirectoryListing::new();
    assert_eq!(
        listing.on_packet(VirtualPacket::VariableHeader(a.clone())),
        Ok(DirectoryStep::Continue)
    );
    assert_eq!(listing.on_packet(VirtualPacket::Wait(50)), Ok(DirectoryStep::Wait(50)));
    assert_eq!(
        listing.on_packet(VirtualPacket::VariableHeader(b.clone())),
        Ok(DirectoryStep::Continue)
    );
    assert_eq!(listing.on_packet(VirtualPacket::EndOfTransmission), Ok(DirectoryStep::Done));
    assert_eq!(listing.into_variables(), vec![a, b]);
}

#[test]
fn directory_listing_failures() {
    let mut listing = DirectoryListing::new();
    assert_eq!(
        listing.on_packet(VirtualPacket::Error(DeviceError::Busy)),
        Err(LinkError::Device(DeviceError::Busy))
    );
    assert_eq!(
        listing.on_packet(VirtualPacket::SetModeAcknowledge),
        Err(LinkError::WrongPacketKind(WrongPacketKind {
            expected: VirtualPacketKind::VariableHeader,
            received: VirtualPacketKind::SetModeAcknowledge,
        }))
    );
    assert!(listing.into_variables().is_empty());
}

#[test]
fn replies_of_mode_and_parameters() {
    assert_eq!(Calculator::set_mode_reply(VirtualPacket::SetModeAcknowledge), Ok(()));
    assert_eq!(
        Calculator::set_mode_reply(VirtualPacket::EndOfTransmission),
        Err(LinkError::WrongPacketKind(WrongPacketKind {
            expected: VirtualPacketKind::SetModeAcknowledge,
            received: VirtualPacketKind::EndOfTransmission,
        }))
    );
    assert_eq!(
        Calculator::parameters_reply(VirtualPacket::ParameterResponse(vec![])),
        Ok(vec![])
    );
    assert_eq!(
        Calculator::parameters_reply(VirtualPacket::Wait(1)),
        Err(LinkError::WrongPacketKind(WrongPacketKind {
            expected: VirtualPacketKind::ParameterResponse,
            received: VirtualPacketKind::Wait,
        }))
    );
}

#[test]
fn variable_kind_from_header() {
    let header = Variable {
        name: String::from("Str1"),
        attributes: vec![
            VariableAttribute::Size(4),
            VariableAttribute::Kind(0xf0070004),
            VariableAttribute::Kind(0xf00f0024),
        ],
    };
    assert_eq!(
        Calculator::variable_kind_reply(VirtualPacket::VariableHeader(header)),
        Ok(VariableKind::String)
    );
    assert_eq!(
        Calculator::variable_kind_reply(VirtualPacket::VariableHeader(var("X", 1))),
        Err(LinkError::MissingKindAttribute)
    );
    let odd = Variable { name: String::new(), attributes: vec![VariableAttribute::Kind(7)] };
    assert_eq!(
        Calculator::variable_kind_reply(VirtualPacket::VariableHeader(odd)),
        Err(LinkError::UnknownVariableKind(7))
    );
    assert_eq!(
        Calculator::variable_kind_reply(VirtualPacket::Error(DeviceError::InvalidName)),
        Err(LinkError::Device(DeviceError::InvalidName))
    );
}

#[test]
fn contents_reply_decodes_by_kind() {
    assert_eq!(
        Calculator::contents_reply(
            VariableKind::String,
            VirtualPacket::VariableContents(vec![2, 0, b'h', b'i'])
        ),
        Ok(VariableContents::String(String::from("hi")))
    );
    assert_eq!(
        Calculator::contents_reply(VariableKind::Image, VirtualPacket::EndOfTransmission),
        Err(LinkError::WrongPacketKind(WrongPacketKind {
            expected: VirtualPacketKind::VariableContents,
            received: VirtualPacketKind::EndOfTransmission,
        }))
    );
}

#[test]
fn sending_a_variable() {
    let header = var("Str1", 4);
    let (rts, contents) = Calculator::send_variable_packets(
        header.clone(),
        VariableContents::String(String::from("Test")),
    )
    .unwrap();
    assert_eq!(rts, VirtualPacket::RequestToSend(header.clone()));
    assert_eq!(contents, VirtualPacket::VariableContents(vec![4, 0, b'T', b'e', b's', b't']));
    assert_eq!(
        Calculator::send_variable_packets(header, VariableContents::Image(vec![])),
        Err(LinkError::Unsupported)
    );
    assert_eq!(Calculator::data_ack_reply(VirtualPacket::DataAcknowledge), Ok(()));
    assert_eq!(
        Calculator::data_ack_reply(VirtualPacket::EndOfTransmission),
        Err(LinkError::WrongPacketKind(WrongPacketKind {
            expected: VirtualPacketKind::DataAcknowledge,
            received: VirtualPacketKind::EndOfTransmission,
        }))
    );
}

#[test]
fn read_ahead_buffer() {
    let mut calc = Calculator::new();
    assert!(calc.needs_transfer());
    calc.fill((0u8..10).collect());
    assert!(!calc.needs_transfer());
    assert_eq!(calc.read(4), vec![0, 1, 2, 3]);
    assert_eq!(calc.read(100), vec![4, 5, 6, 7, 8, 9]);
    assert!(calc.needs_transfer());
    assert_eq!(calc.read(3), Vec::<u8>::new());
}

#[test]
fn read_ahead_respects_negotiated_size() {
    let mut calc = Calculator::new();
    calc.negotiate_packet_size(dusb_link::packet::raw::RawPackets::RespondBufSize(3)).unwrap();
    calc.fill(vec![1; 8]);
    assert_eq!(calc.read(8).len(), 3);
    assert_eq!(calc.read(8).len(), 3);
    assert_eq!(calc.read(8).len(), 2);
}

#[test]
fn wrong_kind_names_received_packet() {
    assert_eq!(
        WrongPacketKind::new(VirtualPacketKind::VariableHeader, VirtualPacket::Wait(3)),
        WrongPacketKind {
            expected: VirtualPacketKind::VariableHeader,
            received: VirtualPacketKind::Wait,
        }
    );
}

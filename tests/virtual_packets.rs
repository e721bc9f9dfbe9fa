use dusb_link::dusb::{
    Mode, Parameter, ParameterKind, Variable, VariableAttribute, VariableAttributeKind,
};
use dusb_link::error::LinkError;
use dusb_link::packet::raw::{RawPacketKind, RawPackets, WrongPacketKind};
use dusb_link::packet::vtl::{
    Acknowledgment, DeviceError, UnknownPacketKindError, VirtualPacket, VirtualPacketKind,
};
use dusb_link::session::Calculator;

fn reassemble(packets: Vec<RawPackets>) -> Vec<u8> {
    let mut bytes = Vec::new();
    let n = packets.len();
    for (i, p) in packets.into_iter().enumerate() {
        let last = VirtualPacket::receive_bytes(&mut bytes, p).unwrap();
        assert_eq!(last, i + 1 == n);
    }
    bytes
}

#[test]
fn fragment_then_reassemble() {
    let m: u32 = 1018;
    for len in [0usize, m as usize - 1, m as usize, m as usize + 1, 10 * m as usize + 3] {
        let payload: Vec<u8> = (0..len).map(|i| (i * 7 % 251) as u8).collect();
        let packets = VirtualPacket::VariableContents(payload.clone())
            .into_raw_packets(m)
            .unwrap();
        let total = len + 6;
        assert_eq!(packets.len(), (total + m as usize - 1) / m as usize);
        for (i, p) in packets.iter().enumerate() {
            match p {
                RawPackets::VirtualData(b) => {
                    assert!(i + 1 < packets.len());
                    assert_eq!(b.len(), m as usize);
                }
                RawPackets::FinalVirtData(b) => {
                    assert_eq!(i + 1, packets.len());
                    assert!(!b.is_empty() && b.len() <= m as usize);
                }
                other => panic!("unexpected packet {:?}", other),
            }
        }
        let bytes = reassemble(packets);
        assert_eq!(bytes.len(), total);
        assert_eq!(
            VirtualPacket::receive(&bytes),
            Ok(VirtualPacket::VariableContents(payload))
        );
    }
}

#[test]
fn fragment_with_small_sizes() {
    for m in [1u32, 2, 5, 6, 7] {
        let payload = vec![0xab; 13];
        let packets = VirtualPacket::VariableContents(payload.clone())
            .into_raw_packets(m)
            .unwrap();
        let bytes = reassemble(packets);
        assert_eq!(
            VirtualPacket::receive(&bytes),
            Ok(VirtualPacket::VariableContents(payload))
        );
    }
}

#[test]
fn zero_packet_size_is_refused() {
    assert_eq!(
        VirtualPacket::EndOfTransmission.into_raw_packets(0),
        Err(LinkError::ZeroPacketSize)
    );
}

#[test]
fn single_fragment_stream() {
    let packets = VirtualPacket::Wait(50).into_raw_packets(1018).unwrap();
    assert_eq!(
        packets,
        vec![RawPackets::FinalVirtData(vec![0, 0, 0, 4, 0xbb, 0x00, 0, 0, 0, 50])]
    );
}

#[test]
fn reassembly_ignores_padding_after_declared_length() {
    let bytes = [0, 0, 0, 2, 0xee, 0x00, 0x00, 0x0c, 0xff, 0xff, 0xff];
    assert_eq!(
        VirtualPacket::receive(&bytes),
        Ok(VirtualPacket::Error(DeviceError::OutOfMemory))
    );
}

#[test]
fn reassembly_refuses_other_raw_kinds() {
    let mut bytes = vec![1];
    assert_eq!(
        VirtualPacket::receive_bytes(&mut bytes, RawPackets::RequestBufSize(10)),
        Err(LinkError::WrongRawPacketKind(WrongPacketKind {
            expected: RawPacketKind::VirtData,
            received: RawPacketKind::BufSizeReq,
        }))
    );
    assert_eq!(bytes, vec![1]);
}

#[test]
fn directory_request_bytes() {
    let p = VirtualPacket::DirectoryRequest(vec![
        VariableAttributeKind::Size,
        VariableAttributeKind::Kind,
    ]);
    assert_eq!(
        p.into_payload().unwrap(),
        vec![0x00, 0x00, 0x00, 0x02, 0x00, 0x01, 0x00, 0x02, 0x00, 0x01, 0x00, 0x01, 0x00, 0x01, 0x01]
    );
}

#[test]
fn set_mode_bytes() {
    assert_eq!(
        VirtualPacket::SetMode(Mode::Normal).into_payload().unwrap(),
        vec![0, 3, 0, 1, 0, 0, 0, 0, 0x7d, 0xd0]
    );
    assert_eq!(Mode::Startup.into_payload(), vec![0, 1, 0, 1, 0, 0, 0, 0, 0x7d, 0xd0]);
}

#[test]
fn parameter_request_bytes() {
    let p = VirtualPacket::ParameterRequest(vec![
        ParameterKind::ScreenWidth,
        ParameterKind::ScreenHeight,
        ParameterKind::ScreenContents,
    ]);
    assert_eq!(p.into_payload().unwrap(), vec![0, 3, 0, 0x1e, 0, 0x1f, 0, 0x22]);
}

#[test]
fn parameter_request_decodes() {
    let bytes = [0, 2, 0, 0x25, 0, 0x02];
    assert_eq!(
        VirtualPacket::from_payload(VirtualPacketKind::ParameterRequest, &bytes),
        Ok(VirtualPacket::ParameterRequest(vec![ParameterKind::Clock, ParameterKind::Name]))
    );
    assert_eq!(
        VirtualPacket::from_payload(VirtualPacketKind::ParameterRequest, &[0, 2, 0, 0x25]),
        Err(LinkError::TruncatedPayload)
    );
}

#[test]
fn request_variable_bytes() {
    let p = Calculator::request_variable_packet(String::from("Str1"));
    let mut expected = vec![0, 4, b'S', b't', b'r', b'1', 0, 1, 0xff, 0xff, 0xff, 0xff];
    expected.extend_from_slice(&[0, 4, 0, 3, 0, 8, 0, 1, 0, 2]);
    expected.extend_from_slice(&[0, 1, 0, 0x11, 0, 4, 0xf0, 0x0e, 0x00, 0x1a]);
    expected.extend_from_slice(&[0, 0]);
    assert_eq!(p.into_payload().unwrap(), expected);
}

#[test]
fn header_round_trip() {
    let v = Variable {
        name: String::from("A"),
        attributes: vec![VariableAttribute::Size(5), VariableAttribute::Version(2)],
    };
    let bytes = VirtualPacket::VariableHeader(v.clone()).into_payload().unwrap();
    assert_eq!(
        bytes,
        vec![0, 1, b'A', 0, 0, 2, 0, 1, 0, 0, 4, 0, 0, 0, 5, 0, 8, 0, 0, 1, 2]
    );
    assert_eq!(
        VirtualPacket::from_payload(VirtualPacketKind::VariableHeader, &bytes),
        Ok(VirtualPacket::VariableHeader(v))
    );
}

#[test]
fn small_payloads_encode() {
    assert_eq!(VirtualPacket::Wait(0x01020304).into_payload().unwrap(), vec![1, 2, 3, 4]);
    assert_eq!(
        VirtualPacket::Error(DeviceError::Busy).into_payload().unwrap(),
        vec![0x00, 0x11]
    );
    assert_eq!(VirtualPacket::EndOfTransmission.into_payload().unwrap(), Vec::<u8>::new());
    assert_eq!(
        VirtualPacket::ParameterResponse(vec![Parameter::Clock(1)]).into_payload(),
        Err(LinkError::Unsupported)
    );
}

#[test]
fn unknown_virtual_kind() {
    let bytes = [0, 0, 0, 0, 0xff, 0xff];
    assert_eq!(
        VirtualPacket::receive(&bytes),
        Err(LinkError::UnknownPacketKind(UnknownPacketKindError(0xffff)))
    );
}

#[test]
fn short_stream_is_truncated() {
    assert_eq!(VirtualPacket::receive(&[0, 0, 0]), Err(LinkError::TruncatedPayload));
    assert_eq!(
        VirtualPacket::receive(&[0, 0, 0, 5, 0xbb, 0x00, 1, 2]),
        Err(LinkError::TruncatedPayload)
    );
}

#[test]
fn device_errors_decode() {
    assert_eq!(
        VirtualPacket::from_payload(VirtualPacketKind::Error, &[0x00, 0x12]),
        Ok(VirtualPacket::Error(DeviceError::VariableUnwritable))
    );
    assert_eq!(
        VirtualPacket::from_payload(VirtualPacketKind::Error, &[0x00, 0x13]),
        Err(LinkError::UnknownDeviceError(0x13))
    );
    assert_eq!(DeviceError::from_code(0x34), Some(DeviceError::HandheldBusy));
    assert_eq!(DeviceError::BatteryLow.code(), 0x2b);
}

#[test]
fn mode_messages_decode() {
    assert_eq!(
        VirtualPacket::from_payload(VirtualPacketKind::SetMode, &[0, 2, 0, 1]),
        Ok(VirtualPacket::SetMode(Mode::Basic))
    );
    assert_eq!(
        VirtualPacket::from_payload(VirtualPacketKind::SetMode, &[0, 9]),
        Err(LinkError::UnknownMode(9))
    );
    assert_eq!(
        VirtualPacket::from_payload(VirtualPacketKind::Wait, &[0, 0, 0, 50]),
        Ok(VirtualPacket::Wait(50))
    );
    assert_eq!(
        VirtualPacket::from_payload(VirtualPacketKind::Wait, &[0, 0]),
        Err(LinkError::TruncatedPayload)
    );
    assert_eq!(
        VirtualPacket::from_payload(VirtualPacketKind::DirectoryRequest, &[]),
        Err(LinkError::Unsupported)
    );
}

#[test]
fn acknowledgment_wait() {
    let calc = Calculator::new();
    assert_eq!(
        VirtualPacket::wait_for_acknowledge(&calc, RawPackets::RequestBufSize(1)),
        Ok(Acknowledgment::Respond(RawPackets::RespondBufSize(1024)))
    );
    assert_eq!(
        VirtualPacket::wait_for_acknowledge(&calc, RawPackets::VirtualDataAcknowledge(0xe000)),
        Ok(Acknowledgment::Received)
    );
    assert_eq!(
        VirtualPacket::wait_for_acknowledge(&calc, RawPackets::VirtualDataAcknowledge(0x1234)),
        Err(LinkError::InvalidAcknowledge(dusb_link::packet::raw::InvalidPayload))
    );
    assert_eq!(
        VirtualPacket::wait_for_acknowledge(&calc, RawPackets::VirtualData(vec![])),
        Err(LinkError::WrongRawPacketKind(WrongPacketKind {
            expected: RawPacketKind::VirtDataAck,
            received: RawPacketKind::VirtData,
        }))
    );
}

#[test]
fn virtual_kind_ids() {
    assert_eq!(VirtualPacketKind::from_id(0xdd00), Some(VirtualPacketKind::EndOfTransmission));
    assert_eq!(VirtualPacketKind::from_id(0xffff), None);
    assert_eq!(VirtualPacketKind::RequestToSend.id(), 0x000b);
    assert_eq!(VirtualPacket::DataAcknowledge.kind(), VirtualPacketKind::DataAcknowledge);
}

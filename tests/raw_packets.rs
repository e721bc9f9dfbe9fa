use dusb_link::error::LinkError;
use dusb_link::packet::raw::{
    clamp_buffer_size, BufSizeAllocPacket, BufSizeReqPacket, FinalVirtDataPacket, InvalidPayload,
    RawPacket, RawPacketHeader, RawPacketKind, RawPacketTrait, RawPackets,
    UnknownPacketKindError, WrongPacketKind, WrongPacketSize,
};
use dusb_link::packet::vtl::VirtualPacketKind;
use dusb_link::session::Calculator;

#[test]
fn buffer_size_response_is_clamped() {
    assert_eq!(clamp_buffer_size(1019), 1018);
    assert_eq!(clamp_buffer_size(2000), 1018);
    assert_eq!(clamp_buffer_size(500), 500);
    assert_eq!(clamp_buffer_size(1018), 1018);
}

#[test]
fn negotiation_stores_clamped_size() {
    for (offered, kept) in [(1019u32, 1018u32), (2000, 1018), (500, 500)] {
        let mut calc = Calculator::new();
        assert_eq!(calc.max_raw_packet_size(), 1024);
        let response = RawPackets::from_payload(2, offered.to_be_bytes().to_vec()).unwrap();
        calc.negotiate_packet_size(response).unwrap();
        assert_eq!(calc.max_raw_packet_size(), kept);
    }
}

#[test]
fn negotiation_refuses_other_packets() {
    let mut calc = Calculator::new();
    let r = calc.negotiate_packet_size(RawPackets::RequestBufSize(100));
    assert_eq!(
        r,
        Err(LinkError::WrongRawPacketKind(WrongPacketKind {
            expected: RawPacketKind::BufSizeAlloc,
            received: RawPacketKind::BufSizeReq,
        }))
    );
    assert_eq!(calc.max_raw_packet_size(), 1024);
}

#[test]
fn alloc_record_clamps_on_decode() {
    let header = RawPacketHeader { size: 4, kind: RawPacketKind::BufSizeAlloc };
    let p = BufSizeAllocPacket::receive(header, &[0, 0, 0x07, 0xd0]).unwrap();
    assert_eq!(p, BufSizeAllocPacket::new(1018));
    let p = BufSizeAllocPacket::receive(header, &[0, 0, 0x01, 0xf4]).unwrap();
    assert_eq!(p.size, 500);
}

#[test]
fn record_receive_refuses_wrong_kind_and_shape() {
    let header = RawPacketHeader { size: 4, kind: RawPacketKind::BufSizeReq };
    assert_eq!(
        BufSizeAllocPacket::receive(header, &[0, 0, 4, 0]),
        Err(LinkError::WrongRawPacketKind(WrongPacketKind {
            expected: RawPacketKind::BufSizeAlloc,
            received: RawPacketKind::BufSizeReq,
        }))
    );
    let header = RawPacketHeader { size: 3, kind: RawPacketKind::BufSizeReq };
    assert_eq!(
        BufSizeReqPacket::receive(header, &[0, 4, 0]),
        Err(LinkError::InvalidPayload(InvalidPayload))
    );
}

#[test]
fn record_frames() {
    let mut out = Vec::new();
    BufSizeReqPacket::new(1024).send(&mut out).unwrap();
    assert_eq!(out, vec![0, 0, 0, 4, 1, 0, 0, 4, 0]);

    let mut out = Vec::new();
    FinalVirtDataPacket::new(VirtualPacketKind::EndOfTransmission, vec![])
        .send(&mut out)
        .unwrap();
    assert_eq!(out, vec![0, 0, 0, 6, 4, 0, 0, 0, 0, 0xdd, 0x00]);
}

#[test]
fn final_fragment_record_reads_declared_length() {
    let header = RawPacketHeader { size: 9, kind: RawPacketKind::VirtDataLast };
    let p = FinalVirtDataPacket::receive(header, &[0, 0, 0, 2, 0xbb, 0x00, 7, 8, 9]).unwrap();
    assert_eq!(p.packet_kind, VirtualPacketKind::Wait);
    assert_eq!(p.virtual_payload, vec![7, 8]);
    let header = RawPacketHeader { size: 6, kind: RawPacketKind::VirtDataLast };
    assert_eq!(
        FinalVirtDataPacket::receive(header, &[0, 0, 0, 2, 0xbb, 0x00]),
        Err(LinkError::TruncatedPayload)
    );
}

#[test]
fn raw_decode_by_kind() {
    assert_eq!(
        RawPackets::from_payload(1, vec![0, 0, 4, 0]),
        Ok(RawPackets::RequestBufSize(1024))
    );
    assert_eq!(
        RawPackets::from_payload(3, vec![1, 2, 3]),
        Ok(RawPackets::VirtualData(vec![1, 2, 3]))
    );
    assert_eq!(
        RawPackets::from_payload(4, vec![]),
        Ok(RawPackets::FinalVirtData(vec![]))
    );
    assert_eq!(
        RawPackets::from_payload(5, vec![0xe0, 0x00]),
        Ok(RawPackets::VirtualDataAcknowledge(0xe000))
    );
}

#[test]
fn raw_decode_unknown_kind() {
    assert_eq!(
        RawPackets::from_payload(6, vec![]),
        Err(LinkError::UnknownRawPacketKind(UnknownPacketKindError(6)))
    );
    assert_eq!(
        RawPackets::from_payload(0, vec![1]),
        Err(LinkError::UnknownRawPacketKind(UnknownPacketKindError(0)))
    );
}

#[test]
fn raw_decode_wrong_size() {
    assert_eq!(
        RawPackets::from_payload(2, vec![0, 4, 0]),
        Err(LinkError::WrongPacketSize(WrongPacketSize { expected: 4, received: 3 }))
    );
}

#[test]
fn acknowledgment_without_sentinel_fails() {
    for payload in [vec![0xe0, 0x01], vec![0x00, 0xe0], vec![0xe0], vec![0xe0, 0x00, 0x00], vec![]] {
        assert_eq!(
            RawPackets::from_payload(5, payload),
            Err(LinkError::InvalidAcknowledge(InvalidPayload))
        );
    }
}

#[test]
fn raw_frames() {
    let mut out = Vec::new();
    RawPackets::VirtualDataAcknowledge(0xe000).send(&mut out);
    assert_eq!(out, vec![0, 0, 0, 2, 5, 0xe0, 0x00]);
    RawPackets::RespondBufSize(1018).send(&mut out);
    assert_eq!(out[7..], [0, 0, 0, 4, 2, 0, 0, 0x03, 0xfa]);

    let mut out = vec![9];
    RawPacket::new(RawPacketKind::VirtData, vec![1, 2]).send(&mut out);
    assert_eq!(out, vec![9, 0, 0, 0, 2, 3, 1, 2]);
}

#[test]
fn header_and_exact_receive() {
    let header = [0, 0, 0, 2, 5];
    assert_eq!(
        RawPacketHeader::receive(&header),
        Ok(RawPacketHeader { size: 2, kind: RawPacketKind::VirtDataAck })
    );
    assert_eq!(
        RawPacketHeader::receive(&[0, 0, 0, 0, 9]),
        Err(LinkError::UnknownRawPacketKind(UnknownPacketKindError(9)))
    );
    assert_eq!(
        RawPackets::receive(&header, vec![0xe0, 0x00]),
        Ok(RawPackets::VirtualDataAcknowledge(0xe000))
    );
    assert_eq!(
        RawPackets::receive_exact(RawPacketKind::VirtDataAck, &header, vec![0xe0, 0x00]),
        Ok(RawPackets::VirtualDataAcknowledge(0xe000))
    );
    assert_eq!(
        RawPackets::receive_exact(RawPacketKind::BufSizeAlloc, &header, vec![0xe0, 0x00]),
        Err(LinkError::WrongRawPacketKind(WrongPacketKind {
            expected: RawPacketKind::BufSizeAlloc,
            received: RawPacketKind::VirtDataAck,
        }))
    );
}

#[test]
fn kind_ids() {
    assert_eq!(RawPacketKind::try_from_id(3), Ok(RawPacketKind::VirtData));
    assert_eq!(RawPacketKind::VirtDataLast.id(), 4);
    assert_eq!(RawPackets::FinalVirtData(vec![]).kind(), RawPacketKind::VirtDataLast);
}

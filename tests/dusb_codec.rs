use dusb_link::dusb::{
    InvalidParameterPayload, Parameter, ParameterKind, Screenshot, UnknownParameterKindError,
    VariableAttribute, VariableAttributeKind, VariableContents, VariableKind,
};
use dusb_link::error::LinkError;
use dusb_link::packet::parser::{parameter, parameter_response, parameter_size, variable_header};
use dusb_link::packet::vtl::{VirtualPacket, VirtualPacketKind};
use dusb_link::util::{u16_from_bytes, u32_from_bytes};

#[test]
fn parameter_response_skips_absent_entries() {
    let bytes = [
        0x00, 0x02, // two entries
        0x00, 0x1e, 0x00, 0x00, 0x02, 0x01, 0x40, // screen width 320
        0x00, 0x1f, 0x01, // screen height, absent
    ];
    assert_eq!(parameter_response(&bytes), Ok(vec![Parameter::ScreenWidth(320)]));
    assert_eq!(
        VirtualPacket::from_payload(VirtualPacketKind::ParameterResponse, &bytes),
        Ok(VirtualPacket::ParameterResponse(vec![Parameter::ScreenWidth(320)]))
    );
}

#[test]
fn parameter_response_errors() {
    assert_eq!(parameter_response(&[0x00]), Err(LinkError::TruncatedPayload));
    assert_eq!(
        parameter_response(&[0x00, 0x01, 0x00, 0x1e, 0x00, 0x00, 0x02, 0x01]),
        Err(LinkError::TruncatedPayload)
    );
    assert_eq!(
        parameter_response(&[0x00, 0x01, 0x00, 0x99, 0x00, 0x00, 0x01, 0x01]),
        Err(LinkError::UnknownParameterKind(UnknownParameterKindError(0x99)))
    );
    assert_eq!(
        parameter_response(&[0x00, 0x01, 0x00, 0x25, 0x00, 0x00, 0x01, 0x01]),
        Err(LinkError::InvalidParameterPayload(InvalidParameterPayload))
    );
}

#[test]
fn parameter_entry_and_size() {
    assert_eq!(parameter_size(&[0x00, 0x00], 0), Ok((153600, 2)));
    assert_eq!(parameter_size(&[0x09, 0x01, 0x02], 1), Ok((0x0102, 3)));
    assert_eq!(parameter_size(&[0x01], 0), Err(LinkError::TruncatedPayload));
    assert_eq!(parameter(&[0x00, 0x25, 0x07], 0), Ok((None, 3)));
    assert_eq!(
        parameter(&[0x00, 0x25, 0x00, 0x00, 0x04, 0x00, 0x00, 0x01, 0x00], 0),
        Ok((Some(Parameter::Clock(256)), 9))
    );
}

#[test]
fn parameter_payloads() {
    assert_eq!(
        Parameter::from_payload(ParameterKind::TotalAppPages, &[0, 0, 0, 0, 0, 0, 1, 2]),
        Ok(Parameter::TotalAppPages(0x0102))
    );
    assert_eq!(
        Parameter::from_payload(ParameterKind::FreeAppPages, &[0, 0, 0, 0, 0, 0, 1]),
        Err(InvalidParameterPayload)
    );
    assert_eq!(
        Parameter::from_payload(ParameterKind::ScreenHeight, &[0x00, 0xf0]),
        Ok(Parameter::ScreenHeight(240))
    );
    assert_eq!(
        Parameter::from_payload(ParameterKind::Clock, &[0x12, 0x34, 0x56, 0x78]),
        Ok(Parameter::Clock(0x12345678))
    );
}

#[test]
fn parameter_name_is_lossy_text() {
    assert_eq!(
        Parameter::from_payload(ParameterKind::Name, b"TI-84"),
        Ok(Parameter::Name(String::from("TI-84")))
    );
    assert_eq!(
        Parameter::from_payload(ParameterKind::Name, &[0x41, 0xff]),
        Ok(Parameter::Name(String::from("A\u{fffd}")))
    );
}

#[test]
fn screen_contents_are_little_endian_pixels() {
    let mut payload = vec![0u8; 153600];
    payload[0] = 0x1f;
    payload[1] = 0xf8;
    payload[153599] = 0x07;
    match Parameter::from_payload(ParameterKind::ScreenContents, &payload) {
        Ok(Parameter::ScreenContents(Screenshot::Rgb(pixels))) => {
            assert_eq!(pixels.len(), 76800);
            assert_eq!(pixels[0], 0xf81f);
            assert_eq!(pixels[1], 0);
            assert_eq!(pixels[76799], 0x0700);
        }
        other => panic!("unexpected {:?}", other),
    }
    assert_eq!(
        Parameter::from_payload(ParameterKind::ScreenContents, &payload[..153598]),
        Err(InvalidParameterPayload)
    );
}

#[test]
fn size_attribute_round_trip() {
    let bytes = VariableAttribute::Size(12345).into_payload();
    assert_eq!(bytes, vec![0x00, 0x00, 0x30, 0x39]);
    assert_eq!(
        VariableAttribute::from_payload(VariableAttributeKind::Size, &bytes),
        Ok(VariableAttribute::Size(12345))
    );
}

#[test]
fn flag_attributes_keep_observed_bytes() {
    assert_eq!(VariableAttribute::Archived(true).into_payload(), vec![0]);
    assert_eq!(VariableAttribute::Locked(false).into_payload(), vec![1]);
    assert_eq!(
        VariableAttribute::from_payload(VariableAttributeKind::Archived, &[1]),
        Ok(VariableAttribute::Archived(true))
    );
    assert_eq!(
        VariableAttribute::from_payload(VariableAttributeKind::Locked, &[0]),
        Ok(VariableAttribute::Locked(false))
    );
    assert_eq!(
        VariableAttribute::from_payload(VariableAttributeKind::Version, &[]),
        Err(LinkError::TruncatedPayload)
    );
    assert_eq!(VariableAttribute::Kind2(1).kind(), VariableAttributeKind::Kind2);
    assert_eq!(VariableAttributeKind::from_id(0x41), Some(VariableAttributeKind::Locked));
}

#[test]
fn variable_header_parses() {
    let bytes = [
        0x00, 0x02, b'A', b'B', 0x00, 0x00, 0x03, // name, separator, three entries
        0x00, 0x02, 0x00, 0x00, 0x04, 0xf0, 0x07, 0x00, 0x04, // kind
        0x00, 0x41, 0x01, // locked, absent
        0x00, 0x03, 0x00, 0x00, 0x01, 0x01, // archived
    ];
    let v = variable_header(&bytes).unwrap();
    assert_eq!(v.name, "AB");
    assert_eq!(
        v.attributes,
        vec![VariableAttribute::Kind(0xf0070004), VariableAttribute::Archived(true)]
    );
    assert_eq!(
        variable_header(&[0x00, 0x01, b'A', 0x00, 0x00, 0x01, 0x00, 0x77, 0x00, 0x00, 0x00]),
        Err(LinkError::UnknownAttributeKind(0x77))
    );
    assert_eq!(variable_header(&[0x00, 0x05, b'A']), Err(LinkError::TruncatedPayload));
}

#[test]
fn string_contents_round_trip() {
    let bytes = VariableContents::String(String::from("Test")).into_payload().unwrap();
    assert_eq!(bytes, vec![4, 0, b'T', b'e', b's', b't']);
    assert_eq!(
        VariableContents::from_payload(VariableKind::String, &bytes),
        Ok(VariableContents::String(String::from("Test")))
    );
    assert_eq!(
        VariableContents::from_payload(VariableKind::String, &[5, 0, b'a']),
        Err(LinkError::TruncatedPayload)
    );
    assert_eq!(
        VariableContents::from_payload(VariableKind::String, &[2, 0, b'a', 0xc3, b'z']),
        Ok(VariableContents::String(String::from("a\u{fffd}")))
    );
}

#[test]
fn opaque_contents() {
    assert_eq!(
        VariableContents::from_payload(VariableKind::App, &[1, 2]),
        Ok(VariableContents::App(vec![1, 2]))
    );
    assert_eq!(
        VariableContents::Image(vec![1]).into_payload(),
        Err(LinkError::Unsupported)
    );
    assert_eq!(VariableContents::App(vec![]).into_payload(), Err(LinkError::Unsupported));
    assert_eq!(VariableKind::from_id(0xf00f0024), Some(VariableKind::App));
    assert_eq!(VariableKind::Image.id(), 0xf00e001a);
}

#[test]
fn integers_from_bytes() {
    assert_eq!(u16_from_bytes(&[0x01, 0x40]), 320);
    assert_eq!(u32_from_bytes(&[0x00, 0x00, 0x03, 0xfa]), 1018);
}

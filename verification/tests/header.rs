use lifx_cli::lan::{BinarySerializable, Header, LifxPacket};

#[test]
fn header_is_36_bytes_and_size_counts_payload() {
    let h = Header::new(0, 2, None, 0);
    let bytes = h.serialize();
    assert_eq!(bytes.len(), 36);
    assert_eq!(h.size, 36);

    let h13 = Header::new(7, 102, None, 13);
    let bytes13 = h13.serialize();
    assert_eq!(bytes13.len(), 36);
    assert_eq!(h13.size, 49);
    // size field, little-endian, at offset 0
    assert_eq!(&bytes13[0..2], &[49, 0]);
}

#[test]
fn broadcast_header_has_zero_target_and_tagged_bit() {
    let h = Header::new(5, 2, None, 0);
    let bytes = h.serialize();
    // 8-byte target field at offset 8 is all zero
    assert_eq!(&bytes[8..16], &[0u8; 8]);
    // flags field at offsets 2..4: protocol 1024 with the tagged bit 4096 set,
    // little-endian 5120 = 0x1400
    assert_eq!(&bytes[2..4], &[0x00, 0x14]);
}

#[test]
fn targeted_header_carries_mac_and_clear_tagged_bit() {
    let mac = [0xD0, 0x73, 0xD5, 0x01, 0x02, 0x03];
    let h = Header::new(9, 117, Some(mac), 6);
    let bytes = h.serialize();
    // 6 MAC bytes then two zero padding bytes
    assert_eq!(&bytes[8..14], &mac);
    assert_eq!(&bytes[14..16], &[0, 0]);
    // flags field holds the bare protocol number 1024 = 0x0400
    assert_eq!(&bytes[2..4], &[0x00, 0x04]);
}

#[test]
fn header_layout_matches_wire_format() {
    let h = Header::new(0xAB, 0x1234, None, 0x10);
    let bytes = h.serialize();
    assert_eq!(&bytes[0..2], &[0x34, 0x00]); // size 36 + 16 = 52
    assert_eq!(&bytes[2..4], &[0x00, 0x14]); // flags
    assert_eq!(&bytes[4..8], &[2, 0, 0, 0]); // source identifier
    assert_eq!(&bytes[8..16], &[0u8; 8]); // target
    assert_eq!(&bytes[16..22], &[0u8; 6]); // reserved
    assert_eq!(bytes[22], 2); // response/ack flags
    assert_eq!(bytes[23], 0xAB); // sequence
    assert_eq!(&bytes[24..32], &[0u8; 8]); // reserved
    assert_eq!(&bytes[32..34], &[0x34, 0x12]); // operation code
    assert_eq!(&bytes[34..36], &[0, 0]); // reserved
}

#[test]
fn catalog_codes_match_vendor_specification() {
    assert_eq!(LifxPacket::GetService.code(), 2);
    assert_eq!(LifxPacket::GetPower.code(), 20);
    assert_eq!(LifxPacket::SetPower.code(), 21);
    assert_eq!(LifxPacket::GetColor.code(), 101);
    assert_eq!(LifxPacket::SetColor.code(), 102);
    assert_eq!(LifxPacket::SetLightPower.code(), 117);
    assert_eq!(LifxPacket::GetColorZones.code(), 502);
    assert_eq!(LifxPacket::SetColorZones.code(), 501);
    assert_eq!(LifxPacket::GetRPower.code(), 816);
    assert_eq!(LifxPacket::SetRPower.code(), 817);
    assert_eq!(LifxPacket::GetDeviceChain.code(), 701);
    assert_eq!(LifxPacket::SetTileEffect.code(), 719);
    assert_eq!(LifxPacket::EchoRequest.code(), 58);
}

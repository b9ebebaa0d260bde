//! The LAN wire protocol: the fixed 36-byte packet header, the catalog of
//! operation codes, and the per-operation payload encoders and decoder.

use vstd::prelude::*;

use crate::wire::{
    push_u16_le, push_u32_le, push_u64_le, read_u32_le, u16_le, u32_le, u32_from_le, u64_le,
    zero_bytes,
};

verus! {

/// Wire protocol number carried in the low bits of the flags field.
pub const PROTOCOL_VERSION: u16 = 1024;

/// Flag bit set in the flags field when the packet addresses every device
/// on the network (broadcast) rather than a single device.
pub const TAGGED_FLAG: u16 = 4096;

/// Session/client identifier placed in the `source` field of every header.
pub const SOURCE_ID: u32 = 2;

/// Response/acknowledgement flag bits placed in every header.
pub const RES_ACK_FLAGS: u8 = 2;

/// The header occupies this many bytes on the wire; the `size` field counts
/// these bytes plus the payload.
pub const HEADER_SIZE: u16 = 36;

/// Serialization to the wire: a type with a fixed binary layout gives the
/// byte sequence it denotes, and `serialize` produces exactly those bytes.
pub trait BinarySerializable {
    /// The bytes this value occupies on the wire.
    spec fn wire_bytes(&self) -> Seq<u8>;

    /// Produces the wire bytes of this value.
    fn serialize(&self) -> (r: Vec<u8>)
        ensures
            r@ == self.wire_bytes(),
    ;
}

/// The fixed-layout frame preceding every message: frame, frame address and
/// protocol header, 36 bytes in all, every integer little-endian.
#[derive(Clone, Copy, Debug, PartialEq, Eq)]
pub struct Header {
    /* frame */
    pub size: u16,
    pub protocol_addressable_tagged_origin: u16,
    pub source: u32,
    /* frame address */
    pub target: [u8; 8],
    pub reserved1: [u8; 6],
    pub res_required_ack_required: u8,
    pub sequence: u8,
    /* protocol header */
    pub reserved3: u64,
    pub packet_type: u16,
    pub reserved4: u16,
}

/// The flags field value for a broadcast (no target) or addressed header.
pub open spec fn spec_flags(mac: Option<[u8; 6]>) -> u16 {
    match mac {
        None => (PROTOCOL_VERSION + TAGGED_FLAG) as u16,
        Some(_) => PROTOCOL_VERSION,
    }
}

/// The 8-byte target field: the 6 MAC bytes padded with two zero bytes, or
/// all zero for broadcast.
pub open spec fn spec_target_bytes(mac: Option<[u8; 6]>) -> Seq<u8> {
    match mac {
        None => zero_bytes(8),
        Some(m) => m@ + seq![0u8, 0u8],
    }
}

/// The 36 header bytes for the given sequence number, operation code,
/// optional target MAC and payload length.
pub open spec fn spec_header_bytes(
    sequence: u8,
    packet_type: u16,
    mac: Option<[u8; 6]>,
    payload_len: u16,
) -> Seq<u8> {
    u16_le((HEADER_SIZE + payload_len) as u16) + u16_le(spec_flags(mac)) + u32_le(SOURCE_ID)
        + spec_target_bytes(mac) + zero_bytes(6) + seq![RES_ACK_FLAGS, sequence] + u64_le(0)
        + u16_le(packet_type) + u16_le(0)
}

impl Header {
    /// The reserved fields are zero, the target's two padding bytes are
    /// zero, and the flags field holds the protocol number with the tagged
    /// bit set exactly when the target is all zero (broadcast semantics).
    pub open spec fn well_formed(self) -> bool {
        &&& self.size >= HEADER_SIZE
        &&& self.reserved1@ == zero_bytes(6)
        &&& self.reserved3 == 0
        &&& self.reserved4 == 0
        &&& self.target@[6] == 0
        &&& self.target@[7] == 0
        &&& (self.protocol_addressable_tagged_origin == PROTOCOL_VERSION + TAGGED_FLAG <==> self.target@ == zero_bytes(8))
        &&& (self.protocol_addressable_tagged_origin == PROTOCOL_VERSION + TAGGED_FLAG
            || self.protocol_addressable_tagged_origin == PROTOCOL_VERSION)
    }

    /// Builds the header for a packet carrying `payload_len` payload bytes.
    ///
    /// With no MAC address the target field is all zero and the tagged
    /// (broadcast) bit is set; with one, the 6 MAC bytes fill the first 6
    /// target bytes, the last 2 stay zero, and the tagged bit is clear.
    /// `size` is the total packet length: header plus payload.
    pub fn new(sequence: u8, packet_type: u16, mac_address: Option<[u8; 6]>, payload_len: u16) -> (h: Header)
        requires
            payload_len <= u16::MAX - HEADER_SIZE,
            mac_address matches Some(m) ==> m@ != zero_bytes(6),
        ensures
            h.size == HEADER_SIZE + payload_len,
            h.protocol_addressable_tagged_origin == spec_flags(mac_address),
            h.source == SOURCE_ID,
            h.target@ == spec_target_bytes(mac_address),
            h.reserved1@ == zero_bytes(6),
            h.res_required_ack_required == RES_ACK_FLAGS,
            h.sequence == sequence,
            h.reserved3 == 0,
            h.packet_type == packet_type,
            h.reserved4 == 0,
            h.well_formed(),
            h.wire_bytes() == spec_header_bytes(sequence, packet_type, mac_address, payload_len),
    {
        let target: [u8; 8] = match mac_address {
            Some(m) => [m[0], m[1], m[2], m[3], m[4], m[5], 0, 0],
            None => [0; 8],
        };

        let flags: u16 = match mac_address {
            None => PROTOCOL_VERSION + TAGGED_FLAG,
            Some(_) => PROTOCOL_VERSION,
        };

        let h = Header {
            size: HEADER_SIZE + payload_len,
            protocol_addressable_tagged_origin: flags,
            source: SOURCE_ID,
            target,
            reserved1: [0; 6],
            res_required_ack_required: RES_ACK_FLAGS,
            sequence,
            reserved3: 0,
            packet_type,
            reserved4: 0,
        };

        proof {
            assert(h.target@ =~= spec_target_bytes(mac_address));
            assert(h.reserved1@ =~= zero_bytes(6));
            if mac_address is Some {
                let m = mac_address->0;
                assert(m@ != zero_bytes(6));
                assert(h.target@ != zero_bytes(8)) by {
                    if h.target@ == zero_bytes(8) {
                        assert(m@ =~= zero_bytes(6)) by {
                            assert(forall|i: int| 0 <= i < 6 ==> m@[i] == h.target@[i]);
                        }
                    }
                }
            }
            assert(h.wire_bytes() =~= spec_header_bytes(sequence, packet_type, mac_address, payload_len));
        }

        h
    }
}

impl BinarySerializable for Header {
    /// The 36-byte little-endian layout: size, flags, source, target,
    /// reserved, response/ack flags, sequence, reserved, operation code,
    /// reserved.
    open spec fn wire_bytes(&self) -> Seq<u8> {
        u16_le(self.size) + u16_le(self.protocol_addressable_tagged_origin) + u32_le(self.source)
            + self.target@ + self.reserved1@ + seq![self.res_required_ack_required, self.sequence]
            + u64_le(self.reserved3) + u16_le(self.packet_type) + u16_le(self.reserved4)
    }

    fn serialize(&self) -> (r: Vec<u8>)
        ensures
            r@ == self.wire_bytes(),
            r@.len() == 36,
    {
        let mut out: Vec<u8> = Vec::new();
        push_u16_le(&mut out, self.size);
        push_u16_le(&mut out, self.protocol_addressable_tagged_origin);
        push_u32_le(&mut out, self.source);
        out.push(self.target[0]);
        out.push(self.target[1]);
        out.push(self.target[2]);
        out.push(self.target[3]);
        out.push(self.target[4]);
        out.push(self.target[5]);
        out.push(self.target[6]);
        out.push(self.target[7]);
        out.push(self.reserved1[0]);
        out.push(self.reserved1[1]);
        out.push(self.reserved1[2]);
        out.push(self.reserved1[3]);
        out.push(self.reserved1[4]);
        out.push(self.reserved1[5]);
        out.push(self.res_required_ack_required);
        out.push(self.sequence);
        push_u64_le(&mut out, self.reserved3);
        push_u16_le(&mut out, self.packet_type);
        push_u16_le(&mut out, self.reserved4);
        assert(out@ =~= self.wire_bytes());
        out
    }
}

/// Every header occupies exactly 36 bytes on the wire, and a header built
/// for `payload_len` payload bytes carries `size` equal to 36 plus that
/// length.
pub proof fn lemma_header_wire_size(sequence: u8, packet_type: u16, mac: Option<[u8; 6]>, payload_len: u16)
    requires
        payload_len <= u16::MAX - HEADER_SIZE,
    ensures
        spec_header_bytes(sequence, packet_type, mac, payload_len).len() == 36,
        u16_le((HEADER_SIZE + payload_len) as u16) == spec_header_bytes(
            sequence,
            packet_type,
            mac,
            payload_len,
        ).subrange(0, 2),
{
    let b = spec_header_bytes(sequence, packet_type, mac, payload_len);
    assert(spec_target_bytes(mac).len() == 8);
    assert(b.len() == 36);
    assert(u16_le((HEADER_SIZE + payload_len) as u16) =~= b.subrange(0, 2));
}

/// A caller-supplied value lay outside the range the protocol allows; the
/// variant names the offending field. No bytes are produced on rejection.
#[derive(Clone, Copy, Debug, PartialEq, Eq)]
pub enum ValidationError {
    HueOutOfRange,
    SaturationOutOfRange,
    BrightnessOutOfRange,
}

/// A response buffer was shorter than the fixed layout it should carry.
#[derive(Clone, Copy, Debug, PartialEq, Eq)]
pub enum DecodeError {
    TooShort,
}

/// Hue runs over a full circle: 0 to 360 degrees, held in thousandths of a
/// degree.
pub const HUE_MAX_MILLIDEGREES: i64 = 360000;

/// Saturation and brightness run from 0 to 1, held in thousandths.
pub const UNIT_MAX_MILLIS: i64 = 1000;

/// The wire value of a hue of `hue_md` thousandths of a degree: the hue
/// scaled onto 65536 steps per circle, rounded half up, wrapping at 65536
/// so that a full circle encodes as 0.
pub open spec fn spec_hue_param(hue_md: int) -> int {
    ((hue_md * 65536 + 180000) / 360000) % 65536
}

/// The wire value of a saturation or brightness of `millis` thousandths:
/// the fraction scaled onto 0 to 65535, rounded half up.
pub open spec fn spec_unit_param(millis: int) -> int {
    (millis * 65535 + 500) / 1000
}

/// The kelvin wire value: the requested temperature when the encoded
/// saturation is zero, else forced to zero — color and white temperature
/// are mutually exclusive in this protocol generation.
pub open spec fn spec_kelvin_param(kelvin: Option<u16>, saturation_param: int) -> u16 {
    if saturation_param == 0 {
        match kelvin {
            Some(k) => k,
            None => 0,
        }
    } else {
        0
    }
}

/// The payload that `SetColorPayload::new` encodes from in-range inputs.
pub open spec fn spec_set_color(
    hue_md: int,
    saturation_m: int,
    brightness_m: int,
    kelvin: Option<u16>,
    duration: u32,
) -> SetColorPayload {
    SetColorPayload {
        reserved1: 0,
        hue: spec_hue_param(hue_md) as u16,
        saturation: spec_unit_param(saturation_m) as u16,
        brightness: spec_unit_param(brightness_m) as u16,
        kelvin: spec_kelvin_param(kelvin, spec_unit_param(saturation_m)),
        duration: duration,
    }
}

/// The 13-byte payload of a color change: one reserved byte, then hue,
/// saturation, brightness and kelvin as `u16` and the transition duration
/// in milliseconds as `u32`.
#[derive(Clone, Copy, Debug, PartialEq, Eq, Structural)]
pub struct SetColorPayload {
    pub reserved1: u8,
    pub hue: u16,
    pub saturation: u16,
    pub brightness: u16,
    pub kelvin: u16,
    pub duration: u32,
}

impl SetColorPayload {
    /// Encodes a color change from hue in thousandths of a degree,
    /// saturation and brightness in thousandths of the unit interval, an
    /// optional white temperature and a transition duration.
    ///
    /// Inputs outside 0..=360 degrees or 0..=1 are rejected before any
    /// encoding, naming the first offending field in the order hue,
    /// saturation, brightness. On in-range inputs the parameters are the
    /// rounded scalings above, with kelvin forced to zero whenever the
    /// encoded saturation is positive.
    pub fn new(
        hue_millidegrees: i64,
        saturation_millis: i64,
        brightness_millis: i64,
        kelvin: Option<u16>,
        duration: u32,
    ) -> (r: Result<SetColorPayload, ValidationError>)
        ensures
            r == Err::<SetColorPayload, ValidationError>(ValidationError::HueOutOfRange) <==> !(0
                <= hue_millidegrees <= HUE_MAX_MILLIDEGREES),
            r == Err::<SetColorPayload, ValidationError>(ValidationError::SaturationOutOfRange)
                <==> (0 <= hue_millidegrees <= HUE_MAX_MILLIDEGREES && !(0 <= saturation_millis
                <= UNIT_MAX_MILLIS)),
            r == Err::<SetColorPayload, ValidationError>(ValidationError::BrightnessOutOfRange)
                <==> (0 <= hue_millidegrees <= HUE_MAX_MILLIDEGREES && 0 <= saturation_millis
                <= UNIT_MAX_MILLIS && !(0 <= brightness_millis <= UNIT_MAX_MILLIS)),
            (0 <= hue_millidegrees <= HUE_MAX_MILLIDEGREES && 0 <= saturation_millis
                <= UNIT_MAX_MILLIS && 0 <= brightness_millis <= UNIT_MAX_MILLIS) ==> r
                == Ok::<SetColorPayload, ValidationError>(spec_set_color(
                hue_millidegrees as int,
                saturation_millis as int,
                brightness_millis as int,
                kelvin,
                duration,
            )),
            r matches Ok(p) ==> (p.saturation > 0 ==> p.kelvin == 0),
    {
        if hue_millidegrees < 0 || hue_millidegrees > HUE_MAX_MILLIDEGREES {
            return Err(ValidationError::HueOutOfRange);
        }
        if saturation_millis < 0 || saturation_millis > UNIT_MAX_MILLIS {
            return Err(ValidationError::SaturationOutOfRange);
        }
        if brightness_millis < 0 || brightness_millis > UNIT_MAX_MILLIS {
            return Err(ValidationError::BrightnessOutOfRange);
        }

        let hue_scaled: u64 = ((hue_millidegrees as u64) * 65536 + 180000) / 360000;
        let hue_param: u16 = (hue_scaled % 65536) as u16;

        let saturation_scaled: u64 = ((saturation_millis as u64) * 65535 + 500) / 1000;
        assert(saturation_scaled <= 65535) by {
            vstd::arithmetic::div_mod::lemma_div_is_ordered(
                saturation_millis * 65535 + 500,
                65535500,
                1000,
            );
        }
        let saturation_param: u16 = saturation_scaled as u16;

        let brightness_scaled: u64 = ((brightness_millis as u64) * 65535 + 500) / 1000;
        assert(brightness_scaled <= 65535) by {
            vstd::arithmetic::div_mod::lemma_div_is_ordered(
                brightness_millis * 65535 + 500,
                65535500,
                1000,
            );
        }
        let brightness_param: u16 = brightness_scaled as u16;

        let kelvin_param: u16 = if saturation_param == 0 {
            match kelvin {
                Some(k) => k,
                None => 0,
            }
        } else {
            0
        };

        Ok(
            SetColorPayload {
                reserved1: 0,
                hue: hue_param,
                saturation: saturation_param,
                brightness: brightness_param,
                kelvin: kelvin_param,
                duration,
            },
        )
    }
}

impl BinarySerializable for SetColorPayload {
    open spec fn wire_bytes(&self) -> Seq<u8> {
        seq![self.reserved1] + u16_le(self.hue) + u16_le(self.saturation) + u16_le(self.brightness)
            + u16_le(self.kelvin) + u32_le(self.duration)
    }

    fn serialize(&self) -> (r: Vec<u8>)
        ensures
            r@ == self.wire_bytes(),
            r@.len() == 13,
    {
        let mut out: Vec<u8> = Vec::new();
        out.push(self.reserved1);
        push_u16_le(&mut out, self.hue);
        push_u16_le(&mut out, self.saturation);
        push_u16_le(&mut out, self.brightness);
        push_u16_le(&mut out, self.kelvin);
        push_u32_le(&mut out, self.duration);
        assert(out@ =~= self.wire_bytes());
        out
    }
}

/// The 6-byte payload of a power change: the power level as `u16` — all
/// ones for on, zero for off — then the transition duration in
/// milliseconds as `u32`.
#[derive(Clone, Copy, Debug, PartialEq, Eq, Structural)]
pub struct SetLightPowerPayload {
    pub level: u16,
    pub duration: u32,
}

impl SetLightPowerPayload {
    /// Encodes a power change: level 65535 when switching on, 0 when
    /// switching off, the duration passed through unchanged.
    pub fn new(on: bool, duration: u32) -> (p: SetLightPowerPayload)
        ensures
            p.level == (if on { 65535u16 } else { 0u16 }),
            p.duration == duration,
    {
        match on {
            true => SetLightPowerPayload { level: 65535, duration },
            false => SetLightPowerPayload { level: 0, duration },
        }
    }
}

impl BinarySerializable for SetLightPowerPayload {
    open spec fn wire_bytes(&self) -> Seq<u8> {
        u16_le(self.level) + u32_le(self.duration)
    }

    fn serialize(&self) -> (r: Vec<u8>)
        ensures
            r@ == self.wire_bytes(),
            r@.len() == 6,
    {
        let mut out: Vec<u8> = Vec::new();
        push_u16_le(&mut out, self.level);
        push_u32_le(&mut out, self.duration);
        assert(out@ =~= self.wire_bytes());
        out
    }
}

/// The closed union of payload kinds a packet can carry, matched
/// exhaustively at the encode site.
#[derive(Clone, Copy, Debug, PartialEq, Eq, Structural)]
pub enum Payload {
    SetColor(SetColorPayload),
    SetLightPower(SetLightPowerPayload),
}

impl BinarySerializable for Payload {
    open spec fn wire_bytes(&self) -> Seq<u8> {
        match self {
            Payload::SetColor(p) => p.wire_bytes(),
            Payload::SetLightPower(p) => p.wire_bytes(),
        }
    }

    fn serialize(&self) -> (r: Vec<u8>)
        ensures
            r@ == self.wire_bytes(),
            r@.len() <= 13,
    {
        match self {
            Payload::SetColor(p) => p.serialize(),
            Payload::SetLightPower(p) => p.serialize(),
        }
    }
}

/// No payload is longer than the 13 bytes of a color change.
pub proof fn lemma_payload_len(p: Payload)
    ensures
        p.wire_bytes().len() <= 13,
{
    match p {
        Payload::SetColor(c) => {
            assert(c.wire_bytes().len() == 13);
        },
        Payload::SetLightPower(c) => {
            assert(c.wire_bytes().len() == 6);
        },
    }
}

/// A device's answer to the discovery query: the transport it offers and
/// the UDP port it listens on for direct addressing.
#[derive(Clone, Copy, Debug, PartialEq, Eq, Structural)]
pub struct StateServiceResponse {
    pub service: u8,
    pub port: u32,
}

impl StateServiceResponse {
    /// Decodes a discovery response: one service byte, then the port as a
    /// little-endian `u32`. A buffer of fewer than 5 bytes is rejected
    /// whole — no partial decode.
    pub fn decode(bytes: &[u8]) -> (r: Result<StateServiceResponse, DecodeError>)
        ensures
            bytes@.len() < 5 ==> r == Err::<StateServiceResponse, DecodeError>(
                DecodeError::TooShort,
            ),
            bytes@.len() >= 5 ==> r == Ok::<StateServiceResponse, DecodeError>(
                (StateServiceResponse {
                    service: bytes@[0],
                    port: u32_from_le(bytes@.subrange(1, 5)),
                }),
            ),
    {
        if bytes.len() < 5 {
            return Err(DecodeError::TooShort);
        }
        let port = read_u32_le(bytes[1], bytes[2], bytes[3], bytes[4]);
        proof {
            assert(seq![bytes@[1], bytes@[2], bytes@[3], bytes@[4]] =~= bytes@.subrange(1, 5));
        }
        Ok(StateServiceResponse { service: bytes[0], port })
    }
}

/// A header built without a target MAC serializes to an all-zero 8-byte
/// target field (offsets 8 to 15) and carries the tagged bit in the flags
/// bytes at offsets 2 and 3.
pub proof fn lemma_broadcast_header_bytes(sequence: u8, packet_type: u16, payload_len: u16)
    requires
        payload_len <= u16::MAX - HEADER_SIZE,
    ensures
        spec_header_bytes(sequence, packet_type, None, payload_len).subrange(8, 16) == zero_bytes(8),
        spec_header_bytes(sequence, packet_type, None, payload_len).subrange(2, 4) == u16_le(
            (PROTOCOL_VERSION + TAGGED_FLAG) as u16,
        ),
{
    let b = spec_header_bytes(sequence, packet_type, None, payload_len);
    assert(b.subrange(8, 16) =~= zero_bytes(8));
    assert(b.subrange(2, 4) =~= u16_le((PROTOCOL_VERSION + TAGGED_FLAG) as u16));
}

/// Every supported query and change operation, grouped by device
/// capability. The wire codes are fixed by the vendor specification and
/// come only from the total mapping `wire_code`, never from the order the
/// variants are declared in.
#[allow(dead_code)]
#[derive(Clone, Copy, Debug, PartialEq, Eq, Structural)]
pub enum LifxPacket {
    /* query packets: device */
    GetService,
    GetHostFirware,
    GetWifiInfo,
    GetWifiFirmware,
    GetPower,
    GetLabel,
    GetVersion,
    GetInfo,
    GetLocation,
    GetGroup,
    EchoRequest,
    /* query packets: light */
    GetColor,
    GetLightPower,
    GetInfrared,
    GetHevCycle,
    GetHevCycleConfiguration,
    GetLastHevCycleResult,
    /* query packets: multizone */
    GetColorZones,
    GetMultiZoneEffect,
    GetExtendedColorZones,
    /* query packets: relay */
    GetRPower,
    /* query packets: tile */
    GetDeviceChain,
    Get64,
    GetTileEffect,
    /* change packets: device */
    SetPower,
    SetLabel,
    SetReboot,
    SetLocation,
    SetGroup,
    /* change packets: light */
    SetColor,
    SetWaveform,
    SetLightPower,
    SetWaveformOptional,
    SetInfrared,
    SetHevCycle,
    SetHevCycleConfiguration,
    /* change packets: multizone */
    SetColorZones,
    SetMultiZoneEffect,
    SetExtendedColorZones,
    /* change packets: relay */
    SetRPower,
    /* change packets: tile */
    SetUserPosition,
    Set64,
    SetTileEffect,
}

impl LifxPacket {
    /// The operation code each variant stands for on the wire.
    pub open spec fn wire_code(self) -> u16 {
        match self {
            LifxPacket::GetService => 2,
            LifxPacket::GetHostFirware => 14,
            LifxPacket::GetWifiInfo => 16,
            LifxPacket::GetWifiFirmware => 18,
            LifxPacket::GetPower => 20,
            LifxPacket::GetLabel => 23,
            LifxPacket::GetVersion => 32,
            LifxPacket::GetInfo => 34,
            LifxPacket::GetLocation => 48,
            LifxPacket::GetGroup => 51,
            LifxPacket::EchoRequest => 58,
            LifxPacket::GetColor => 101,
            LifxPacket::GetLightPower => 116,
            LifxPacket::GetInfrared => 120,
            LifxPacket::GetHevCycle => 142,
            LifxPacket::GetHevCycleConfiguration => 145,
            LifxPacket::GetLastHevCycleResult => 148,
            LifxPacket::GetColorZones => 502,
            LifxPacket::GetMultiZoneEffect => 507,
            LifxPacket::GetExtendedColorZones => 511,
            LifxPacket::GetRPower => 816,
            LifxPacket::GetDeviceChain => 701,
            LifxPacket::Get64 => 707,
            LifxPacket::GetTileEffect => 718,
            LifxPacket::SetPower => 21,
            LifxPacket::SetLabel => 24,
            LifxPacket::SetReboot => 38,
            LifxPacket::SetLocation => 49,
            LifxPacket::SetGroup => 52,
            LifxPacket::SetColor => 102,
            LifxPacket::SetWaveform => 103,
            LifxPacket::SetLightPower => 117,
            LifxPacket::SetWaveformOptional => 119,
            LifxPacket::SetInfrared => 122,
            LifxPacket::SetHevCycle => 143,
            LifxPacket::SetHevCycleConfiguration => 146,
            LifxPacket::SetColorZones => 501,
            LifxPacket::SetMultiZoneEffect => 508,
            LifxPacket::SetExtendedColorZones => 510,
            LifxPacket::SetRPower => 817,
            LifxPacket::SetUserPosition => 703,
            LifxPacket::Set64 => 715,
            LifxPacket::SetTileEffect => 719,
        }
    }

    /// The total, explicit mapping of an operation to its wire code.
    pub fn code(&self) -> (c: u16)
        ensures
            c == self.wire_code(),
    {
        match self {
            LifxPacket::GetService => 2,
            LifxPacket::GetHostFirware => 14,
            LifxPacket::GetWifiInfo => 16,
            LifxPacket::GetWifiFirmware => 18,
            LifxPacket::GetPower => 20,
            LifxPacket::GetLabel => 23,
            LifxPacket::GetVersion => 32,
            LifxPacket::GetInfo => 34,
            LifxPacket::GetLocation => 48,
            LifxPacket::GetGroup => 51,
            LifxPacket::EchoRequest => 58,
            LifxPacket::GetColor => 101,
            LifxPacket::GetLightPower => 116,
            LifxPacket::GetInfrared => 120,
            LifxPacket::GetHevCycle => 142,
            LifxPacket::GetHevCycleConfiguration => 145,
            LifxPacket::GetLastHevCycleResult => 148,
            LifxPacket::GetColorZones => 502,
            LifxPacket::GetMultiZoneEffect => 507,
            LifxPacket::GetExtendedColorZones => 511,
            LifxPacket::GetRPower => 816,
            LifxPacket::GetDeviceChain => 701,
            LifxPacket::Get64 => 707,
            LifxPacket::GetTileEffect => 718,
            LifxPacket::SetPower => 21,
            LifxPacket::SetLabel => 24,
            LifxPacket::SetReboot => 38,
            LifxPacket::SetLocation => 49,
            LifxPacket::SetGroup => 52,
            LifxPacket::SetColor => 102,
            LifxPacket::SetWaveform => 103,
            LifxPacket::SetLightPower => 117,
            LifxPacket::SetWaveformOptional => 119,
            LifxPacket::SetInfrared => 122,
            LifxPacket::SetHevCycle => 143,
            LifxPacket::SetHevCycleConfiguration => 146,
            LifxPacket::SetColorZones => 501,
            LifxPacket::SetMultiZoneEffect => 508,
            LifxPacket::SetExtendedColorZones => 510,
            LifxPacket::SetRPower => 817,
            LifxPacket::SetUserPosition => 703,
            LifxPacket::Set64 => 715,
            LifxPacket::SetTileEffect => 719,
        }
    }
}

} // verus!

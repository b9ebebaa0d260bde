//! The transport session: it owns the per-session sequence counter and
//! assembles complete packets — header and payload — ready for the wire.
//!
//! The surrounding application owns the UDP endpoint. For a broadcast query
//! it sends the packet to the broadcast address and blocks for one response;
//! for a command it sends to the device's unicast address and awaits
//! nothing. After each successful send it calls [`LanService::advance_sequence`].

use vstd::prelude::*;

use crate::lan::{
    lemma_payload_len, spec_header_bytes, BinarySerializable, Header, LifxPacket, Payload,
};
use crate::wire::zero_bytes;

verus! {

/// The payload bytes of an optional query payload: none encodes as no
/// bytes at all.
pub open spec fn spec_query_bytes(query: Option<&Payload>) -> Seq<u8> {
    match query {
        Some(q) => q.wire_bytes(),
        None => Seq::empty(),
    }
}

/// One discovery-and-command session. The sequence counter starts at 0
/// when the session is created and wraps modulo 256.
pub struct LanService {
    sequence: u8,
}

impl LanService {
    /// The sequence number the next packet will carry.
    pub closed spec fn seq_no(self) -> u8 {
        self.sequence
    }

    /// A fresh session; its sequence counter starts at 0.
    pub fn new() -> (s: LanService)
        ensures
            s.seq_no() == 0,
    {
        LanService { sequence: 0 }
    }

    /// The current sequence number.
    pub fn sequence(&self) -> (n: u8)
        ensures
            n == self.seq_no(),
    {
        self.sequence
    }

    /// Assembles the packet of a query to all devices: a broadcast header
    /// carrying the current sequence number and the operation's wire code,
    /// followed by the query payload if there is one.
    pub fn prepare_broadcast_query(&self, packet_type: LifxPacket, query: Option<&Payload>) -> (r:
        Vec<u8>)
        ensures
            r@ == spec_header_bytes(
                self.seq_no(),
                packet_type.wire_code(),
                None,
                spec_query_bytes(query).len() as u16,
            ) + spec_query_bytes(query),
    {
        let mut payload: Vec<u8> = match query {
            Some(q) => q.serialize(),
            None => Vec::new(),
        };
        let payload_len: u16 = payload.len() as u16;
        let header = Header::new(self.sequence, packet_type.code(), None, payload_len);
        let mut out = header.serialize();
        out.append(&mut payload);
        out
    }

    /// Assembles the packet of a command to one device: a header addressed
    /// to the given MAC — or broadcast when none is given — followed by the
    /// command's payload.
    pub fn prepare_send_command(
        &self,
        packet_type: LifxPacket,
        mac_address: Option<[u8; 6]>,
        command: &Payload,
    ) -> (r: Vec<u8>)
        requires
            mac_address matches Some(m) ==> m@ != zero_bytes(6),
        ensures
            r@ == spec_header_bytes(
                self.seq_no(),
                packet_type.wire_code(),
                mac_address,
                command.wire_bytes().len() as u16,
            ) + command.wire_bytes(),
    {
        let mut payload: Vec<u8> = command.serialize();
        proof {
            lemma_payload_len(*command);
        }
        let payload_len: u16 = payload.len() as u16;
        let header = Header::new(self.sequence, packet_type.code(), mac_address, payload_len);
        let mut out = header.serialize();
        out.append(&mut payload);
        out
    }

    /// Records one successful send: the sequence counter steps by 1,
    /// wrapping modulo 256.
    pub fn advance_sequence(&mut self)
        ensures
            final(self).seq_no() as int == (old(self).seq_no() as int + 1) % 256,
    {
        if self.sequence == 255 {
            self.sequence = 0;
        } else {
            self.sequence = self.sequence + 1;
        }
    }
}

} // verus!

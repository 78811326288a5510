//! The field numbers of `grpc.binarylog.v1` on the wire: every field of every
//! logged message is introduced by the key byte of its number in
//! binarylog.proto (field number times eight plus the wire type).
use vstd::prelude::*;
use crate::encode::{
    address_bytes, client_header_bytes, duration_bytes, entries_bytes, entry_bytes,
    entry_head_bytes, entry_tail_bytes, payload_bytes,
    message_bytes, metadata_bytes, metadata_entry_bytes, server_header_bytes, timestamp_bytes,
    trailer_bytes, utf8,
};
use crate::proto::{
    Address, ClientHeader, Duration, GrpcLogEntry, Message, Metadata, MetadataEntry, Payload,
    ServerHeader, Timestamp, Trailer,
};
use crate::wire::{key, varint};

verus! {

/// A length-delimited field that starts with key byte `k`.
pub open spec fn tagged(k: u8, bytes: Seq<u8>) -> Seq<u8> {
    seq![k] + varint(bytes.len() as u64) + bytes
}

/// A varint field with key byte `k`, left out when the value is zero.
pub open spec fn varint_if(k: u8, v: u64) -> Seq<u8> {
    if v == 0 {
        Seq::empty()
    } else {
        seq![k] + varint(v)
    }
}

/// A length-delimited field with key byte `k`, left out when empty.
pub open spec fn tagged_if(k: u8, bytes: Seq<u8>) -> Seq<u8> {
    if bytes.len() == 0 {
        Seq::empty()
    } else {
        tagged(k, bytes)
    }
}

/// A key of a field number below 16 is the single byte `field * 8 + wire`.
pub proof fn lemma_small_key(field: u32, wire: u32)
    requires
        field < 16,
        wire < 8,
    ensures
        key(field, wire) == seq![(field * 8 + wire) as u8],
{
    assert(((field * 8 + wire) as u64) < 128);
}

/// The keys of the field numbers 1 to 11 with the wire types used.
pub proof fn lemma_keys()
    ensures
        key(1, 0) == seq![0x08u8],
        key(1, 2) == seq![0x0Au8],
        key(2, 0) == seq![0x10u8],
        key(2, 2) == seq![0x12u8],
        key(3, 0) == seq![0x18u8],
        key(3, 2) == seq![0x1Au8],
        key(4, 0) == seq![0x20u8],
        key(4, 2) == seq![0x22u8],
        key(5, 0) == seq![0x28u8],
        key(6, 2) == seq![0x32u8],
        key(7, 2) == seq![0x3Au8],
        key(8, 2) == seq![0x42u8],
        key(9, 2) == seq![0x4Au8],
        key(10, 0) == seq![0x50u8],
        key(11, 2) == seq![0x5Au8],
{
    lemma_small_key(1, 0);
    lemma_small_key(1, 2);
    lemma_small_key(2, 0);
    lemma_small_key(2, 2);
    lemma_small_key(3, 0);
    lemma_small_key(3, 2);
    lemma_small_key(4, 0);
    lemma_small_key(4, 2);
    lemma_small_key(5, 0);
    lemma_small_key(6, 2);
    lemma_small_key(7, 2);
    lemma_small_key(8, 2);
    lemma_small_key(9, 2);
    lemma_small_key(10, 0);
    lemma_small_key(11, 2);
}

/// A log entry on the wire: timestamp in field 1, call id 2, sequence id 3,
/// type 4, logger 5, then the payload (client header 6, server header 7,
/// message 8, trailer 9), the truncation flag 10 and the peer 11.
pub proof fn law_entry_field_numbers(e: GrpcLogEntry)
    ensures
        entry_bytes(e) == match e.timestamp {
            Some(t) => tagged(0x0A, timestamp_bytes(t)),
            None => Seq::empty(),
        } + varint_if(0x10, e.call_id) + varint_if(0x18, e.sequence_id_within_call) + varint_if(
            0x20,
            e.event_type as u64,
        ) + varint_if(0x28, e.logger as u64) + match e.payload {
            Some(Payload::ClientHeader(h)) => tagged(0x32, client_header_bytes(h)),
            Some(Payload::ServerHeader(h)) => tagged(0x3A, server_header_bytes(h)),
            Some(Payload::Message(m)) => tagged(0x42, message_bytes(m)),
            Some(Payload::Trailer(t)) => tagged(0x4A, trailer_bytes(t)),
            None => Seq::empty(),
        } + if e.payload_truncated {
            seq![0x50u8, 0x01u8]
        } else {
            Seq::empty()
        } + match e.peer {
            Some(a) => tagged(0x5A, address_bytes(a)),
            None => Seq::empty(),
        },
{
    lemma_entry_head(e);
    lemma_entry_payload(e.payload);
    lemma_entry_tail(e);
    assert(entry_bytes(e) =~= entry_head_bytes(e) + payload_bytes(e.payload) + entry_tail_bytes(e));
}

proof fn lemma_entry_head(e: GrpcLogEntry)
    ensures
        entry_head_bytes(e) == match e.timestamp {
            Some(t) => tagged(0x0A, timestamp_bytes(t)),
            None => Seq::empty(),
        } + varint_if(0x10, e.call_id) + varint_if(0x18, e.sequence_id_within_call) + varint_if(
            0x20,
            e.event_type as u64,
        ) + varint_if(0x28, e.logger as u64),
{
    lemma_keys();
    assert(entry_head_bytes(e) =~= match e.timestamp {
        Some(t) => tagged(0x0A, timestamp_bytes(t)),
        None => Seq::empty(),
    } + varint_if(0x10, e.call_id) + varint_if(0x18, e.sequence_id_within_call) + varint_if(
        0x20,
        e.event_type as u64,
    ) + varint_if(0x28, e.logger as u64));
}

proof fn lemma_entry_payload(p: Option<Payload>)
    ensures
        payload_bytes(p) == match p {
            Some(Payload::ClientHeader(h)) => tagged(0x32, client_header_bytes(h)),
            Some(Payload::ServerHeader(h)) => tagged(0x3A, server_header_bytes(h)),
            Some(Payload::Message(m)) => tagged(0x42, message_bytes(m)),
            Some(Payload::Trailer(t)) => tagged(0x4A, trailer_bytes(t)),
            None => Seq::empty(),
        },
{
    lemma_keys();
}

proof fn lemma_entry_tail(e: GrpcLogEntry)
    ensures
        entry_tail_bytes(e) == if e.payload_truncated {
            seq![0x50u8, 0x01u8]
        } else {
            Seq::empty()
        } + match e.peer {
            Some(a) => tagged(0x5A, address_bytes(a)),
            None => Seq::empty(),
        },
{
    lemma_keys();
    assert(varint(1) == seq![0x01u8]);
    assert(entry_tail_bytes(e) =~= if e.payload_truncated {
        seq![0x50u8, 0x01u8]
    } else {
        Seq::empty()
    } + match e.peer {
        Some(a) => tagged(0x5A, address_bytes(a)),
        None => Seq::empty(),
    });
}

/// The metadata field of headers and trailers: field 1, when present.
pub open spec fn metadata_field(m: Option<Metadata>) -> Seq<u8> {
    match m {
        Some(m) => tagged(0x0A, metadata_bytes(m)),
        None => Seq::empty(),
    }
}

/// The messages inside a log entry on the wire, field by field:
/// client header (metadata 1, method name 2, authority 3, timeout 4), server
/// header (metadata 1), trailer (metadata 1, status code 2, status message 3,
/// status details 4), message (length 1, data 2), metadata entry (key 1,
/// value 2), metadata (each entry in field 1), duration and timestamp
/// (seconds 1, nanos 2), address (type 1, address 2, port 3).
pub proof fn law_inner_field_numbers(
    h: ClientHeader,
    s: ServerHeader,
    t: Trailer,
    m: Message,
    me: MetadataEntry,
    md: Metadata,
    d: Duration,
    ts: Timestamp,
    a: Address,
)
    ensures
        client_header_bytes(h) == metadata_field(h.metadata) + tagged_if(0x12, utf8(h.method_name))
            + tagged_if(0x1A, utf8(h.authority)) + match h.timeout {
            Some(d) => tagged(0x22, duration_bytes(d)),
            None => Seq::empty(),
        },
        server_header_bytes(s) == metadata_field(s.metadata),
        trailer_bytes(t) == metadata_field(t.metadata) + varint_if(0x10, t.status_code as u64)
            + tagged_if(0x1A, utf8(t.status_message)) + tagged_if(0x22, t.status_details@),
        message_bytes(m) == varint_if(0x08, m.length as u64) + tagged_if(0x12, m.data@),
        metadata_entry_bytes(me) == tagged_if(0x0A, utf8(me.key)) + tagged_if(0x12, me.value@),
        md.entry@.len() > 0 ==> metadata_bytes(md) == entries_bytes(md.entry@.drop_last()) + tagged(
            0x0A,
            metadata_entry_bytes(md.entry@.last()),
        ),
        duration_bytes(d) == varint_if(0x08, d.seconds as u64) + varint_if(0x10, d.nanos as u64),
        timestamp_bytes(ts) == varint_if(0x08, ts.seconds as u64) + varint_if(0x10, ts.nanos as u64),
        address_bytes(a) == varint_if(0x08, a.address_type as u64) + tagged_if(0x12, utf8(a.address))
            + varint_if(0x18, a.ip_port as u64),
{
    lemma_keys();
    assert(client_header_bytes(h) =~= metadata_field(h.metadata) + tagged_if(
        0x12,
        utf8(h.method_name),
    ) + tagged_if(0x1A, utf8(h.authority)) + match h.timeout {
        Some(d) => tagged(0x22, duration_bytes(d)),
        None => Seq::empty(),
    });
    assert(server_header_bytes(s) =~= metadata_field(s.metadata));
    assert(trailer_bytes(t) =~= metadata_field(t.metadata) + varint_if(0x10, t.status_code as u64)
        + tagged_if(0x1A, utf8(t.status_message)) + tagged_if(0x22, t.status_details@));
    assert(message_bytes(m) =~= varint_if(0x08, m.length as u64) + tagged_if(0x12, m.data@));
    assert(metadata_entry_bytes(me) =~= tagged_if(0x0A, utf8(me.key)) + tagged_if(0x12, me.value@));
    assert(duration_bytes(d) =~= varint_if(0x08, d.seconds as u64) + varint_if(0x10, d.nanos as u64));
    assert(timestamp_bytes(ts) =~= varint_if(0x08, ts.seconds as u64) + varint_if(
        0x10,
        ts.nanos as u64,
    ));
    assert(address_bytes(a) =~= varint_if(0x08, a.address_type as u64) + tagged_if(
        0x12,
        utf8(a.address),
    ) + varint_if(0x18, a.ip_port as u64));
}

} // verus!

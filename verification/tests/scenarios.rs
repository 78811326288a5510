use std::sync::{Arc, Mutex};

use grpc_binary_logger::call::LogEntry;
use grpc_binary_logger::headers::{HeaderField, HeaderMap};
use grpc_binary_logger::middleware::BinaryLoggerLayer;
use grpc_binary_logger::proto::{ClientHeader, Duration, GrpcLogEntry, Message, Payload, ServerHeader, Timestamp};
use grpc_binary_logger::sink::Sink;
use prost::Message as _;

#[derive(Clone, Default)]
struct Recorder {
    entries: Arc<Mutex<Vec<GrpcLogEntry>>>,
}

impl Sink for Recorder {
    fn write(&self, data: GrpcLogEntry) {
        self.entries.lock().unwrap().push(data);
    }
}

fn field(name: &str, value: &[u8]) -> HeaderField {
    HeaderField { name: name.to_string(), value: value.to_vec() }
}

/// The events of a unary call, in the order the middleware logs them.
#[test]
fn unary_call_scenario() {
    const BASE: u64 = 1;
    let sink = Recorder::default();
    let layer = BinaryLoggerLayer::new(sink.clone());
    let mut service = layer.layer(());
    let request_headers = HeaderMap {
        fields: vec![field("content-type", b"application/grpc"), field("te", b"trailers")],
    };
    let mut call = service.begin_call("/test.Test/TestUnary", &request_headers).expect("logged");
    call.log(LogEntry::ClientHeaders {
        method: "/test.Test/TestUnary",
        authority: Some("[::1]:50051"),
        headers: &request_headers,
    });
    // TestRequest { question: 1 } in a gRPC frame.
    call.log(LogEntry::ClientMessage(&[0, 0, 0, 0, 2, 0x08, BASE as u8]));
    let response_headers = HeaderMap { fields: vec![field("content-type", b"application/grpc")] };
    call.log_response_start(&response_headers, false);
    // TestUnaryResponse { answer: 2 }.
    call.log(LogEntry::ServerMessage(&[0, 0, 0, 0, 2, 0x08, (BASE + 1) as u8]));
    let trailers = HeaderMap { fields: vec![field("grpc-status", b"0")] };
    call.log(LogEntry::ServerTrailers(&trailers));

    let entries = sink.entries.lock().unwrap().clone();
    assert_eq!(entries.len(), 5);
    assert_eq!(entries[0].event_type, 1);
    match &entries[0].payload {
        Some(Payload::ClientHeader(ClientHeader { method_name, .. })) => {
            assert_eq!(method_name, "/test.Test/TestUnary")
        }
        other => panic!("{:?}", other),
    }
    assert_eq!(entries[1].event_type, 3);
    match &entries[1].payload {
        Some(Payload::Message(Message { length, data })) => {
            assert_eq!(data.len(), *length as usize);
            let mut buf: &[u8] = &data[1..];
            assert_eq!(prost::encoding::decode_varint(&mut buf).unwrap(), BASE);
        }
        other => panic!("{:?}", other),
    }
    assert_eq!(entries[2].event_type, 2);
    assert!(matches!(entries[2].payload, Some(Payload::ServerHeader(ServerHeader { .. }))));
    assert_eq!(entries[3].event_type, 4);
    match &entries[3].payload {
        Some(Payload::Message(Message { length, data })) => {
            assert_eq!(data.len(), *length as usize);
            let mut buf: &[u8] = &data[1..];
            assert_eq!(prost::encoding::decode_varint(&mut buf).unwrap(), BASE + 1);
        }
        other => panic!("{:?}", other),
    }
    assert_eq!(entries[4].event_type, 6);
    for (i, e) in entries.iter().enumerate() {
        assert_eq!(e.call_id, 1);
        assert_eq!(e.sequence_id_within_call, i as u64 + 1);
    }
}

#[test]
fn well_known_types_encode_as_prost_does() {
    for (seconds, nanos) in [(0i64, 0i32), (5, 7), (-3, -500), (i64::MAX, 999_999_999)] {
        let mut ours = Vec::new();
        Duration { seconds, nanos }.encode(&mut ours);
        assert_eq!(ours, prost_types::Duration { seconds, nanos }.encode_to_vec());
        let mut ours = Vec::new();
        Timestamp { seconds, nanos }.encode(&mut ours);
        assert_eq!(ours, prost_types::Timestamp { seconds, nanos }.encode_to_vec());
    }
}

#[test]
fn varints_as_prost_writes_them() {
    for v in [0u64, 1, 127, 128, 300, 16384, u64::MAX] {
        let e = GrpcLogEntry {
            timestamp: None,
            call_id: v,
            sequence_id_within_call: 0,
            event_type: 0,
            logger: 0,
            payload: None,
            payload_truncated: false,
            peer: None,
        };
        let mut expected = Vec::new();
        if v != 0 {
            prost::encoding::encode_key(2, prost::encoding::WireType::Varint, &mut expected);
            prost::encoding::encode_varint(v, &mut expected);
        }
        assert_eq!(e.encode_to_vec(), expected);
    }
}

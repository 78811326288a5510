use std::sync::{Arc, Mutex};

use grpc_binary_logger::call::{entry_for, message, CallLogger, LogEntry};
use grpc_binary_logger::headers::{details_or_empty, is_reserved_header, metadata, HeaderField, HeaderMap};
use grpc_binary_logger::middleware::{forward_step, BinaryLoggerLayer, BinaryLoggerMiddleware, ForwardAction, ForwardEvent, ForwardState};
use grpc_binary_logger::predicate::{LogAll, NoReflection, Predicate};
use grpc_binary_logger::proto::{Duration, EventType, GrpcLogEntry, Logger, Message, Payload};
use grpc_binary_logger::sink::{frame_log_entry, DebugSink, FileSink, Sink, StderrIOErrorLogger};
use grpc_binary_logger::timeout::{parse_decimal_u64, parse_grpc_timeout, to_proto_duration, Timeout};
use grpc_binary_logger::wire::frame;

#[derive(Clone, Default)]
struct RecordingSink {
    entries: Arc<Mutex<Vec<GrpcLogEntry>>>,
}

impl RecordingSink {
    fn entries(&self) -> Vec<GrpcLogEntry> {
        self.entries.lock().unwrap().clone()
    }
}

impl Sink for RecordingSink {
    fn write(&self, data: GrpcLogEntry) {
        self.entries.lock().unwrap().push(data);
    }
}

fn headers(pairs: &[(&str, &[u8])]) -> HeaderMap {
    HeaderMap {
        fields: pairs
            .iter()
            .map(|(n, v)| HeaderField { name: n.to_string(), value: v.to_vec() })
            .collect(),
    }
}

#[test]
fn lib_it_works() {
    let result = 2 + 2;
    assert_eq!(result, 4);
}

#[test]
fn it_works() {
    let result = 2 + 2;
    assert_eq!(result, 4);
}

#[test]
fn timeout_units() {
    assert_eq!(parse_grpc_timeout("1H"), Some(Timeout { secs: 3600, nanos: 0 }));
    assert_eq!(parse_grpc_timeout("2M"), Some(Timeout { secs: 120, nanos: 0 }));
    assert_eq!(parse_grpc_timeout("7S"), Some(Timeout { secs: 7, nanos: 0 }));
    assert_eq!(parse_grpc_timeout("1500m"), Some(Timeout { secs: 1, nanos: 500_000_000 }));
    assert_eq!(parse_grpc_timeout("2500001u"), Some(Timeout { secs: 2, nanos: 500_001_000 }));
    assert_eq!(parse_grpc_timeout("1000000001n"), Some(Timeout { secs: 1, nanos: 1 }));
}

#[test]
fn timeout_units_agree() {
    assert_eq!(parse_grpc_timeout("2H"), parse_grpc_timeout("120M"));
    assert_eq!(parse_grpc_timeout("120M"), parse_grpc_timeout("7200S"));
    assert_eq!(parse_grpc_timeout("3S"), parse_grpc_timeout("3000m"));
    assert_eq!(parse_grpc_timeout("1500m"), parse_grpc_timeout("1500000u"));
    assert_eq!(parse_grpc_timeout("2500001u"), parse_grpc_timeout("2500001000n"));
    assert_eq!(parse_grpc_timeout("5124095576030432H"), None);
    assert_eq!(parse_grpc_timeout("307445734561825892M"), None);
}

#[test]
fn timeout_rejects() {
    assert_eq!(parse_grpc_timeout(""), None);
    assert_eq!(parse_grpc_timeout("S"), None);
    assert_eq!(parse_grpc_timeout("10x"), None);
    assert_eq!(parse_grpc_timeout("-7S"), None);
    assert_eq!(parse_grpc_timeout("1.5S"), None);
    assert_eq!(parse_grpc_timeout("18446744073709551616S"), None);
    assert_eq!(parse_grpc_timeout("+7S"), Some(Timeout { secs: 7, nanos: 0 }));
    assert_eq!(parse_grpc_timeout("5é"), None);
    assert_eq!(parse_grpc_timeout("é"), None);
    assert_eq!(parse_grpc_timeout("18446744073709551615H"), None);
    assert_eq!(parse_grpc_timeout("307445734561825861M"), None);
    assert_eq!(parse_grpc_timeout("5124095576030431H"), Some(Timeout { secs: 5124095576030431 * 3600, nanos: 0 }));
}

#[test]
fn decimal_like_std() {
    for s in ["0", "42", "+42", "+", "", "-1", "18446744073709551615", "18446744073709551616", "12a", "٣"] {
        assert_eq!(parse_decimal_u64(s), s.parse::<u64>().ok(), "{}", s);
    }
}

#[test]
fn timeout_to_proto() {
    assert_eq!(to_proto_duration(Some(Timeout { secs: 5, nanos: 7 })), Some(Duration { seconds: 5, nanos: 7 }));
    assert_eq!(to_proto_duration(Some(Timeout { secs: u64::MAX, nanos: 0 })), Some(Duration { seconds: i64::MAX, nanos: 0 }));
    assert_eq!(to_proto_duration(Some(Timeout { secs: i64::MAX as u64 + 1, nanos: 3 })), Some(Duration { seconds: i64::MAX, nanos: 3 }));
    assert_eq!(to_proto_duration(Some(Timeout { secs: i64::MAX as u64, nanos: 9 })), Some(Duration { seconds: i64::MAX, nanos: 9 }));
    assert_eq!(to_proto_duration(None), None);
}

#[test]
fn reserved_headers() {
    assert!(!is_reserved_header("grpc-trace-bin"));
    assert!(is_reserved_header("grpc-status"));
    assert!(is_reserved_header("grpc-timeout"));
    assert!(is_reserved_header("te"));
    assert!(is_reserved_header("content-type"));
    assert!(is_reserved_header("content-length"));
    assert!(is_reserved_header("content-encoding"));
    assert!(is_reserved_header("user-agent"));
    assert!(!is_reserved_header("x-request-id"));
    assert!(!is_reserved_header("grpc"));
}

#[test]
fn metadata_keeps_unreserved_in_order() {
    let h = headers(&[
        ("content-type", b"application/grpc"),
        ("x-a", b"1"),
        ("grpc-trace-bin", b"\x00\x01"),
        ("grpc-status", b"0"),
        ("x-a", b"2"),
    ]);
    let m = metadata(&h);
    let got: Vec<(String, Vec<u8>)> = m.entry.iter().map(|e| (e.key.clone(), e.value.clone())).collect();
    assert_eq!(
        got,
        vec![
            ("x-a".to_string(), b"1".to_vec()),
            ("grpc-trace-bin".to_string(), vec![0, 1]),
            ("x-a".to_string(), b"2".to_vec()),
        ]
    );
}

#[test]
fn grpc_headers() {
    let h = headers(&[
        ("grpc-status", b"5"),
        ("grpc-message", b"not found"),
        ("grpc-status-details-bin", b"aGVsbG8="),
        ("grpc-timeout", b"100m"),
    ]);
    assert_eq!(h.grpc_status(), 5);
    assert_eq!(h.grpc_message(), "not found");
    assert_eq!(h.grpc_status_details(), b"hello".to_vec());
    assert_eq!(h.grpc_timeout(), Some(Timeout { secs: 0, nanos: 100_000_000 }));
    assert_eq!(h.get_grpc_header("grpc-message"), Some("not found".to_string()));
    assert_eq!(h.get_grpc_header("missing"), None);
}

#[test]
fn grpc_status_codes() {
    assert_eq!(headers(&[("grpc-status", b"16")]).grpc_status(), 16);
    assert_eq!(headers(&[("grpc-status", b"10")]).grpc_status(), 10);
    assert_eq!(headers(&[("grpc-status", b"17")]).grpc_status(), 2);
    assert_eq!(headers(&[("grpc-status", b"x")]).grpc_status(), 2);
    assert_eq!(headers(&[("grpc-status", b"\x015")]).grpc_status(), 2);
    assert_eq!(headers(&[]).grpc_status(), 2);
    assert_eq!(headers(&[("grpc-status", b"3"), ("grpc-status", b"4")]).grpc_status(), 3);
}

#[test]
fn grpc_header_defaults() {
    let h = headers(&[("grpc-status-details-bin", b"!!!"), ("grpc-message", b"caf\xc3\xa9")]);
    assert_eq!(h.grpc_status_details(), Vec::<u8>::new());
    assert_eq!(h.grpc_message(), "");
    assert_eq!(h.grpc_timeout(), None);
    assert_eq!(details_or_empty(None), Vec::<u8>::new());
    assert_eq!(details_or_empty(Some(vec![9])), vec![9]);
}

#[test]
fn message_strips_frame_prefix() {
    let m = message(&[0, 0, 0, 0, 3, 7, 8, 9]);
    assert_eq!(m, Message { length: 3, data: vec![7, 8, 9] });
    let m = message(&[0, 0, 0]);
    assert_eq!(m, Message { length: 0, data: vec![] });
}

#[test]
fn entries_per_event() {
    let h = headers(&[("grpc-timeout", b"2S"), ("x-k", b"v"), ("user-agent", b"t")]);
    let e = entry_for(4, 1, &LogEntry::ClientHeaders { method: "/test.Test/TestUnary", authority: Some("host:1"), headers: &h });
    assert_eq!(e.call_id, 4);
    assert_eq!(e.sequence_id_within_call, 1);
    assert_eq!(e.event_type, EventType::ClientHeader.number());
    assert_eq!(e.logger, Logger::Server.number());
    match e.payload {
        Some(Payload::ClientHeader(c)) => {
            assert_eq!(c.method_name, "/test.Test/TestUnary");
            assert_eq!(c.authority, "host:1");
            assert_eq!(c.timeout, Some(Duration { seconds: 2, nanos: 0 }));
            assert_eq!(c.metadata.unwrap().entry.len(), 1);
        }
        other => panic!("{:?}", other),
    }
    let t = headers(&[("grpc-status", b"0")]);
    let e = entry_for(4, 2, &LogEntry::ServerTrailers(&t));
    assert_eq!(e.event_type, 6);
    match e.payload {
        Some(Payload::Trailer(t)) => {
            assert_eq!(t.status_code, 0);
            assert_eq!(t.status_message, "");
            assert_eq!(t.metadata.unwrap().entry.len(), 0);
        }
        other => panic!("{:?}", other),
    }
    let e = entry_for(4, 3, &LogEntry::ServerMessage(&[0, 0, 0, 0, 1, 42]));
    assert_eq!(e.event_type, 4);
    assert_eq!(e.payload, Some(Payload::Message(Message { length: 1, data: vec![42] })));
    let e = entry_for(4, 4, &LogEntry::ClientMessage(&[0, 0, 0, 0, 0]));
    assert_eq!(e.event_type, 3);
    let e = entry_for(4, 5, &LogEntry::ServerHeaders(&h));
    assert_eq!(e.event_type, 2);
}

#[test]
fn call_logger_numbers_entries() {
    let sink = RecordingSink::default();
    let mut call = CallLogger::new(9, Arc::new(sink.clone()));
    let h = headers(&[]);
    call.log(LogEntry::ClientHeaders { method: "/a.B/C", authority: None, headers: &h });
    call.log(LogEntry::ClientMessage(&[0, 0, 0, 0, 1, 5]));
    call.log_response_start(&h, true);
    let entries = sink.entries();
    assert_eq!(entries.len(), 4);
    for (i, e) in entries.iter().enumerate() {
        assert_eq!(e.call_id, 9);
        assert_eq!(e.sequence_id_within_call, i as u64 + 1);
    }
    assert_eq!(entries[2].event_type, 2);
    assert_eq!(entries[3].event_type, 6);
    match &entries[3].payload {
        Some(Payload::Trailer(t)) => assert_eq!(t.status_code, 2),
        other => panic!("{:?}", other),
    }
    assert_eq!(call.call_id(), 9);
}

#[test]
fn response_start_without_end() {
    let sink = RecordingSink::default();
    let mut call = CallLogger::new(1, Arc::new(sink.clone()));
    call.log_response_start(&headers(&[]), false);
    assert_eq!(sink.entries().len(), 1);
}

#[test]
fn predicates() {
    let h = headers(&[]);
    assert!(LogAll.should_log("/grpc.reflection.v1alpha.ServerReflection/Info", &h));
    assert!(!NoReflection.should_log("/grpc.reflection.v1alpha.ServerReflection/ServerReflectionInfo", &h));
    assert!(NoReflection.should_log("/test.Test/TestUnary", &h));
}

#[test]
fn calls_get_fresh_ids() {
    let sink = RecordingSink::default();
    let layer = BinaryLoggerLayer::new(sink.clone());
    let mut mw = layer.layer(());
    let h = headers(&[]);
    assert!(mw.begin_call("/grpc.reflection.v1alpha.ServerReflection/X", &h).is_none());
    let a = mw.begin_call("/test.Test/TestUnary", &h).unwrap();
    let b = mw.begin_call("/test.Test/TestUnary", &h).unwrap();
    assert_eq!(a.call_id(), 1);
    assert_eq!(b.call_id(), 2);
    assert_eq!(mw.next_call_id(), 3);
    assert!(mw.start_call(false).is_none());
    assert_eq!(mw.start_call(true).unwrap().call_id(), 4);
    let mut direct = BinaryLoggerMiddleware::new(5u8, Arc::new(sink), LogAll);
    assert_eq!(*direct.inner_service(), 5);
    assert_eq!(direct.next_call_id(), 1);
}

#[test]
fn entry_encoding() {
    let e = GrpcLogEntry {
        timestamp: None,
        call_id: 300,
        sequence_id_within_call: 1,
        event_type: 3,
        logger: 2,
        payload: Some(Payload::Message(Message { length: 3, data: vec![1, 2, 3] })),
        payload_truncated: false,
        peer: None,
    };
    let expected: Vec<u8> = vec![
        0x10, 0xAC, 0x02, 0x18, 0x01, 0x20, 0x03, 0x28, 0x02, 0x42, 0x07, 0x08, 0x03, 0x12, 0x03, 1, 2, 3,
    ];
    assert_eq!(e.encode_to_vec(), expected);
    let mut framed = vec![0, 0, 0, expected.len() as u8];
    framed.extend_from_slice(&expected);
    assert_eq!(frame_log_entry(&e), framed);
}

#[test]
fn framing_prefix() {
    assert_eq!(frame(&[]), vec![0, 0, 0, 0]);
    let big = vec![7u8; 0x1_0203];
    let f = frame(&big);
    assert_eq!(&f[..4], &[0, 1, 2, 3]);
    assert_eq!(f.len(), big.len() + 4);
}

#[test]
fn forwarding_steps() {
    assert_eq!(forward_step(ForwardState::ReadingData, ForwardEvent::Data { len: 5 }), (ForwardState::ReadingData, ForwardAction::LogAndSend));
    assert_eq!(forward_step(ForwardState::ReadingData, ForwardEvent::Data { len: 0 }), (ForwardState::ReadingData, ForwardAction::Send));
    assert_eq!(forward_step(ForwardState::ReadingData, ForwardEvent::Sent), (ForwardState::ReadingData, ForwardAction::ReadData));
    assert_eq!(forward_step(ForwardState::ReadingData, ForwardEvent::SendFailed), (ForwardState::Done, ForwardAction::Abort));
    assert_eq!(forward_step(ForwardState::ReadingData, ForwardEvent::ReadFailed), (ForwardState::Done, ForwardAction::Abort));
    assert_eq!(forward_step(ForwardState::ReadingData, ForwardEvent::EndOfData), (ForwardState::ReadingTrailers, ForwardAction::ReadTrailers));
    assert_eq!(forward_step(ForwardState::ReadingTrailers, ForwardEvent::Trailers), (ForwardState::SendingTrailers, ForwardAction::SendTrailers));
    assert_eq!(forward_step(ForwardState::ReadingTrailers, ForwardEvent::NoTrailers), (ForwardState::Done, ForwardAction::Finish));
    assert_eq!(forward_step(ForwardState::ReadingTrailers, ForwardEvent::ReadFailed), (ForwardState::Done, ForwardAction::Abort));
    assert_eq!(forward_step(ForwardState::SendingTrailers, ForwardEvent::Sent), (ForwardState::Done, ForwardAction::Finish));
    assert_eq!(forward_step(ForwardState::SendingTrailers, ForwardEvent::SendFailed), (ForwardState::Done, ForwardAction::Abort));
    assert_eq!(forward_step(ForwardState::Done, ForwardEvent::Data { len: 1 }), (ForwardState::Done, ForwardAction::Finish));
}

#[test]
fn sinks() {
    let s = FileSink::new(Vec::<u8>::new());
    let s2 = s.clone().with_error_logger(StderrIOErrorLogger);
    let d: FileSink<Vec<u8>, ()> = FileSink::default();
    assert!(d.shared_writer().lock().unwrap().is_empty());
    assert!(Arc::ptr_eq(s.shared_writer(), s2.shared_writer()));
    DebugSink.write(GrpcLogEntry {
        timestamp: None,
        call_id: 1,
        sequence_id_within_call: 1,
        event_type: 0,
        logger: 0,
        payload: None,
        payload_truncated: false,
        peer: None,
    });
}

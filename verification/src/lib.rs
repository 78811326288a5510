//! A gRPC binary logger: it turns the headers and frames of gRPC calls into
//! `grpc.binarylog.v1` log entries and writes them, framed, to a sink.
mod text;
pub mod wire;
pub mod proto;
pub mod encode;
pub mod timeout;
pub mod headers;
pub mod sink;
pub mod call;
pub mod predicate;
pub mod middleware;
pub mod laws;

pub use call::{CallLogger, LogEntry};
pub use headers::{HeaderField, HeaderMap};
pub use middleware::{BinaryLoggerLayer, BinaryLoggerMiddleware};
pub use predicate::{LogAll, NoReflection, Predicate};
pub use proto::GrpcLogEntry;
pub use sink::{DebugSink, FileSink, IOErrorLogger, Sink, StderrIOErrorLogger};
pub mod field_laws;

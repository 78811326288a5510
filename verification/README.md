# grpc-binary-logger

A gRPC binary logger for tonic servers. Calls selected by a predicate are
recorded as `grpc.binarylog.v1` log entries (client and server headers,
messages, trailers) and handed to a sink; the file sink writes each entry's
protocol-buffer encoding with a four-byte big-endian length prefix, the framing
read by the gRPC tooling.

The library in `src/` states its behaviour in contracts and proves it:

- `wire`, `proto`, `encode`: the log entry messages and their protocol-buffer
  encoding, byte for byte, and the length-prefixed framing;
- `headers`, `timeout`: reading `grpc-status`, `grpc-message`,
  `grpc-status-details-bin` and `grpc-timeout`, and the metadata that is logged;
- `call`: what each event of a call is logged as, and the numbering of entries;
- `predicate`, `middleware`, `sink`: which calls are logged, call ids, the
  steps of forwarding a request body, and the sinks;
- `laws`: properties that span these functions.

`app/` holds the tower layer and service, the logging response body, the
request-body forwarding task and the file writer.

# copra

An RPC framework over protobuf messages, verified with Verus.

The library (`src/`) holds the logic, each function with its contract:

- `protocol`: cutting request and response packages out of a byte stream
  and writing them, for the brpc protocol (`PRPC` frames) and for http 1.x,
  and the codecs that recognize the protocol of a connection and keep it.
- `message`, `wire`: the package metas and their protobuf encoding.
- `dispatcher`, `service`: the registry of services and the dispatch of a
  request to a provider's method through a codec.
- `stub`, `channel`, `link`, `load_balancer`, `monitor`: the client side of a
  call, the limit on calls in flight, the reconnecting connection, and the
  server's traffic count.
- `codegen`, `descriptor`, `generator`: the code generator's file selection,
  its reading of protoc's descriptor set, and its templates.
- `examples`: example services, their messages, providers and stubs.

`app/` holds what runs around it: the tokio codecs and protocols, the server
and channel plumbing, the example and benchmark programs, and the code
generator's use of `protoc`.

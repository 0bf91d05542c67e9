# ig_rs

A client for Instagram's private API and its MQTToT (MQTT over Thrift)
realtime channel, written in Verus.

- `src/` is the verified library: MQTT 3.1.1 control packets and their byte
  encoding, the variable length integer codec, the CONNECT payload values,
  API requests, cookie handling and the client configuration. Contracts
  state each function's result; `law_*` proof functions state properties
  across functions (encoding round trips, packet framing, flag layout).
  `buffers.rs` and a few private wrappers hold the calls into `bytes`,
  `md5`, `miniz_oxide`, `cookie` and `uuid`.
- `app/` is the program around it: HTTP with reqwest, TLS to the MQTT
  broker, thrift serialization of the CONNECT payload, serde layouts and
  packet handlers.
- `tests/` exercises the library on concrete values.

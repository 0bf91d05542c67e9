//! Instagram private API and MQTToT (MQTT over Thrift) client logic.
//!
//! The library holds the parts of the client that compute: MQTT 3.1.1
//! control packet encoding, the variable length integer codec, request
//! construction for the private API and the bookkeeping of the client
//! configuration. Network I/O lives outside the library.

pub mod buffers;
pub mod igmqttclient;
pub mod igclient;

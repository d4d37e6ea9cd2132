//! A minimal STUN Binding responder: the message codec, the
//! XOR-MAPPED-ADDRESS attribute and the decision taken for each datagram.
//!
//! - `wire`: integers in network byte order.
//! - `message_type`: class and method, and the type field that holds both.
//! - `message`: the header and the one attribute of a message, decoded from
//!   bytes and encoded to them.
//! - `xor_address`: the address a datagram came from, masked with the magic
//!   cookie.
//! - `binding`: what is sent back for a datagram.
//! - `error`: why a datagram was rejected.
//!
//! Every function is total: no input makes one panic, so that no datagram,
//! however malformed, stops a listener built on this library.

pub mod binding;
pub mod error;
pub mod message;
pub mod message_type;
pub mod wire;
pub mod xor_address;

//! Both ends of the Milter protocol: the message catalog with its parsers and
//! serializers, the framed codec, option negotiation and the decisions of the
//! client and server conversations.
pub mod actions;
pub mod buffer;
pub mod client;
pub mod codec;
pub mod commands;
pub mod decoding;
pub mod encoding;
pub mod error;
pub mod laws;
pub mod message;
pub mod modifications;
pub mod optneg;
pub mod parsing;
pub mod server;

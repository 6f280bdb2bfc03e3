//! Host side of a bridge that runs Windows audio plug-ins in a worker
//! process under a compatibility runtime. The host talks to the worker in
//! requests and responses over a socket, and moves audio through a region of
//! memory that both share.
//!
//! This crate holds what the host decides and computes, each function with
//! a verified contract: the wire codec ([`protocol`], [`bytes`],
//! [`text`]), single exchanges ([`client`]), the session of one plug-in from
//! loading to teardown ([`session`]), the shared audio region ([`audio`]),
//! MIDI ([`midi`]), and finding plug-ins on disk ([`scanner`], [`paths`]).
//! It opens no socket, starts no process and maps no file: its caller does,
//! and hands it the bytes.

pub mod audio;
pub mod bytes;
pub mod client;
pub mod connect;
pub mod error;
pub mod midi;
pub mod paths;
pub mod plugin;
pub mod protocol;
pub mod scanner;
pub mod session;
pub mod text;

//! Core logic of a chat relay that watches one channel for simfile archive
//! attachments, forwards each qualifying attachment to a remote
//! song-management service, and reports the outcome back to the channel.
//!
//! The pipeline is: inbound event -> event filter -> candidate items ->
//! dispatch (connect, call, report) -> status message. Everything here is
//! pure decision logic over plain values; the network gateway, the RPC
//! transport and the configuration store live outside this crate and feed
//! it events and call outcomes.

pub mod config;
pub mod dispatch;
pub mod event;
pub mod pipeline;
pub mod text;

//! Decoding and supervision logic for a biopotential (EEG/EMG/EXG) acquisition
//! device that streams samples over USB-serial, Bluetooth Low Energy or a
//! WebSocket link.
//!
//! The functions here are verified, but for three whose contracts are
//! believed: `endpoint::parse_url`, which calls `url::Url::parse`, and
//! `text::to_lowercase` and `text::replace_all`, which call `str::to_lowercase`
//! and `str::replace`. Transport I/O, timers and the streaming sink live with
//! the caller: the library is handed bytes and events and answers with
//! samples and with the next action to perform.

pub mod ble;
pub mod continuity;
pub mod endpoint;
pub mod handshake;
pub mod metrics;
pub mod pipeline;
pub mod profile;
pub mod report;
pub mod resolver;
pub mod resolver_laws;
pub mod sample;
pub mod search;
pub mod serial;
pub mod serial_laws;
pub mod session;
pub mod session_laws;
pub mod sink;
pub mod supervisor;
pub mod supervisor_laws;
pub mod text;
pub mod websocket;
pub mod wire;

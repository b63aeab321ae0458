//! Device-state synchronisation and request correlation for a mesh radio
//! client.
//!
//! The radio pushes what it knows, in no fixed order and without saying
//! which request an envelope answers. This library keeps a cache of the
//! latest value of everything the radio reports, and lets callers wait for
//! the answers that can be matched to a request:
//!
//! - `envelope`, `wire`, `names`: the inbound envelopes as plain values, and
//!   what the codec makes of their payloads;
//! - `records`, `settings`, `state`, `store`: the cached device state and
//!   its owner;
//! - `ingest`, `packet`, `config_cache`: what each envelope does to the
//!   state and to the pending waits;
//! - `registry`, `correlation`: the pending waits, from registration to
//!   their end;
//! - `poller`, `position`, `telemetry`: reads that poll the cache until it
//!   holds something new or a deadline has passed;
//! - `outbound`, `encode`, `message`, `channel`, `config`, `device`: the
//!   requests that go out;
//! - `mesh`, `info`, `report`, `text`, `connection`: what is derived from
//!   the state for showing.
//!
//! Every function is verified against its contract, except the calls into
//! the codec and the platform, whose contracts are taken on trust and say
//! so.

pub mod channel;
pub mod config;
pub mod config_cache;
pub mod connection;
pub mod correlation;
pub mod device;
pub mod encode;
pub mod envelope;
pub mod info;
pub mod ingest;
pub mod mesh;
pub mod message;
pub mod names;
pub mod outbound;
pub mod packet;
pub mod platform;
pub mod poller;
pub mod position;
pub mod records;
pub mod registry;
pub mod report;
pub mod settings;
pub mod state;
pub mod store;
pub mod telemetry;
pub mod text;
pub mod views;
pub mod wire;

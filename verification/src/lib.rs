//! Resenha Client: the verified core of a tray application that connects
//! Counter-Strike 2's Game State Integration (GSI) with the Resenha platform.
//!
//! CS2 posts its game state to a local server; only while a match created by
//! the site is active are those posts turned into domain events and sent to
//! the backend over a WebSocket. Outside such a match nothing leaves the
//! machine.
//!
//! - [`events`]: the difference between two GSI payloads as domain events,
//!   and the condensed state sent periodically;
//! - [`state`]: the match controller that decides what leaves the machine;
//! - [`ws`]: backend commands, reconnection backoff and connection decisions;
//! - [`auth`]: pairing, token renewal and the token cache;
//! - [`config`]: configuration, WebSocket address and the secret GSI token;
//! - [`gsi`]: the `.cfg` file for CS2, Steam libraries and the token check;
//! - [`update`]: versions and the mandatory-update gate;
//! - [`wire`]: the JSON text of the messages for the backend;
//! - [`json`], [`text`]: JSON access through `serde_json`, and text helpers.
use vstd::prelude::*;

pub mod auth;
pub mod config;
pub mod events;
pub mod gsi;
pub mod json;
pub mod state;
pub mod text;
pub mod update;
pub mod wire;
pub mod ws;

verus! {
}

//! Session and communication engine for talking to embedded devices over
//! serial and TCP transports.
//!
//! The crate holds the logic that does not depend on how the bytes travel:
//!
//! - [`message`]: the record of one communication event and the patterns
//!   that select such records;
//! - [`transport`], [`adapter`], [`registry`]: the kinds of transport, the
//!   table of open connections that each kind keeps, and the routing of a
//!   request to the table that it concerns;
//! - [`engine`]: the communication engine with its numbered messages, its
//!   bounded history and its counters;
//! - [`state`], [`session`]: the record, the statistics and the life of a
//!   session;
//! - [`manager`]: the session manager with its limit on the number of
//!   sessions and its rule that no two sessions share a name;
//! - [`config`], [`settings`], [`input`], [`output`], [`commands`], [`tui`]:
//!   what the command line and the terminal user interface compute.
//!
//! Every executable function is verified, and says in its contract what it
//! returns and changes.  Each part comes with a model of its state as a
//! plain value (its view) and with a statement, over these values, of what
//! each operation does; the general properties are stated and proved as
//! `lemma_` functions next to the part that they concern.
//!
//! The bytes themselves are moved by an implementation of
//! [`transport::TransportClient`], which the caller supplies.  The crate
//! makes no assumption about what such a client returns.  Nothing in the
//! crate runs in the background: messages and activities are queued, and
//! whoever drives the engine and the sessions works the queues off with
//! [`engine::CommunicationEngine::process_pending_messages`] and
//! [`session::Session::process_activities`].

pub mod adapter;
pub mod commands;
pub mod config;
pub mod engine;
pub mod error;
pub mod history;
pub mod ident;
pub mod input;
pub mod lookup;
pub mod manager;
pub mod memory;
pub mod message;
pub mod output;
pub mod properties;
pub mod registry;
pub mod session;
pub mod settings;
pub mod state;
pub mod text;
pub mod time;
pub mod transport;
pub mod tui;
pub mod wire;

pub use config::TermComConfig;
pub use engine::CommunicationEngine;
pub use error::{TermComError, TermComResult};
pub use manager::SessionManager;
pub use session::{Session, SessionId, SessionType};
pub use time::{Duration, Timestamp};

//! A verified bridge between an actor-based host runtime and long-lived
//! native objects: disposable handles, a transcoder between documents and
//! host terms, mailbox messages for asynchronous results and events, event
//! subscription bookkeeping, and the settings and log forwarding rules.

pub mod delivery;
pub mod events;
pub mod executor;
pub mod json_serde;
pub mod logger;
pub mod resource;
pub mod settings;
pub mod text;
pub mod transcode;

//! A multi-provider authentication engine for a developer-tool identity
//! backend. Three OAuth-family flows are supported: a PKCE flow correlated
//! through an out-of-band redirect callback, a device-authorization flow with
//! polling, and a binary-RPC web-portal flow with cookie-carried session
//! tokens. All three produce one normalized result that a durable credential
//! store merges and deduplicates.
//!
//! Network transport, file persistence and process control live outside this
//! crate; every decision the flows and the store make is verified here.

pub mod accounts;

pub mod auth_state;

pub mod base;

pub mod clock;

pub mod codewhisperer;

pub mod correlator;

pub mod desktop;

pub mod errors;

pub mod factory;

pub mod idc;

pub mod kiro;

pub mod machine;

pub mod mcp;

pub mod pkce;

pub mod powers;

pub mod settings;

pub mod social;

pub mod sso;

pub mod sso_import;

pub mod store;

pub mod util;

pub mod version;

pub mod web_oauth;

pub mod webflow;

//! A minimal event-driven service shell.
//!
//! Two independent shells share the same structure: load a fixed set of named
//! secrets from a key-value store at startup, failing fast when one is absent,
//! and then build event handlers for an external dispatch runtime.
//!
//! - [`secrets`] models the key-value secret store read at startup.
//! - [`config`] is the configuration loader: it retrieves required secrets
//!   and reports exactly which key is missing when one is absent.
//! - [`web`] holds the static HTTP responder and the route table it is
//!   registered in.
//! - [`bot`] holds the chat-event handler, its gateway registration, and the
//!   startup sequence that builds them.

pub mod bot;
pub mod config;
pub mod secrets;
pub mod web;

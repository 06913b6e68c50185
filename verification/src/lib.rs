//! Grok Desktop: the verified core of the desktop and local browser console.
//!
//! The library holds the decisions of the product: the slash-command
//! catalog, the narrow IPC surface, the local-access authentication rules,
//! the terminal handoff argument vector, the session and approval bookkeeping
//! of the agent bridge, the edits that persist custom models into
//! `config.toml`, and what the `grok models` commands print. The per-launch
//! access token and agent secret are drawn with `rand`. Network, process and
//! file-system work is done by the caller, which hands the results in.

pub mod commands;
pub mod config;
pub mod domain;
pub mod runtime;
pub mod services;
pub mod text;
pub mod web;

use vstd::prelude::*;

verus! {

/// The product name shown to users.
pub const PRODUCT_NAME: &'static str = "Grok Desktop";

/// The executable name of the desktop product.
pub const BINARY_NAME: &'static str = "grok-desktop";

} // verus!

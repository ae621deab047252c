//! The core of a language server that turns the dependency manifests open in
//! an editor into vulnerability diagnostics and quick fixes.
//!
//! The server keeps a mirror of each open manifest, batches the manifests of a
//! workspace into one request to an analysis service once the workspace has
//! been quiet for a while, and deals the service's answer back out to the
//! documents. This crate decides; it neither waits nor sends. Every change of
//! the state hands back the actions that its holder is to perform.

pub mod api;
pub mod code_actions;
pub mod config;
pub mod diagnostics;
pub mod json;
pub mod laws;
pub mod lsp;
pub mod package_locator;
pub mod position;
pub mod state;
pub mod store;
pub mod text;
pub mod uri;

pub use config::{Config, DetailLevel};
pub use lsp::VulneraLanguageServer;

use vstd::prelude::*;
use vstd::string::StringExecFns;

verus! {

/// What ends the server.
#[derive(Debug)]
pub enum AdapterError {
    /// The server could not go on; with the reason.
    Server(String),
}

impl AdapterError {
    /// The error in words.
    pub fn message(&self) -> (text: String)
        ensures
            text@ == match self {
                AdapterError::Server(reason) => "LSP server error: "@ + reason@,
            },
    {
        match self {
            AdapterError::Server(reason) => {
                let mut text = String::from_str("LSP server error: ");
                text.append(reason.as_str());
                text
            },
        }
    }
}

} // verus!

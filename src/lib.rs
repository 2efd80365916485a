//! Resolves and provisions the `jj-lsp` language-server executable for an
//! editor extension: prefer a binary on the system path, otherwise reuse a
//! version-tagged copy in the extension's scratch directory, otherwise fetch
//! the matching release asset and install it there.
pub mod error;
pub mod platform;
pub mod release;
pub mod resolver;
pub mod runs;


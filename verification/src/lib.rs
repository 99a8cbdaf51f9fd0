//! A wallet runtime for several blockchains.
//!
//! One interface serves every chain: [`chain::ChainAdapter`] gives the
//! transaction lifecycle of a chain (build, sign, send, watch) and its
//! balance query, and [`runtime::chain_runtime::ChainRuntime`] hands each
//! value to the adapter of the chain it is tagged with. Keys are held by
//! [`model::keyring::Keyring`] and used through [`types::Key`].
//!
//! The library does no input or output. Where a rule of a chain needs the
//! network in the middle of its work, as the Ethereum rules in
//! [`chain::eth::adapter`] do, it is given as the steps before and after:
//! the caller asks the network and hands back what it answered.
//!
//! What is taken on trust from outside crates stands in [`trusted`].
pub mod chain;
pub mod config;
pub mod error;
pub mod model;
pub mod runtime;
pub mod service;
pub mod text;
pub mod trusted;
pub mod types;

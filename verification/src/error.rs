//! The errors of the wallet runtime.
use crate::types::ChainId;
use vstd::prelude::*;

verus! {

/// Everything that can go wrong in the wallet runtime.
///
/// Dispatch adds `AdapterNotFound`; every other variant originates in an
/// adapter, a key or the key store and is handed to the caller unchanged.
#[derive(Debug, PartialEq, Eq)]
pub enum WalletError {
    /// The text names no known chain; carries the text as it was given.
    UnsupportedChain(String),
    /// A value tagged with one chain was handed to an operation of another.
    ChainMismatch,
    /// No adapter is registered for the chain.
    AdapterNotFound(ChainId),
    /// The key store holds no key for the address.
    KeyNotFound,
    /// The private key text does not describe a usable key.
    InvalidKeyMaterial,
    /// The adapter of this chain has no network integration yet.
    NotImplemented(ChainId),
    /// The network could not complete the broadcast of a signed transaction.
    BroadcastFailed,
    /// Transport or node failure, with the transport's own description.
    NetworkError(String),
    /// The address text is not in the chain's address format.
    InvalidAddress,
    /// The amount or gas price text is not a decimal number the chain accepts.
    InvalidAmount,
    /// The transaction hash text is not in the chain's hash format.
    InvalidHash,
    /// The transaction could not be put into its wire representation.
    EncodingFailed,
    /// The key could not produce a signature.
    SigningFailed,
}

impl WalletError {
    /// What the error says to a reader.
    pub open spec fn text(self) -> Seq<char> {
        match self {
            WalletError::UnsupportedChain(text) => "Unsupported chain: "@ + text@,
            WalletError::ChainMismatch => "Chain mismatch"@,
            WalletError::AdapterNotFound(chain) => "Chain adapter not found for: "@ + chain.code(),
            WalletError::KeyNotFound => "Key not found"@,
            WalletError::InvalidKeyMaterial => "Invalid private key"@,
            WalletError::NotImplemented(chain) => chain.code() + " adapter not yet implemented"@,
            WalletError::BroadcastFailed => "Broadcast failed: the signed transaction cannot be rebuilt for sending"@,
            WalletError::NetworkError(text) => "Network error: "@ + text@,
            WalletError::InvalidAddress => "Invalid address"@,
            WalletError::InvalidAmount => "Invalid amount"@,
            WalletError::InvalidHash => "Invalid transaction hash"@,
            WalletError::EncodingFailed => "Transaction could not be encoded"@,
            WalletError::SigningFailed => "Signing failed"@,
        }
    }

    /// The HTTP status under which the error is reported: `400` for what
    /// the caller got wrong, `404` for what is not there, `501` for what is
    /// not built yet, `502` for what the network failed at, and `500` for
    /// the rest.
    pub open spec fn status(self) -> u16 {
        match self {
            WalletError::UnsupportedChain(_) => 400,
            WalletError::ChainMismatch => 400,
            WalletError::AdapterNotFound(_) => 404,
            WalletError::KeyNotFound => 404,
            WalletError::InvalidKeyMaterial => 400,
            WalletError::NotImplemented(_) => 501,
            WalletError::BroadcastFailed => 502,
            WalletError::NetworkError(_) => 502,
            WalletError::InvalidAddress => 400,
            WalletError::InvalidAmount => 400,
            WalletError::InvalidHash => 400,
            WalletError::EncodingFailed => 500,
            WalletError::SigningFailed => 500,
        }
    }

    /// The HTTP status under which the error is reported. It is never one
    /// of success.
    pub fn http_status(&self) -> (code: u16)
        ensures
            code == self.status(),
            400 <= code <= 599,
    {
        match self {
            WalletError::UnsupportedChain(_) => 400,
            WalletError::ChainMismatch => 400,
            WalletError::AdapterNotFound(_) => 404,
            WalletError::KeyNotFound => 404,
            WalletError::InvalidKeyMaterial => 400,
            WalletError::NotImplemented(_) => 501,
            WalletError::BroadcastFailed => 502,
            WalletError::NetworkError(_) => 502,
            WalletError::InvalidAddress => 400,
            WalletError::InvalidAmount => 400,
            WalletError::InvalidHash => 400,
            WalletError::EncodingFailed => 500,
            WalletError::SigningFailed => 500,
        }
    }

    /// Writes what the error says to a reader.
    pub fn message(&self) -> (r: String)
        ensures
            r@ == self.text(),
    {
        match self {
            WalletError::UnsupportedChain(text) => {
                "Unsupported chain: ".to_owned().concat(text.as_str())
            },
            WalletError::ChainMismatch => "Chain mismatch".to_owned(),
            WalletError::AdapterNotFound(chain) => {
                "Chain adapter not found for: ".to_owned().concat(chain.as_str())
            },
            WalletError::KeyNotFound => "Key not found".to_owned(),
            WalletError::InvalidKeyMaterial => "Invalid private key".to_owned(),
            WalletError::NotImplemented(chain) => {
                chain.as_str().to_owned().concat(" adapter not yet implemented")
            },
            WalletError::BroadcastFailed => {
                "Broadcast failed: the signed transaction cannot be rebuilt for sending".to_owned()
            },
            WalletError::NetworkError(text) => "Network error: ".to_owned().concat(text.as_str()),
            WalletError::InvalidAddress => "Invalid address".to_owned(),
            WalletError::InvalidAmount => "Invalid amount".to_owned(),
            WalletError::InvalidHash => "Invalid transaction hash".to_owned(),
            WalletError::EncodingFailed => "Transaction could not be encoded".to_owned(),
            WalletError::SigningFailed => "Signing failed".to_owned(),
        }
    }
}

impl Clone for WalletError {
    fn clone(&self) -> (r: Self)
        ensures
            r == *self,
    {
        match self {
            WalletError::UnsupportedChain(text) => WalletError::UnsupportedChain(text.clone()),
            WalletError::ChainMismatch => WalletError::ChainMismatch,
            WalletError::AdapterNotFound(chain) => WalletError::AdapterNotFound(*chain),
            WalletError::KeyNotFound => WalletError::KeyNotFound,
            WalletError::InvalidKeyMaterial => WalletError::InvalidKeyMaterial,
            WalletError::NotImplemented(chain) => WalletError::NotImplemented(*chain),
            WalletError::BroadcastFailed => WalletError::BroadcastFailed,
            WalletError::NetworkError(text) => WalletError::NetworkError(text.clone()),
            WalletError::InvalidAddress => WalletError::InvalidAddress,
            WalletError::InvalidAmount => WalletError::InvalidAmount,
            WalletError::InvalidHash => WalletError::InvalidHash,
            WalletError::EncodingFailed => WalletError::EncodingFailed,
            WalletError::SigningFailed => WalletError::SigningFailed,
        }
    }
}

} // verus!

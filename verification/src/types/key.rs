//! The key of an Ethereum account.
use crate::chain::eth::primitives::{ethereum_account, EthAddress};
use crate::error::WalletError;
use crate::text::signed_message;
use crate::trusted::{
    hash_message, hash_signature, keccak256, keccak256_digest, key_of_text, read_key, sign_hash,
};
use crate::types::{Address, ChainId, Key};
use vstd::prelude::*;

verus! {

/// An Ethereum key: a secp256k1 secret and the address that belongs to it.
pub struct EthereumKey {
    secret: [u8; 32],
    address: EthAddress,
}

/// What an `EthereumKey` stands for: the bytes of the secret and of the address.
pub struct EthereumKeyView {
    pub secret: Seq<u8>,
    pub address: Seq<u8>,
}

impl View for EthereumKey {
    type V = EthereumKeyView;

    closed spec fn view(&self) -> EthereumKeyView {
        EthereumKeyView { secret: self.secret@, address: self.address@ }
    }
}

/// The key that a private key text holds, if it holds one.
pub open spec fn key_in_text(text: Seq<char>) -> Option<EthereumKeyView> {
    match key_of_text(text) {
        Some((secret, address)) => Some(EthereumKeyView { secret, address }),
        None => None,
    }
}

/// The signature of a secret under a message, signed as an Ethereum
/// message: under the Keccak-256 digest of the message in its signing form.
pub open spec fn message_signature(secret: Seq<u8>, message: Seq<u8>) -> Option<Seq<u8>> {
    hash_signature(secret, keccak256_digest(signed_message(message)))
}

impl EthereumKey {
    /// Reads a key from the hexadecimal text of its secret.
    pub fn from_private_key(private_key: &str) -> (r: Result<Self, WalletError>)
        ensures
            match key_in_text(private_key@) {
                Some(key) => r matches Ok(k) && k@ == key,
                None => r == Err::<Self, WalletError>(WalletError::InvalidKeyMaterial),
            },
    {
        match read_key(private_key) {
            Some((secret, address)) => Ok(Self { secret, address }),
            None => Err(WalletError::InvalidKeyMaterial),
        }
    }

    /// The address that belongs to this key.
    pub fn eth_address(&self) -> (r: EthAddress)
        ensures
            r@ == self@.address,
    {
        self.address
    }

    /// Signs a digest of thirty-two bytes as it stands, as transactions are
    /// signed. The key gives signatures, never its secret.
    pub fn sign_digest(&self, digest: &[u8; 32]) -> (r: Result<Vec<u8>, WalletError>)
        ensures
            match hash_signature(self@.secret, digest@) {
                Some(signature) => r matches Ok(bytes) && bytes@ == signature,
                None => r == Err::<Vec<u8>, WalletError>(WalletError::SigningFailed),
            },
    {
        match sign_hash(&self.secret, digest) {
            Some(signature) => Ok(signature),
            None => Err(WalletError::SigningFailed),
        }
    }
}

impl Clone for EthereumKey {
    fn clone(&self) -> (r: Self)
        ensures
            r == *self,
    {
        Self { secret: self.secret, address: self.address }
    }
}

impl Key for EthereumKey {
    /// The account of this key on Ethereum; `ChainMismatch` for any other chain.
    fn address(&self, chain_id: ChainId) -> (r: Result<Address, WalletError>)
        ensures
            chain_id == ChainId::Ethereum ==> (r matches Ok(a) && a@ == ethereum_account(
                self@.address,
            )),
            chain_id != ChainId::Ethereum ==> r == Err::<Address, WalletError>(
                WalletError::ChainMismatch,
            ),
    {
        match chain_id {
            ChainId::Ethereum => Ok(self.address.account()),
            _ => Err(WalletError::ChainMismatch),
        }
    }

    /// Signs the Keccak-256 digest of `data` as an Ethereum message.
    fn sign(&self, data: &[u8]) -> (r: Result<Vec<u8>, WalletError>)
        ensures
            match message_signature(self@.secret, keccak256_digest(data@)) {
                Some(signature) => r matches Ok(bytes) && bytes@ == signature,
                None => r == Err::<Vec<u8>, WalletError>(WalletError::SigningFailed),
            },
    {
        let digest = keccak256(data);
        let hash = hash_message(digest.as_slice());
        self.sign_digest(&hash)
    }

    /// Ethereum, and nothing else.
    fn supported_chains(&self) -> (r: Vec<ChainId>)
        ensures
            r@ == seq![ChainId::Ethereum],
    {
        let mut chains: Vec<ChainId> = Vec::new();
        chains.push(ChainId::Ethereum);
        chains
    }
}

} // verus!

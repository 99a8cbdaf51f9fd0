//! The adapter interface, and the adapters of the single chains.
use crate::error::WalletError;
use crate::types::{
    Address, Balance, ChainId, Key, SignedTx, TxHash, TxRequest, TxStatusInfo, UnsignedTx,
};
use std::sync::Arc;
use vstd::prelude::*;

pub mod btc;
pub mod eth;
pub mod sol;
pub mod sui;

verus! {

/// The transaction lifecycle of one chain: build, sign, send, watch, and the
/// balance query beside it. The runtime treats every chain through this trait.
///
/// What an operation makes belongs to the chain of what it was given: a
/// built transaction to the chain of the request's sender, a signed one to
/// the chain of the unsigned one, a hash to the chain of the signed one.
///
/// `K` is the kind of key that the adapter signs with. Unless another is
/// named it is `dyn Key`: any key, behind a reference.
pub trait ChainAdapter<K: Key + ?Sized = dyn Key>: Send + Sync {
    /// The chain that this adapter serves: the key under which the runtime
    /// registers it.
    fn chain_id(&self) -> (c: ChainId)
    ;

    /// The balance of `address` in the chain's native asset.
    fn get_balance(&self, address: &Address) -> (r: Result<Balance, WalletError>)
    ;

    /// Encodes `req` as an unsigned transaction of this chain.
    fn build_tx(&self, req: TxRequest) -> (r: Result<UnsignedTx, WalletError>)
        ensures
            r matches Ok(tx) ==> tx.chain_id == req.from.chain_id && req.to.chain_id
                == req.from.chain_id,
    ;

    /// Has `key` sign `tx` and packages the signature with it.
    fn sign_tx(&self, tx: UnsignedTx, key: &K) -> (r: Result<SignedTx, WalletError>)
        ensures
            r matches Ok(signed) ==> signed.chain_id == tx.chain_id,
    ;

    /// Broadcasts `tx`.
    fn send_tx(&self, tx: SignedTx) -> (r: Result<TxHash, WalletError>)
        ensures
            r matches Ok(hash) ==> hash.chain_id == tx.chain_id,
    ;

    /// Reports where the transaction `hash` stands.
    fn watch_tx(&self, hash: TxHash) -> (r: Result<TxStatusInfo, WalletError>)
        ensures
            r matches Ok(info) ==> info.hash@ == hash@,
    ;
}

/// A shared adapter is an adapter: every call goes to the one it points to.
impl<T: ChainAdapter<K> + ?Sized, K: Key + ?Sized> ChainAdapter<K> for Arc<T> {
    fn chain_id(&self) -> (c: ChainId)
        ensures
            call_ensures(T::chain_id, (&**self,), c),
    {
        (**self).chain_id()
    }

    fn get_balance(&self, address: &Address) -> (r: Result<Balance, WalletError>)
        ensures
            call_ensures(T::get_balance, (&**self, address), r),
    {
        (**self).get_balance(address)
    }

    fn build_tx(&self, req: TxRequest) -> (r: Result<UnsignedTx, WalletError>)
        ensures
            call_ensures(T::build_tx, (&**self, req), r),
    {
        (**self).build_tx(req)
    }

    fn sign_tx(&self, tx: UnsignedTx, key: &K) -> (r: Result<SignedTx, WalletError>)
        ensures
            call_ensures(T::sign_tx, (&**self, tx, key), r),
    {
        (**self).sign_tx(tx, key)
    }

    fn send_tx(&self, tx: SignedTx) -> (r: Result<TxHash, WalletError>)
        ensures
            call_ensures(T::send_tx, (&**self, tx), r),
    {
        (**self).send_tx(tx)
    }

    fn watch_tx(&self, hash: TxHash) -> (r: Result<TxStatusInfo, WalletError>)
        ensures
            call_ensures(T::watch_tx, (&**self, hash), r),
    {
        (**self).watch_tx(hash)
    }
}

} // verus!

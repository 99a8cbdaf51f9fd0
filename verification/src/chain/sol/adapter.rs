//! The adapter of Solana.
use crate::chain::ChainAdapter;
use crate::error::WalletError;
use crate::types::{
    Address, Balance, ChainId, Key, SignedTx, TxHash, TxRequest, TxStatusInfo, UnsignedTx,
};
use vstd::prelude::*;

verus! {

/// Adapter of the Solana chain. It has no network integration yet: every
/// operation fails with `NotImplemented` and touches nothing.
pub struct SolanaAdapter {
    #[allow(dead_code)]
    rpc_url: String,
}

impl SolanaAdapter {
    pub closed spec fn endpoint(&self) -> Seq<char> {
        self.rpc_url@
    }

    pub fn new(rpc_url: String) -> (r: Self)
        ensures
            r.endpoint() == rpc_url@,
    {
        Self { rpc_url }
    }
}

impl ChainAdapter for SolanaAdapter {
    fn chain_id(&self) -> (c: ChainId)
        ensures
            c == ChainId::Solana,
    {
        ChainId::Solana
    }

    fn get_balance(&self, _address: &Address) -> (r: Result<Balance, WalletError>)
        ensures
            r == Err::<Balance, WalletError>(WalletError::NotImplemented(ChainId::Solana)),
    {
        Err(WalletError::NotImplemented(ChainId::Solana))
    }

    fn build_tx(&self, _req: TxRequest) -> (r: Result<UnsignedTx, WalletError>)
        ensures
            r == Err::<UnsignedTx, WalletError>(WalletError::NotImplemented(ChainId::Solana)),
    {
        Err(WalletError::NotImplemented(ChainId::Solana))
    }

    fn sign_tx(&self, _tx: UnsignedTx, _key: &dyn Key) -> (r: Result<SignedTx, WalletError>)
        ensures
            r == Err::<SignedTx, WalletError>(WalletError::NotImplemented(ChainId::Solana)),
    {
        Err(WalletError::NotImplemented(ChainId::Solana))
    }

    fn send_tx(&self, _tx: SignedTx) -> (r: Result<TxHash, WalletError>)
        ensures
            r == Err::<TxHash, WalletError>(WalletError::NotImplemented(ChainId::Solana)),
    {
        Err(WalletError::NotImplemented(ChainId::Solana))
    }

    fn watch_tx(&self, _hash: TxHash) -> (r: Result<TxStatusInfo, WalletError>)
        ensures
            r == Err::<TxStatusInfo, WalletError>(WalletError::NotImplemented(ChainId::Solana)),
    {
        Err(WalletError::NotImplemented(ChainId::Solana))
    }
}

} // verus!

//! The dispatcher over the adapters of all chains.
use crate::chain::ChainAdapter;
use crate::error::WalletError;
use crate::types::{
    Address, Balance, ChainId, Key, SignedTx, TxHash, TxRequest, TxStatusInfo, UnsignedTx,
};
use std::marker::PhantomData;
use std::sync::Arc;
use vstd::prelude::*;

verus! {

/// One entry point for all chains: it finds the adapter of the chain that a
/// value is tagged with and hands the value to it.
///
/// `A` is the form in which adapters are held. Unless another is named it
/// is `Arc<dyn ChainAdapter>`, with which adapters of different types stand
/// side by side. `K` is the kind of key that the adapters sign with; unless
/// another is named it is `dyn Key`.
pub struct ChainRuntime<A: ChainAdapter<K> = Arc<dyn ChainAdapter>, K: Key + ?Sized = dyn Key> {
    ethereum: Option<A>,
    solana: Option<A>,
    bitcoin: Option<A>,
    sui: Option<A>,
    keys: PhantomData<K>,
}

/// The outcome of looking up `chain` among the registered adapters.
pub open spec fn found<A>(adapters: Map<ChainId, A>, chain: ChainId) -> Result<A, WalletError> {
    if adapters.contains_key(chain) {
        Ok(adapters[chain])
    } else {
        Err(WalletError::AdapterNotFound(chain))
    }
}

impl<A: ChainAdapter<K>, K: Key + ?Sized> ChainRuntime<A, K> {
    /// The registered adapters by the chain they are registered under.
    pub closed spec fn view(&self) -> Map<ChainId, A> {
        Map::new(
            |chain: ChainId| self.slot(chain) is Some,
            |chain: ChainId| self.slot(chain)->0,
        )
    }

    /// The place of `chain` in the table.
    closed spec fn slot(&self, chain: ChainId) -> Option<A> {
        match chain {
            ChainId::Ethereum => self.ethereum,
            ChainId::Solana => self.solana,
            ChainId::Bitcoin => self.bitcoin,
            ChainId::Sui => self.sui,
        }
    }

    /// A runtime without adapters.
    pub fn new() -> (r: Self)
        ensures
            r@ == Map::<ChainId, A>::empty(),
    {
        let r = Self { ethereum: None, solana: None, bitcoin: None, sui: None, keys: PhantomData };
        assert(r@ =~= Map::<ChainId, A>::empty());
        r
    }

    /// Registers `adapter` under the chain that its `chain_id` names. An
    /// adapter registered earlier under that chain is replaced.
    pub fn register_adapter(&mut self, adapter: A)
        ensures
            exists|chain: ChainId|
                #![trigger call_ensures(A::chain_id, (&adapter,), chain)]
                call_ensures(A::chain_id, (&adapter,), chain) && final(self)@ == old(self)@.insert(
                    chain,
                    adapter,
                ),
    {
        let chain = adapter.chain_id();
        let ghost before = *self;
        match chain {
            ChainId::Ethereum => {
                self.ethereum = Some(adapter);
            },
            ChainId::Solana => {
                self.solana = Some(adapter);
            },
            ChainId::Bitcoin => {
                self.bitcoin = Some(adapter);
            },
            ChainId::Sui => {
                self.sui = Some(adapter);
            },
        }
        assert(self@ =~= before@.insert(chain, adapter));
    }

    /// The adapter registered for `chain_id`.
    pub fn get_adapter(&self, chain_id: ChainId) -> (r: Result<&A, WalletError>)
        ensures
            match found(self@, chain_id) {
                Ok(adapter) => r == Ok::<&A, WalletError>(&adapter),
                Err(e) => r == Err::<&A, WalletError>(e),
            },
    {
        let slot = match chain_id {
            ChainId::Ethereum => &self.ethereum,
            ChainId::Solana => &self.solana,
            ChainId::Bitcoin => &self.bitcoin,
            ChainId::Sui => &self.sui,
        };
        match slot {
            Some(adapter) => Ok(adapter),
            None => Err(WalletError::AdapterNotFound(chain_id)),
        }
    }

    /// The balance of `address`, from the adapter of the address's chain.
    pub fn get_balance(&self, address: &Address) -> (r: Result<Balance, WalletError>)
        ensures
            match found(self@, address.chain_id) {
                Ok(adapter) => call_ensures(A::get_balance, (&adapter, address), r),
                Err(e) => r == Err::<Balance, WalletError>(e),
            },
    {
        match self.get_adapter(address.chain_id) {
            Ok(adapter) => adapter.get_balance(address),
            Err(e) => Err(e),
        }
    }

    /// Builds the transaction of `req` with the adapter of the sender's chain.
    pub fn build_tx(&self, req: TxRequest) -> (r: Result<UnsignedTx, WalletError>)
        ensures
            match found(self@, req.from.chain_id) {
                Ok(adapter) => call_ensures(A::build_tx, (&adapter, req), r),
                Err(e) => r == Err::<UnsignedTx, WalletError>(e),
            },
            r matches Ok(tx) ==> tx.chain_id == req.from.chain_id && req.to.chain_id
                == req.from.chain_id,
    {
        match self.get_adapter(req.from.chain_id) {
            Ok(adapter) => adapter.build_tx(req),
            Err(e) => Err(e),
        }
    }

    /// Signs `tx` with the adapter of the transaction's chain.
    pub fn sign_tx(&self, tx: UnsignedTx, key: &K) -> (r: Result<SignedTx, WalletError>)
        ensures
            match found(self@, tx.chain_id) {
                Ok(adapter) => call_ensures(A::sign_tx, (&adapter, tx, key), r),
                Err(e) => r == Err::<SignedTx, WalletError>(e),
            },
            r matches Ok(signed) ==> signed.chain_id == tx.chain_id,
    {
        match self.get_adapter(tx.chain_id) {
            Ok(adapter) => adapter.sign_tx(tx, key),
            Err(e) => Err(e),
        }
    }

    /// Sends `tx` with the adapter of the transaction's chain.
    pub fn send_tx(&self, tx: SignedTx) -> (r: Result<TxHash, WalletError>)
        ensures
            match found(self@, tx.chain_id) {
                Ok(adapter) => call_ensures(A::send_tx, (&adapter, tx), r),
                Err(e) => r == Err::<TxHash, WalletError>(e),
            },
            r matches Ok(hash) ==> hash.chain_id == tx.chain_id,
    {
        match self.get_adapter(tx.chain_id) {
            Ok(adapter) => adapter.send_tx(tx),
            Err(e) => Err(e),
        }
    }

    /// Asks the adapter of the hash's chain where the transaction stands.
    pub fn watch_tx(&self, hash: TxHash) -> (r: Result<TxStatusInfo, WalletError>)
        ensures
            match found(self@, hash.chain_id) {
                Ok(adapter) => call_ensures(A::watch_tx, (&adapter, hash), r),
                Err(e) => r == Err::<TxStatusInfo, WalletError>(e),
            },
            r matches Ok(info) ==> info.hash@ == hash@,
    {
        match self.get_adapter(hash.chain_id) {
            Ok(adapter) => adapter.watch_tx(hash),
            Err(e) => Err(e),
        }
    }

    /// Builds, signs and sends the transaction of `req`, each stage on the
    /// adapter of the sender's chain. The first stage that fails ends the
    /// pipeline: its error comes back unchanged and no later stage is run.
    /// Where all three succeed, what sending returned comes back.
    pub fn send_transaction(&self, req: TxRequest, key: &K) -> (r: Result<
        TxHash,
        WalletError,
    >)
        ensures
            match found(self@, req.from.chain_id) {
                Ok(adapter) => exists|built: Result<UnsignedTx, WalletError>|
                    #![trigger call_ensures(A::build_tx, (&adapter, req), built)]
                    call_ensures(A::build_tx, (&adapter, req), built) && match built {
                        Err(e) => r == Err::<TxHash, WalletError>(e),
                        Ok(unsigned) => exists|signed: Result<SignedTx, WalletError>|
                            #![trigger call_ensures(A::sign_tx, (&adapter, unsigned, key), signed)]
                            call_ensures(A::sign_tx, (&adapter, unsigned, key), signed)
                                && match signed {
                                Err(e) => r == Err::<TxHash, WalletError>(e),
                                Ok(ready) => call_ensures(A::send_tx, (&adapter, ready), r),
                            },
                    },
                Err(e) => r == Err::<TxHash, WalletError>(e),
            },
            r matches Ok(hash) ==> hash.chain_id == req.from.chain_id,
    {
        let ghost chain = req.from.chain_id;
        let ghost request = req;
        let built = match self.get_adapter(req.from.chain_id) {
            Ok(adapter) => adapter.build_tx(req),
            Err(e) => {
                return Err(e);
            },
        };
        let ghost adapter = self@[chain];
        assert(call_ensures(A::build_tx, (&adapter, request), built));
        let unsigned = match built {
            Ok(unsigned) => unsigned,
            Err(e) => {
                return Err(e);
            },
        };
        let ghost payload = unsigned;
        let signed = match self.get_adapter(unsigned.chain_id) {
            Ok(adapter) => adapter.sign_tx(unsigned, key),
            Err(e) => Err(e),
        };
        assert(call_ensures(A::sign_tx, (&adapter, payload, key), signed));
        let ready = match signed {
            Ok(ready) => ready,
            Err(e) => {
                return Err(e);
            },
        };
        let ghost sealed = ready;
        let r = match self.get_adapter(ready.chain_id) {
            Ok(adapter) => adapter.send_tx(ready),
            Err(e) => Err(e),
        };
        assert(call_ensures(A::send_tx, (&adapter, sealed), r));
        r
    }

    /// The chains that have an adapter, each once.
    pub fn supported_chains(&self) -> (r: Vec<ChainId>)
        ensures
            r@.no_duplicates(),
            forall|chain: ChainId| r@.contains(chain) <==> self@.contains_key(chain),
    {
        let mut chains: Vec<ChainId> = Vec::new();
        if self.ethereum.is_some() {
            chains.push(ChainId::Ethereum);
        }
        let ghost first = chains@;
        if self.solana.is_some() {
            chains.push(ChainId::Solana);
        }
        let ghost second = chains@;
        if self.bitcoin.is_some() {
            chains.push(ChainId::Bitcoin);
        }
        let ghost third = chains@;
        if self.sui.is_some() {
            chains.push(ChainId::Sui);
        }
        proof {
            let all = chains@;
            assert forall|c: ChainId| #[trigger] all.contains(c) == self@.dom().contains(c) by {
                lemma_contains_after_push(Seq::empty(), first, ChainId::Ethereum, c);
                lemma_contains_after_push(first, second, ChainId::Solana, c);
                lemma_contains_after_push(second, third, ChainId::Bitcoin, c);
                lemma_contains_after_push(third, all, ChainId::Sui, c);
                assert(!Seq::<ChainId>::empty().contains(c));
            }
        }
        chains
    }
}

/// The adapter registered last for a chain is the one that is found for it,
/// and registering for one chain changes nothing for any other.
pub proof fn lemma_last_registration_wins<A>(
    adapters: Map<ChainId, A>,
    chain: ChainId,
    earlier: A,
    later: A,
    other: ChainId,
)
    ensures
        found(adapters.insert(chain, later), chain) == Ok::<A, WalletError>(later),
        found(adapters.insert(chain, earlier).insert(chain, later), chain) == Ok::<A, WalletError>(
            later,
        ),
        other != chain ==> found(adapters.insert(chain, later), other) == found(adapters, other),
{
}

/// A chain without a registered adapter is answered with `AdapterNotFound`:
/// by `get_adapter`, and so by every operation of the runtime, each of which
/// returns the error of the lookup before it does anything else.
pub proof fn lemma_unregistered_chain_is_not_found<A>(adapters: Map<ChainId, A>, chain: ChainId)
    requires
        !adapters.contains_key(chain),
    ensures
        found(adapters, chain) == Err::<A, WalletError>(WalletError::AdapterNotFound(chain)),
        found(Map::<ChainId, A>::empty(), chain) == Err::<A, WalletError>(
            WalletError::AdapterNotFound(chain),
        ),
{
}

/// Where building fails, the pipeline returns the error of building.
pub proof fn lemma_build_error_ends_the_pipeline<A: ChainAdapter<K>, K: Key + ?Sized>(
    runtime: ChainRuntime<A, K>,
    req: TxRequest,
    key: &K,
    e: WalletError,
    r: Result<TxHash, WalletError>,
)
    requires
        runtime@.contains_key(req.from.chain_id),
        call_ensures(ChainRuntime::<A, K>::send_transaction, (&runtime, req, key), r),
        forall|built: Result<UnsignedTx, WalletError>| #[trigger]
            call_ensures(A::build_tx, (&runtime@[req.from.chain_id], req), built) ==> built
                == Err::<UnsignedTx, WalletError>(e),
    ensures
        r == Err::<TxHash, WalletError>(e),
{
}

/// Where building succeeds and signing fails, the pipeline returns the
/// error of signing as it is: the same error, not one made of it.
pub proof fn lemma_sign_error_ends_the_pipeline<A: ChainAdapter<K>, K: Key + ?Sized>(
    runtime: ChainRuntime<A, K>,
    req: TxRequest,
    key: &K,
    unsigned: UnsignedTx,
    e: WalletError,
    r: Result<TxHash, WalletError>,
)
    requires
        runtime@.contains_key(req.from.chain_id),
        call_ensures(ChainRuntime::<A, K>::send_transaction, (&runtime, req, key), r),
        forall|built: Result<UnsignedTx, WalletError>| #[trigger]
            call_ensures(A::build_tx, (&runtime@[req.from.chain_id], req), built) ==> built
                == Ok::<UnsignedTx, WalletError>(unsigned),
        forall|signed: Result<SignedTx, WalletError>| #[trigger]
            call_ensures(A::sign_tx, (&runtime@[req.from.chain_id], unsigned, key), signed)
                ==> signed == Err::<SignedTx, WalletError>(e),
    ensures
        r == Err::<TxHash, WalletError>(e),
{
}

/// Where building and signing succeed, the pipeline returns what sending
/// the signed transaction returns, be it a hash or an error.
pub proof fn lemma_pipeline_returns_what_sending_returns<A: ChainAdapter<K>, K: Key + ?Sized>(
    runtime: ChainRuntime<A, K>,
    req: TxRequest,
    key: &K,
    unsigned: UnsignedTx,
    ready: SignedTx,
    r: Result<TxHash, WalletError>,
)
    requires
        runtime@.contains_key(req.from.chain_id),
        call_ensures(ChainRuntime::<A, K>::send_transaction, (&runtime, req, key), r),
        forall|built: Result<UnsignedTx, WalletError>| #[trigger]
            call_ensures(A::build_tx, (&runtime@[req.from.chain_id], req), built) ==> built
                == Ok::<UnsignedTx, WalletError>(unsigned),
        forall|signed: Result<SignedTx, WalletError>| #[trigger]
            call_ensures(A::sign_tx, (&runtime@[req.from.chain_id], unsigned, key), signed)
                ==> signed == Ok::<SignedTx, WalletError>(ready),
    ensures
        call_ensures(A::send_tx, (&runtime@[req.from.chain_id], ready), r),
        r matches Ok(hash) ==> hash.chain_id == req.from.chain_id,
{
}

/// A sequence that is `before`, or `before` with `item` at its end, holds
/// what `before` holds and, in the second case, `item`.
proof fn lemma_contains_after_push(
    before: Seq<ChainId>,
    after: Seq<ChainId>,
    item: ChainId,
    c: ChainId,
)
    requires
        after == before || after == before.push(item),
    ensures
        after == before ==> after.contains(c) == before.contains(c),
        after == before.push(item) ==> after.contains(c) == (before.contains(c) || c == item),
{
    if after == before.push(item) {
        if before.contains(c) {
            let i = choose|i: int| 0 <= i < before.len() && before[i] == c;
            assert(after[i] == c);
        }
        if c == item {
            assert(after[before.len() as int] == c);
        }
    }
}

impl<A: ChainAdapter<K>, K: Key + ?Sized> Default for ChainRuntime<A, K> {
    fn default() -> (r: Self)
        ensures
            r@ == Map::<ChainId, A>::empty(),
    {
        Self::new()
    }
}

} // verus!

use std::sync::atomic::{AtomicUsize, Ordering};
use std::sync::Arc;
use wallet::chain::btc::adapter::BitcoinAdapter;
use wallet::chain::sol::adapter::SolanaAdapter;
use wallet::chain::sui::adapter::SuiAdapter;
use wallet::chain::ChainAdapter;
use wallet::error::WalletError;
use wallet::runtime::chain_runtime::ChainRuntime;
use wallet::types::{
    Address, Balance, ChainId, Key, SignedTx, TxHash, TxRequest, TxStatus, TxStatusInfo,
    UnsignedTx,
};

/// An adapter that answers from memory and counts what it is asked.
struct MockAdapter {
    chain: ChainId,
    label: &'static str,
    sign_error: Option<WalletError>,
    builds: AtomicUsize,
    signs: AtomicUsize,
    sends: AtomicUsize,
}

impl MockAdapter {
    fn new(chain: ChainId, label: &'static str) -> Self {
        MockAdapter {
            chain,
            label,
            sign_error: None,
            builds: AtomicUsize::new(0),
            signs: AtomicUsize::new(0),
            sends: AtomicUsize::new(0),
        }
    }

    fn failing_to_sign(chain: ChainId, error: WalletError) -> Self {
        let mut adapter = MockAdapter::new(chain, "failing");
        adapter.sign_error = Some(error);
        adapter
    }
}

impl ChainAdapter for MockAdapter {
    fn chain_id(&self) -> ChainId {
        self.chain
    }

    fn get_balance(&self, address: &Address) -> Result<Balance, WalletError> {
        if address.chain_id != self.chain {
            return Err(WalletError::ChainMismatch);
        }
        Ok(Balance::new(self.label.to_string(), 0, "MOCK".to_string()))
    }

    fn build_tx(&self, req: TxRequest) -> Result<UnsignedTx, WalletError> {
        self.builds.fetch_add(1, Ordering::SeqCst);
        if req.from.chain_id != self.chain || req.to.chain_id != self.chain {
            return Err(WalletError::ChainMismatch);
        }
        Ok(UnsignedTx {
            chain_id: self.chain,
            raw_data: req.amount.into_bytes(),
            tx_type: "mock".to_string(),
            metadata: None,
        })
    }

    fn sign_tx(&self, tx: UnsignedTx, key: &dyn Key) -> Result<SignedTx, WalletError> {
        self.signs.fetch_add(1, Ordering::SeqCst);
        if tx.chain_id != self.chain {
            return Err(WalletError::ChainMismatch);
        }
        if let Some(error) = &self.sign_error {
            return Err(error.clone());
        }
        let signature = key.sign(&tx.raw_data)?;
        Ok(SignedTx {
            chain_id: self.chain,
            raw_data: tx.raw_data,
            signature,
            tx_type: tx.tx_type,
        })
    }

    fn send_tx(&self, tx: SignedTx) -> Result<TxHash, WalletError> {
        self.sends.fetch_add(1, Ordering::SeqCst);
        if tx.chain_id != self.chain {
            return Err(WalletError::ChainMismatch);
        }
        Ok(TxHash::new(self.chain, format!("{}-{}", self.label, tx.signature.len())))
    }

    fn watch_tx(&self, hash: TxHash) -> Result<TxStatusInfo, WalletError> {
        if hash.chain_id != self.chain {
            return Err(WalletError::ChainMismatch);
        }
        Ok(TxStatusInfo {
            hash,
            status: TxStatus::Pending,
            block_number: None,
            confirmations: None,
            error: None,
        })
    }
}

struct MockKey {
    outcome: Result<Vec<u8>, WalletError>,
}

impl Key for MockKey {
    fn address(&self, chain_id: ChainId) -> Result<Address, WalletError> {
        Ok(Address::from_str(chain_id, "mock-key"))
    }

    fn sign(&self, _data: &[u8]) -> Result<Vec<u8>, WalletError> {
        self.outcome.clone()
    }

    fn supported_chains(&self) -> Vec<ChainId> {
        vec![ChainId::Ethereum, ChainId::Solana, ChainId::Bitcoin, ChainId::Sui]
    }
}

fn good_key() -> MockKey {
    MockKey { outcome: Ok(vec![0xaa, 0xbb]) }
}

fn request(chain: ChainId) -> TxRequest {
    TxRequest {
        from: Address::from_str(chain, "alice"),
        to: Address::from_str(chain, "bob"),
        amount: "10".to_string(),
        data: None,
        gas_limit: None,
        gas_price: None,
    }
}

fn unsigned(chain: ChainId) -> UnsignedTx {
    UnsignedTx { chain_id: chain, raw_data: vec![1], tx_type: "mock".to_string(), metadata: None }
}

fn signed(chain: ChainId) -> SignedTx {
    SignedTx { chain_id: chain, raw_data: vec![1], signature: vec![2], tx_type: "mock".to_string() }
}

type Shared = Arc<dyn ChainAdapter>;

#[test]
fn a_runtime_holds_shared_adapters_unless_told_otherwise() {
    let mut runtime: ChainRuntime = ChainRuntime::new();
    runtime.register_adapter(Arc::new(MockAdapter::new(ChainId::Sui, "sui")));
    runtime.register_adapter(Arc::new(SolanaAdapter::new("rpc".to_string())));
    let mut chains = runtime.supported_chains();
    chains.sort_by_key(|c| c.as_str());
    assert_eq!(chains, vec![ChainId::Solana, ChainId::Sui]);
}

#[test]
fn a_new_runtime_supports_no_chain() {
    let runtime: ChainRuntime<Shared> = ChainRuntime::new();
    assert!(runtime.supported_chains().is_empty());
    let by_default: ChainRuntime<Shared> = ChainRuntime::default();
    assert!(by_default.supported_chains().is_empty());
}

#[test]
fn registered_adapter_is_found_under_its_chain() {
    let mut runtime: ChainRuntime<Shared> = ChainRuntime::new();
    runtime.register_adapter(Arc::new(MockAdapter::new(ChainId::Ethereum, "eth-node")));
    runtime.register_adapter(Arc::new(MockAdapter::new(ChainId::Solana, "sol-node")));
    assert_eq!(runtime.get_adapter(ChainId::Ethereum).unwrap().chain_id(), ChainId::Ethereum);
    assert_eq!(runtime.get_adapter(ChainId::Solana).unwrap().chain_id(), ChainId::Solana);
    let balance = runtime.get_balance(&Address::from_str(ChainId::Solana, "x")).unwrap();
    assert_eq!(balance.amount, "sol-node");
}

#[test]
fn registering_again_replaces_the_adapter() {
    let mut runtime: ChainRuntime<Shared> = ChainRuntime::new();
    let first: Shared = Arc::new(MockAdapter::new(ChainId::Ethereum, "first"));
    let second: Shared = Arc::new(MockAdapter::new(ChainId::Ethereum, "second"));
    runtime.register_adapter(first.clone());
    assert!(Arc::ptr_eq(runtime.get_adapter(ChainId::Ethereum).unwrap(), &first));
    runtime.register_adapter(second.clone());
    assert!(Arc::ptr_eq(runtime.get_adapter(ChainId::Ethereum).unwrap(), &second));
    let balance = runtime.get_balance(&Address::from_str(ChainId::Ethereum, "x")).unwrap();
    assert_eq!(balance.amount, "second");
    assert_eq!(runtime.supported_chains(), vec![ChainId::Ethereum]);
}

#[test]
fn registering_one_chain_leaves_the_others() {
    let mut runtime: ChainRuntime<Shared> = ChainRuntime::new();
    let sui: Shared = Arc::new(MockAdapter::new(ChainId::Sui, "sui"));
    runtime.register_adapter(sui.clone());
    runtime.register_adapter(Arc::new(MockAdapter::new(ChainId::Bitcoin, "btc")));
    assert!(Arc::ptr_eq(runtime.get_adapter(ChainId::Sui).unwrap(), &sui));
    assert!(matches!(
        runtime.get_adapter(ChainId::Ethereum),
        Err(WalletError::AdapterNotFound(ChainId::Ethereum))
    ));
}

#[test]
fn every_operation_on_an_unregistered_chain_is_adapter_not_found() {
    let mut runtime: ChainRuntime<Shared> = ChainRuntime::new();
    runtime.register_adapter(Arc::new(MockAdapter::new(ChainId::Ethereum, "eth")));
    let missing = ChainId::Solana;
    let expected = WalletError::AdapterNotFound(missing);
    assert!(matches!(runtime.get_adapter(missing), Err(WalletError::AdapterNotFound(ChainId::Solana))));
    assert_eq!(
        runtime.get_balance(&Address::from_str(missing, "x")).unwrap_err(),
        expected
    );
    assert_eq!(runtime.build_tx(request(missing)).unwrap_err(), expected);
    assert_eq!(runtime.sign_tx(unsigned(missing), &good_key()).unwrap_err(), expected);
    assert_eq!(runtime.send_tx(signed(missing)).unwrap_err(), expected);
    assert_eq!(
        runtime.watch_tx(TxHash::new(missing, "h".to_string())).unwrap_err(),
        expected
    );
    assert_eq!(runtime.send_transaction(request(missing), &good_key()).unwrap_err(), expected);
}

#[test]
fn supported_chains_lists_each_registered_chain_once() {
    let mut runtime: ChainRuntime<Shared> = ChainRuntime::new();
    runtime.register_adapter(Arc::new(MockAdapter::new(ChainId::Sui, "a")));
    runtime.register_adapter(Arc::new(MockAdapter::new(ChainId::Ethereum, "b")));
    runtime.register_adapter(Arc::new(MockAdapter::new(ChainId::Sui, "c")));
    let mut chains = runtime.supported_chains();
    chains.sort_by_key(|c| c.as_str());
    assert_eq!(chains, vec![ChainId::Ethereum, ChainId::Sui]);
}

#[test]
fn operations_go_to_the_adapter_of_their_value() {
    let mut runtime: ChainRuntime<Shared> = ChainRuntime::new();
    runtime.register_adapter(Arc::new(MockAdapter::new(ChainId::Ethereum, "eth")));
    runtime.register_adapter(Arc::new(MockAdapter::new(ChainId::Solana, "sol")));
    let built = runtime.build_tx(request(ChainId::Solana)).unwrap();
    assert_eq!(built.chain_id, ChainId::Solana);
    assert_eq!(built.raw_data, b"10".to_vec());
    let sealed = runtime.sign_tx(built, &good_key()).unwrap();
    assert_eq!(sealed.chain_id, ChainId::Solana);
    assert_eq!(sealed.signature, vec![0xaa, 0xbb]);
    let hash = runtime.send_tx(sealed).unwrap();
    assert_eq!(hash, TxHash::new(ChainId::Solana, "sol-2".to_string()));
    let info = runtime.watch_tx(hash.clone()).unwrap();
    assert_eq!(info.hash, hash);
    assert_eq!(info.status, TxStatus::Pending);
}

#[test]
fn adapter_errors_pass_through_unchanged() {
    let mut runtime: ChainRuntime<Shared> = ChainRuntime::new();
    runtime.register_adapter(Arc::new(MockAdapter::new(ChainId::Ethereum, "eth")));
    let mut cross = request(ChainId::Ethereum);
    cross.to = Address::from_str(ChainId::Solana, "bob");
    assert_eq!(runtime.build_tx(cross).unwrap_err(), WalletError::ChainMismatch);
    let failing = MockKey { outcome: Err(WalletError::SigningFailed) };
    assert_eq!(
        runtime.sign_tx(unsigned(ChainId::Ethereum), &failing).unwrap_err(),
        WalletError::SigningFailed
    );
}

#[test]
fn pipeline_yields_a_hash_on_the_chain_of_the_sender() {
    for chain in [ChainId::Ethereum, ChainId::Solana, ChainId::Bitcoin, ChainId::Sui] {
        let adapter = Arc::new(MockAdapter::new(chain, "node"));
        let mut runtime: ChainRuntime<Shared> = ChainRuntime::new();
        runtime.register_adapter(adapter.clone());
        let req = request(chain);
        let sender_chain = req.from.chain_id;
        let hash = runtime.send_transaction(req, &good_key()).unwrap();
        assert_eq!(hash.chain_id, sender_chain);
        assert_eq!(hash.value, "node-2");
        assert_eq!(adapter.builds.load(Ordering::SeqCst), 1);
        assert_eq!(adapter.signs.load(Ordering::SeqCst), 1);
        assert_eq!(adapter.sends.load(Ordering::SeqCst), 1);
    }
}

#[test]
fn step_by_step_round_trip_keeps_the_chain() {
    let adapter = MockAdapter::new(ChainId::Sui, "node");
    let req = request(ChainId::Sui);
    let sender_chain = req.from.chain_id;
    let built = adapter.build_tx(req).unwrap();
    let sealed = adapter.sign_tx(built, &good_key()).unwrap();
    let hash = adapter.send_tx(sealed).unwrap();
    assert_eq!(hash.chain_id, sender_chain);
}

#[test]
fn pipeline_stops_at_a_failing_build() {
    let adapter = Arc::new(MockAdapter::new(ChainId::Ethereum, "node"));
    let mut runtime: ChainRuntime<Shared> = ChainRuntime::new();
    runtime.register_adapter(adapter.clone());
    let mut cross = request(ChainId::Ethereum);
    cross.to = Address::from_str(ChainId::Bitcoin, "bob");
    assert_eq!(
        runtime.send_transaction(cross, &good_key()).unwrap_err(),
        WalletError::ChainMismatch
    );
    assert_eq!(adapter.builds.load(Ordering::SeqCst), 1);
    assert_eq!(adapter.signs.load(Ordering::SeqCst), 0);
    assert_eq!(adapter.sends.load(Ordering::SeqCst), 0);
}

#[test]
fn pipeline_returns_the_sign_error_and_never_sends() {
    let error = WalletError::NetworkError("signer unreachable".to_string());
    let adapter = Arc::new(MockAdapter::failing_to_sign(ChainId::Ethereum, error.clone()));
    let mut runtime: ChainRuntime<Shared> = ChainRuntime::new();
    runtime.register_adapter(adapter.clone());
    let outcome = runtime.send_transaction(request(ChainId::Ethereum), &good_key());
    assert_eq!(outcome.unwrap_err(), error);
    assert_eq!(adapter.builds.load(Ordering::SeqCst), 1);
    assert_eq!(adapter.signs.load(Ordering::SeqCst), 1);
    assert_eq!(adapter.sends.load(Ordering::SeqCst), 0);
}

#[test]
fn pipeline_returns_the_error_of_the_key_and_never_sends() {
    let adapter = Arc::new(MockAdapter::new(ChainId::Ethereum, "node"));
    let mut runtime: ChainRuntime<Shared> = ChainRuntime::new();
    runtime.register_adapter(adapter.clone());
    let key = MockKey { outcome: Err(WalletError::SigningFailed) };
    let outcome = runtime.send_transaction(request(ChainId::Ethereum), &key);
    assert_eq!(outcome.unwrap_err(), WalletError::SigningFailed);
    assert_eq!(adapter.sends.load(Ordering::SeqCst), 0);
}

#[test]
fn stub_adapter_for_bitcoin_reports_not_implemented() {
    let mut runtime: ChainRuntime<Shared> = ChainRuntime::new();
    runtime.register_adapter(Arc::new(BitcoinAdapter::new("http://localhost:8332".to_string())));
    let error = runtime.get_balance(&Address::from_str(ChainId::Bitcoin, "1xyz")).unwrap_err();
    assert_eq!(error, WalletError::NotImplemented(ChainId::Bitcoin));
    assert!(error.message().contains("btc"));
}

#[test]
fn stub_adapters_fail_every_operation() {
    let bitcoin = BitcoinAdapter::new("rpc".to_string());
    assert_eq!(bitcoin.chain_id(), ChainId::Bitcoin);
    let expected = WalletError::NotImplemented(ChainId::Bitcoin);
    assert_eq!(
        bitcoin.get_balance(&Address::from_str(ChainId::Bitcoin, "1xyz")).unwrap_err(),
        expected
    );
    assert_eq!(bitcoin.build_tx(request(ChainId::Bitcoin)).unwrap_err(), expected);
    assert_eq!(bitcoin.sign_tx(unsigned(ChainId::Bitcoin), &good_key()).unwrap_err(), expected);
    assert_eq!(bitcoin.send_tx(signed(ChainId::Bitcoin)).unwrap_err(), expected);
    assert_eq!(
        bitcoin.watch_tx(TxHash::new(ChainId::Bitcoin, "h".to_string())).unwrap_err(),
        expected
    );

    let solana = SolanaAdapter::new("rpc".to_string());
    assert_eq!(solana.chain_id(), ChainId::Solana);
    assert_eq!(
        solana.get_balance(&Address::from_str(ChainId::Solana, "x")).unwrap_err(),
        WalletError::NotImplemented(ChainId::Solana)
    );
    assert_eq!(
        solana.send_tx(signed(ChainId::Solana)).unwrap_err(),
        WalletError::NotImplemented(ChainId::Solana)
    );

    let sui = SuiAdapter::new("rpc".to_string());
    assert_eq!(sui.chain_id(), ChainId::Sui);
    assert_eq!(
        sui.build_tx(request(ChainId::Sui)).unwrap_err(),
        WalletError::NotImplemented(ChainId::Sui)
    );
    assert_eq!(
        sui.watch_tx(TxHash::new(ChainId::Sui, "h".to_string())).unwrap_err(),
        WalletError::NotImplemented(ChainId::Sui)
    );
}

#[test]
fn stub_adapter_never_asks_the_key() {
    struct Counting(AtomicUsize);
    impl Key for Counting {
        fn address(&self, chain_id: ChainId) -> Result<Address, WalletError> {
            Ok(Address::from_str(chain_id, "k"))
        }
        fn sign(&self, _data: &[u8]) -> Result<Vec<u8>, WalletError> {
            self.0.fetch_add(1, Ordering::SeqCst);
            Ok(vec![])
        }
        fn supported_chains(&self) -> Vec<ChainId> {
            vec![ChainId::Sui]
        }
    }
    let key = Counting(AtomicUsize::new(0));
    let sui = SuiAdapter::new("rpc".to_string());
    assert!(sui.sign_tx(unsigned(ChainId::Sui), &key).is_err());
    assert_eq!(key.0.load(Ordering::SeqCst), 0);
}

#[test]
fn runtime_can_hold_adapters_by_value() {
    let mut runtime: ChainRuntime<BitcoinAdapter> = ChainRuntime::new();
    runtime.register_adapter(BitcoinAdapter::new("rpc".to_string()));
    assert_eq!(runtime.supported_chains(), vec![ChainId::Bitcoin]);
    assert_eq!(
        runtime.send_transaction(request(ChainId::Bitcoin), &good_key()).unwrap_err(),
        WalletError::NotImplemented(ChainId::Bitcoin)
    );
}

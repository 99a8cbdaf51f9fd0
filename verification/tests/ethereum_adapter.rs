use std::sync::atomic::{AtomicUsize, Ordering};
use std::sync::Arc;
use wallet::chain::eth::adapter::{EthereumAdapter, EthereumNode};
use wallet::chain::eth::primitives::{EthAddress, EthHash, Receipt, Wei};
use wallet::chain::ChainAdapter;
use wallet::error::WalletError;
use wallet::model::keyring::Keyring;
use wallet::runtime::chain_runtime::ChainRuntime;
use wallet::types::{Address, ChainId, Key, TxHash, TxRequest, TxStatus, UnsignedTx};

const HASH: &str = "0x88df016429689c079f3b2f6ad39fa052532c56795b733da78a91ebe6a713944b";
const KEY: &str = "0000000000000000000000000000000000000000000000000000000000000001";
const ACCOUNT: &str = "0x7e5f4552091a69125d5dfcb7b8c2659029395bdf";
const OTHER: &str = "0x2b5ad5c4795c026514f8317c7a215e218dccd6cf";

/// A node that answers from memory and counts the questions it gets.
struct FakeNode {
    balance: Result<Wei, String>,
    receipt: Result<Option<Receipt>, String>,
    known: Result<bool, String>,
    questions: AtomicUsize,
}

impl FakeNode {
    fn new() -> Self {
        FakeNode {
            balance: Ok(Wei::from_u64(2_500_000_000_000_000_000)),
            receipt: Ok(None),
            known: Ok(false),
            questions: AtomicUsize::new(0),
        }
    }

    fn balance_of(&self, _account: EthAddress) -> Result<Wei, String> {
        self.questions.fetch_add(1, Ordering::SeqCst);
        self.balance.clone()
    }

    fn receipt_of(&self, _hash: EthHash) -> Result<Option<Receipt>, String> {
        self.questions.fetch_add(1, Ordering::SeqCst);
        self.receipt.clone()
    }

    fn is_known(&self, _hash: EthHash) -> Result<bool, String> {
        self.questions.fetch_add(1, Ordering::SeqCst);
        self.known.clone()
    }

    fn asked(&self) -> usize {
        self.questions.load(Ordering::SeqCst)
    }
}

impl EthereumNode for FakeNode {
    fn balance(&self, account: EthAddress) -> Result<Wei, String> {
        self.balance_of(account)
    }

    fn receipt(&self, hash: EthHash) -> Result<Option<Receipt>, String> {
        self.receipt_of(hash)
    }

    fn knows(&self, hash: EthHash) -> Result<bool, String> {
        self.is_known(hash)
    }
}

type NodeAdapter = EthereumAdapter<Arc<FakeNode>>;

fn runtime_with(node: FakeNode) -> (ChainRuntime<Arc<dyn ChainAdapter>>, Arc<FakeNode>) {
    let node = Arc::new(node);
    let mut runtime: ChainRuntime<Arc<dyn ChainAdapter>> = ChainRuntime::new();
    runtime.register_adapter(Arc::new(NodeAdapter::new(node.clone())));
    (runtime, node)
}

fn hash() -> TxHash {
    TxHash::new(ChainId::Ethereum, HASH.to_string())
}

#[test]
fn adapter_serves_ethereum() {
    let adapter = NodeAdapter::new(Arc::new(FakeNode::new()));
    assert_eq!(adapter.chain_id(), ChainId::Ethereum);
    assert_eq!(adapter.node.asked(), 0);
}

#[test]
fn balance_comes_from_the_node_in_ether() {
    let (runtime, node) = runtime_with(FakeNode::new());
    let balance = runtime.get_balance(&Address::from_str(ChainId::Ethereum, ACCOUNT)).unwrap();
    assert_eq!(balance.amount, "2.500000000000000000");
    assert_eq!(balance.decimals, 18);
    assert_eq!(balance.symbol, "ETH");
    assert_eq!(node.asked(), 1);
}

#[test]
fn address_of_another_chain_is_a_mismatch_before_the_node_is_asked() {
    let node = Arc::new(FakeNode::new());
    let adapter = NodeAdapter::new(node.clone());
    let tagged_solana = Address::from_str(ChainId::Solana, ACCOUNT);
    assert_eq!(adapter.get_balance(&tagged_solana).unwrap_err(), WalletError::ChainMismatch);
    assert_eq!(node.asked(), 0);
}

#[test]
fn malformed_address_never_reaches_the_node() {
    let (runtime, node) = runtime_with(FakeNode::new());
    let outcome = runtime.get_balance(&Address::from_str(ChainId::Ethereum, "0x12"));
    assert_eq!(outcome.unwrap_err(), WalletError::InvalidAddress);
    assert_eq!(node.asked(), 0);
}

#[test]
fn node_failure_is_a_network_error_not_a_balance() {
    let mut node = FakeNode::new();
    node.balance = Err("503 from upstream".to_string());
    let (runtime, _) = runtime_with(node);
    let outcome = runtime.get_balance(&Address::from_str(ChainId::Ethereum, ACCOUNT));
    assert_eq!(outcome.unwrap_err(), WalletError::NetworkError("503 from upstream".to_string()));
}

#[test]
fn transaction_with_receipt_is_confirmed_after_one_question() {
    let mut node = FakeNode::new();
    node.receipt = Ok(Some(Receipt { block_number: 19_000_000 }));
    let (runtime, node) = runtime_with(node);
    let info = runtime.watch_tx(hash()).unwrap();
    assert_eq!(info.status, TxStatus::Confirmed);
    assert_eq!(info.block_number, Some(19_000_000));
    assert_eq!(info.confirmations, Some(1));
    assert_eq!(info.hash, hash());
    assert_eq!(node.asked(), 1);
}

#[test]
fn receipt_without_block_is_reported_as_a_fault_not_as_confirmed() {
    let mut node = FakeNode::new();
    node.receipt = Receipt::of_node(Some(None));
    let (runtime, node) = runtime_with(node);
    assert_eq!(
        runtime.watch_tx(hash()).unwrap_err(),
        WalletError::NetworkError("receipt without block number".to_string())
    );
    assert_eq!(node.asked(), 1);
}

#[test]
fn transaction_without_receipt_is_pending_or_not_found() {
    let mut in_flight = FakeNode::new();
    in_flight.known = Ok(true);
    let (runtime, node) = runtime_with(in_flight);
    assert_eq!(runtime.watch_tx(hash()).unwrap().status, TxStatus::Pending);
    assert_eq!(node.asked(), 2);

    let (runtime, node) = runtime_with(FakeNode::new());
    assert_eq!(runtime.watch_tx(hash()).unwrap().status, TxStatus::NotFound);
    assert_eq!(node.asked(), 2);
}

#[test]
fn network_failure_while_watching_is_not_a_not_found() {
    let mut failing_first = FakeNode::new();
    failing_first.receipt = Err("timeout".to_string());
    let (runtime, node) = runtime_with(failing_first);
    assert_eq!(
        runtime.watch_tx(hash()).unwrap_err(),
        WalletError::NetworkError("timeout".to_string())
    );
    assert_eq!(node.asked(), 1);

    let mut failing_second = FakeNode::new();
    failing_second.known = Err("reset".to_string());
    let (runtime, _) = runtime_with(failing_second);
    assert_eq!(
        runtime.watch_tx(hash()).unwrap_err(),
        WalletError::NetworkError("reset".to_string())
    );
}

#[test]
fn watching_twice_without_a_change_gives_the_same_status() {
    let mut node = FakeNode::new();
    node.receipt = Ok(Some(Receipt { block_number: 7 }));
    let (runtime, _) = runtime_with(node);
    let first = runtime.watch_tx(hash()).unwrap();
    let second = runtime.watch_tx(hash()).unwrap();
    assert_eq!(first.status, second.status);
    assert_eq!(first.block_number, second.block_number);
    assert_eq!(first.confirmations, second.confirmations);
    assert_eq!(first.hash, second.hash);
    assert_eq!(first.error, second.error);
}

#[test]
fn hash_of_another_chain_is_a_mismatch_before_the_node_is_asked() {
    let node = Arc::new(FakeNode::new());
    let adapter = NodeAdapter::new(node.clone());
    let foreign = TxHash::new(ChainId::Sui, HASH.to_string());
    assert_eq!(adapter.watch_tx(foreign).unwrap_err(), WalletError::ChainMismatch);
    assert_eq!(node.asked(), 0);
}

#[test]
fn sending_with_a_stored_key_ends_at_the_broadcast() {
    let (runtime, node) = runtime_with(FakeNode::new());
    let mut ring = Keyring::new();
    let sender = ring.add_from_private_key(KEY).unwrap();
    assert_eq!(sender, Address::from_str(ChainId::Ethereum, ACCOUNT));
    let key = ring.get_by_address(&sender).unwrap();
    let req = TxRequest {
        from: sender,
        to: Address::from_str(ChainId::Ethereum, OTHER),
        amount: "0.1".to_string(),
        data: None,
        gas_limit: Some(21_000),
        gas_price: None,
    };
    // Building and signing succeed; the broadcast is what cannot be completed.
    let outcome = runtime.send_transaction(req, &key);
    assert_eq!(outcome.unwrap_err(), WalletError::BroadcastFailed);
    assert_eq!(node.asked(), 0);
}

#[test]
fn account_of_a_stored_key_can_be_asked_about() {
    let (runtime, node) = runtime_with(FakeNode::new());
    let mut ring = Keyring::new();
    let account = ring.add_from_private_key(KEY).unwrap();
    assert!(runtime.get_balance(&account).is_ok());
    assert_eq!(node.asked(), 1);
}

/// A key bound to the chains it is made with, which counts how often it signs.
struct ForeignKey {
    chains: Vec<ChainId>,
    signed: AtomicUsize,
}

impl Key for ForeignKey {
    fn address(&self, chain_id: ChainId) -> Result<Address, WalletError> {
        if self.chains.contains(&chain_id) {
            Ok(Address::from_str(chain_id, "foreign"))
        } else {
            Err(WalletError::ChainMismatch)
        }
    }

    fn sign(&self, data: &[u8]) -> Result<Vec<u8>, WalletError> {
        self.signed.fetch_add(1, Ordering::SeqCst);
        Ok(data.to_vec())
    }

    fn supported_chains(&self) -> Vec<ChainId> {
        self.chains.clone()
    }
}

fn ethereum_payload() -> UnsignedTx {
    UnsignedTx {
        chain_id: ChainId::Ethereum,
        raw_data: vec![1, 2, 3],
        tx_type: "ethereum".to_string(),
        metadata: None,
    }
}

#[test]
fn a_key_of_another_chain_is_turned_away_through_the_runtime() {
    let (runtime, node) = runtime_with(FakeNode::new());
    let key = ForeignKey { chains: vec![ChainId::Solana, ChainId::Sui], signed: AtomicUsize::new(0) };
    assert_eq!(
        runtime.sign_tx(ethereum_payload(), &key).unwrap_err(),
        WalletError::ChainMismatch
    );
    assert_eq!(key.signed.load(Ordering::SeqCst), 0);
    assert_eq!(node.asked(), 0);
}

#[test]
fn a_key_of_another_chain_is_turned_away_at_the_adapter() {
    let adapter = NodeAdapter::new(Arc::new(FakeNode::new()));
    let key = ForeignKey { chains: vec![ChainId::Bitcoin], signed: AtomicUsize::new(0) };
    assert_eq!(
        adapter.sign_tx(ethereum_payload(), &key).unwrap_err(),
        WalletError::ChainMismatch
    );
    assert_eq!(key.signed.load(Ordering::SeqCst), 0);
}

#[test]
fn a_key_of_ethereum_signs_through_the_runtime() {
    let (runtime, _) = runtime_with(FakeNode::new());
    let key = ForeignKey {
        chains: vec![ChainId::Bitcoin, ChainId::Ethereum],
        signed: AtomicUsize::new(0),
    };
    let signed = runtime.sign_tx(ethereum_payload(), &key).unwrap();
    assert_eq!(signed.chain_id, ChainId::Ethereum);
    assert_eq!(signed.signature, vec![1, 2, 3]);
    assert_eq!(key.signed.load(Ordering::SeqCst), 1);
}

#[test]
fn a_pipeline_with_a_key_of_another_chain_ends_in_the_sign_error() {
    let (runtime, _) = runtime_with(FakeNode::new());
    let key = ForeignKey { chains: vec![ChainId::Solana], signed: AtomicUsize::new(0) };
    let req = TxRequest {
        from: Address::from_str(ChainId::Ethereum, ACCOUNT),
        to: Address::from_str(ChainId::Ethereum, OTHER),
        amount: "1".to_string(),
        data: None,
        gas_limit: None,
        gas_price: None,
    };
    assert_eq!(runtime.send_transaction(req, &key).unwrap_err(), WalletError::ChainMismatch);
    assert_eq!(key.signed.load(Ordering::SeqCst), 0);
}

//! The values that runtime and adapters exchange. They name no chain's own
//! types: each carries the chain it belongs to and otherwise text and bytes.
use crate::error::WalletError;
use crate::text::{ascii_lowercase, eq_ignore_ascii_case};
use vstd::prelude::*;

pub mod key;

verus! {

/// Identifier of a supported blockchain; the dispatch key of the runtime.
#[derive(Debug, Clone, Copy, PartialEq, Eq, Hash, Structural)]
pub enum ChainId {
    Ethereum,
    Solana,
    Bitcoin,
    Sui,
}

impl ChainId {
    /// The short lower-case code of the chain.
    pub open spec fn code(self) -> Seq<char> {
        match self {
            ChainId::Ethereum => "eth"@,
            ChainId::Solana => "sol"@,
            ChainId::Bitcoin => "btc"@,
            ChainId::Sui => "sui"@,
        }
    }

    /// The chain that `text` names: its code or its long name, in any mix of
    /// upper and lower case.
    pub open spec fn named_by(text: Seq<char>) -> Option<ChainId> {
        let t = ascii_lowercase(text);
        if t == "eth"@ || t == "ethereum"@ {
            Some(ChainId::Ethereum)
        } else if t == "sol"@ || t == "solana"@ {
            Some(ChainId::Solana)
        } else if t == "btc"@ || t == "bitcoin"@ {
            Some(ChainId::Bitcoin)
        } else if t == "sui"@ {
            Some(ChainId::Sui)
        } else {
            None
        }
    }

    /// Parses a chain name, ignoring case.
    pub fn from_str(s: &str) -> (r: Result<ChainId, WalletError>)
        ensures
            match ChainId::named_by(s@) {
                Some(c) => r == Ok::<ChainId, WalletError>(c),
                None => r matches Err(WalletError::UnsupportedChain(t)) && t@ == s@,
            },
    {
        proof {
            lemma_chain_names_are_lowercase();
        }
        if eq_ignore_ascii_case(s, "eth") || eq_ignore_ascii_case(s, "ethereum") {
            Ok(ChainId::Ethereum)
        } else if eq_ignore_ascii_case(s, "sol") || eq_ignore_ascii_case(s, "solana") {
            Ok(ChainId::Solana)
        } else if eq_ignore_ascii_case(s, "btc") || eq_ignore_ascii_case(s, "bitcoin") {
            Ok(ChainId::Bitcoin)
        } else if eq_ignore_ascii_case(s, "sui") {
            Ok(ChainId::Sui)
        } else {
            Err(WalletError::UnsupportedChain(s.to_owned()))
        }
    }

    /// Writes the chain's code.
    pub fn to_string(&self) -> (r: String)
        ensures
            r@ == self.code(),
    {
        self.as_str().to_owned()
    }

    /// The short lower-case code of the chain.
    pub fn as_str(&self) -> (r: &'static str)
        ensures
            r@ == self.code(),
    {
        match self {
            ChainId::Ethereum => "eth",
            ChainId::Solana => "sol",
            ChainId::Bitcoin => "btc",
            ChainId::Sui => "sui",
        }
    }
}

/// An account on one chain. The text is kept as given: its format is the
/// business of the chain's adapter.
#[derive(Debug, Hash)]
pub struct Address {
    pub chain_id: ChainId,
    pub value: String,
}

/// What an `Address` stands for: the chain and the characters of the text.
pub struct AddressView {
    pub chain_id: ChainId,
    pub value: Seq<char>,
}

impl View for Address {
    type V = AddressView;

    open spec fn view(&self) -> AddressView {
        AddressView { chain_id: self.chain_id, value: self.value@ }
    }
}

impl Address {
    pub fn new(chain_id: ChainId, value: String) -> (r: Self)
        ensures
            r.chain_id == chain_id,
            r.value == value,
    {
        Self { chain_id, value }
    }

    pub fn from_str(chain_id: ChainId, s: &str) -> (r: Self)
        ensures
            r@ == (AddressView { chain_id, value: s@ }),
    {
        Self { chain_id, value: s.to_owned() }
    }

    /// The chain's code, a colon, and the address text.
    pub open spec fn text(self) -> Seq<char> {
        self.chain_id.code() + seq![':'] + self.value@
    }

    /// Writes the address as `code:value`.
    pub fn to_string(&self) -> (r: String)
        ensures
            r@ == self.text(),
    {
        proof {
            reveal_strlit(":");
            assert(":"@ =~= seq![':']);
        }
        let mut out = self.chain_id.as_str().to_owned();
        out.append(":");
        out.append(self.value.as_str());
        out
    }
}

impl Clone for Address {
    fn clone(&self) -> (r: Self)
        ensures
            r == *self,
    {
        Self { chain_id: self.chain_id, value: self.value.clone() }
    }
}

impl PartialEq for Address {
    fn eq(&self, other: &Self) -> (r: bool) {
        self.chain_id == other.chain_id && self.value == other.value
    }
}

impl Eq for Address {

}

impl vstd::std_specs::cmp::PartialEqSpecImpl for Address {
    open spec fn obeys_eq_spec() -> bool {
        true
    }

    open spec fn eq_spec(&self, other: &Self) -> bool {
        self.chain_id == other.chain_id && self.value@ == other.value@
    }
}

/// An account balance in the chain's native asset. The amount is a decimal
/// text so that no digit of the smallest unit is lost.
#[derive(Debug)]
pub struct Balance {
    pub amount: String,
    pub decimals: u8,
    pub symbol: String,
}

pub struct BalanceView {
    pub amount: Seq<char>,
    pub decimals: u8,
    pub symbol: Seq<char>,
}

impl View for Balance {
    type V = BalanceView;

    open spec fn view(&self) -> BalanceView {
        BalanceView { amount: self.amount@, decimals: self.decimals, symbol: self.symbol@ }
    }
}

impl Balance {
    pub fn new(amount: String, decimals: u8, symbol: String) -> (r: Self)
        ensures
            r.amount == amount,
            r.decimals == decimals,
            r.symbol == symbol,
    {
        Self { amount, decimals, symbol }
    }
}

impl Clone for Balance {
    fn clone(&self) -> (r: Self)
        ensures
            r == *self,
    {
        Self {
            amount: self.amount.clone(),
            decimals: self.decimals,
            symbol: self.symbol.clone(),
        }
    }
}

/// What a caller asks for: a transfer of `amount` from one account to another.
#[derive(Debug)]
pub struct TxRequest {
    pub from: Address,
    pub to: Address,
    pub amount: String,
    pub data: Option<Vec<u8>>,
    pub gas_limit: Option<u64>,
    pub gas_price: Option<String>,
}

pub struct TxRequestView {
    pub from: AddressView,
    pub to: AddressView,
    pub amount: Seq<char>,
    pub data: Option<Seq<u8>>,
    pub gas_limit: Option<u64>,
    pub gas_price: Option<Seq<char>>,
}

impl View for TxRequest {
    type V = TxRequestView;

    open spec fn view(&self) -> TxRequestView {
        TxRequestView {
            from: self.from@,
            to: self.to@,
            amount: self.amount@,
            data: match self.data {
                Some(bytes) => Some(bytes@),
                None => None,
            },
            gas_limit: self.gas_limit,
            gas_price: match self.gas_price {
                Some(text) => Some(text@),
                None => None,
            },
        }
    }
}

/// A copy of optional bytes.
fn clone_bytes(data: &Option<Vec<u8>>) -> (r: Option<Vec<u8>>)
    ensures
        match (data, r) {
            (Some(a), Some(b)) => a@ == b@,
            (None, None) => true,
            _ => false,
        },
{
    match data {
        Some(bytes) => Some(bytes.clone()),
        None => None,
    }
}

/// A copy of an optional text.
fn clone_text(text: &Option<String>) -> (r: Option<String>)
    ensures
        r == *text,
{
    match text {
        Some(t) => Some(t.clone()),
        None => None,
    }
}

impl Clone for TxRequest {
    fn clone(&self) -> (r: Self)
        ensures
            r@ == self@,
    {
        Self {
            from: self.from.clone(),
            to: self.to.clone(),
            amount: self.amount.clone(),
            data: clone_bytes(&self.data),
            gas_limit: self.gas_limit,
            gas_price: clone_text(&self.gas_price),
        }
    }
}

/// A transaction that an adapter built and that waits for its signature.
/// `raw_data` and `metadata` belong to the adapter that made them.
#[derive(Debug, Clone)]
pub struct UnsignedTx {
    pub chain_id: ChainId,
    pub raw_data: Vec<u8>,
    pub tx_type: String,
    pub metadata: Option<serde_json::Value>,
}

pub struct UnsignedTxView {
    pub chain_id: ChainId,
    pub raw_data: Seq<u8>,
    pub tx_type: Seq<char>,
    pub metadata: Option<serde_json::Value>,
}

impl View for UnsignedTx {
    type V = UnsignedTxView;

    open spec fn view(&self) -> UnsignedTxView {
        UnsignedTxView {
            chain_id: self.chain_id,
            raw_data: self.raw_data@,
            tx_type: self.tx_type@,
            metadata: self.metadata,
        }
    }
}

/// A transaction together with its signature, ready to be broadcast.
#[derive(Debug)]
pub struct SignedTx {
    pub chain_id: ChainId,
    pub raw_data: Vec<u8>,
    pub signature: Vec<u8>,
    pub tx_type: String,
}

pub struct SignedTxView {
    pub chain_id: ChainId,
    pub raw_data: Seq<u8>,
    pub signature: Seq<u8>,
    pub tx_type: Seq<char>,
}

impl View for SignedTx {
    type V = SignedTxView;

    open spec fn view(&self) -> SignedTxView {
        SignedTxView {
            chain_id: self.chain_id,
            raw_data: self.raw_data@,
            signature: self.signature@,
            tx_type: self.tx_type@,
        }
    }
}

impl Clone for SignedTx {
    fn clone(&self) -> (r: Self)
        ensures
            r@ == self@,
    {
        Self {
            chain_id: self.chain_id,
            raw_data: self.raw_data.clone(),
            signature: self.signature.clone(),
            tx_type: self.tx_type.clone(),
        }
    }
}

/// The identity of a broadcast transaction.
#[derive(Debug, Hash)]
pub struct TxHash {
    pub chain_id: ChainId,
    pub value: String,
}

pub struct TxHashView {
    pub chain_id: ChainId,
    pub value: Seq<char>,
}

impl View for TxHash {
    type V = TxHashView;

    open spec fn view(&self) -> TxHashView {
        TxHashView { chain_id: self.chain_id, value: self.value@ }
    }
}

impl TxHash {
    pub fn new(chain_id: ChainId, value: String) -> (r: Self)
        ensures
            r.chain_id == chain_id,
            r.value == value,
    {
        Self { chain_id, value }
    }

    /// The chain's code, a colon, and the hash text.
    pub open spec fn text(self) -> Seq<char> {
        self.chain_id.code() + seq![':'] + self.value@
    }

    /// Writes the hash as `code:value`.
    pub fn to_string(&self) -> (r: String)
        ensures
            r@ == self.text(),
    {
        proof {
            reveal_strlit(":");
            assert(":"@ =~= seq![':']);
        }
        let mut out = self.chain_id.as_str().to_owned();
        out.append(":");
        out.append(self.value.as_str());
        out
    }
}

impl Clone for TxHash {
    fn clone(&self) -> (r: Self)
        ensures
            r == *self,
    {
        Self { chain_id: self.chain_id, value: self.value.clone() }
    }
}

impl PartialEq for TxHash {
    fn eq(&self, other: &Self) -> (r: bool) {
        self.chain_id == other.chain_id && self.value == other.value
    }
}

impl Eq for TxHash {

}

impl vstd::std_specs::cmp::PartialEqSpecImpl for TxHash {
    open spec fn obeys_eq_spec() -> bool {
        true
    }

    open spec fn eq_spec(&self, other: &Self) -> bool {
        self.chain_id == other.chain_id && self.value@ == other.value@
    }
}

/// Where a broadcast transaction stands.
#[derive(Debug, Clone, Copy, PartialEq, Eq, Structural)]
pub enum TxStatus {
    Pending,
    Confirmed,
    Failed,
    NotFound,
}

/// The status of a transaction with what the chain reports about it.
#[derive(Debug)]
pub struct TxStatusInfo {
    pub hash: TxHash,
    pub status: TxStatus,
    pub block_number: Option<u64>,
    pub confirmations: Option<u64>,
    pub error: Option<String>,
}

pub struct TxStatusInfoView {
    pub hash: TxHashView,
    pub status: TxStatus,
    pub block_number: Option<u64>,
    pub confirmations: Option<u64>,
    pub error: Option<Seq<char>>,
}

impl View for TxStatusInfo {
    type V = TxStatusInfoView;

    open spec fn view(&self) -> TxStatusInfoView {
        TxStatusInfoView {
            hash: self.hash@,
            status: self.status,
            block_number: self.block_number,
            confirmations: self.confirmations,
            error: match self.error {
                Some(text) => Some(text@),
                None => None,
            },
        }
    }
}

impl Clone for TxStatusInfo {
    fn clone(&self) -> (r: Self)
        ensures
            r@ == self@,
    {
        Self {
            hash: self.hash.clone(),
            status: self.status,
            block_number: self.block_number,
            confirmations: self.confirmations,
            error: clone_text(&self.error),
        }
    }
}

/// A signing capability bound to one or more chains. It reports the address
/// it stands for and signs bytes; the secret itself is never handed out.
pub trait Key: Send + Sync {
    /// The address that this key stands for on `chain_id`.
    fn address(&self, chain_id: ChainId) -> (r: Result<Address, WalletError>)
        ensures
            r matches Ok(a) ==> a.chain_id == chain_id,
    ;

    /// Signs `data`.
    fn sign(&self, data: &[u8]) -> (r: Result<Vec<u8>, WalletError>)
    ;

    /// The chains that this key is bound to, each once or more, in no
    /// particular order.
    fn supported_chains(&self) -> (r: Vec<ChainId>)
    ;
}

/// The seven names that `ChainId::named_by` knows hold no capital letter.
pub proof fn lemma_chain_names_are_lowercase()
    ensures
        ascii_lowercase("eth"@) == "eth"@,
        ascii_lowercase("ethereum"@) == "ethereum"@,
        ascii_lowercase("sol"@) == "sol"@,
        ascii_lowercase("solana"@) == "solana"@,
        ascii_lowercase("btc"@) == "btc"@,
        ascii_lowercase("bitcoin"@) == "bitcoin"@,
        ascii_lowercase("sui"@) == "sui"@,
{
    reveal_strlit("eth");
    reveal_strlit("ethereum");
    reveal_strlit("sol");
    reveal_strlit("solana");
    reveal_strlit("btc");
    reveal_strlit("bitcoin");
    reveal_strlit("sui");
    assert(ascii_lowercase("eth"@) =~= "eth"@);
    assert(ascii_lowercase("ethereum"@) =~= "ethereum"@);
    assert(ascii_lowercase("sol"@) =~= "sol"@);
    assert(ascii_lowercase("solana"@) =~= "solana"@);
    assert(ascii_lowercase("btc"@) =~= "btc"@);
    assert(ascii_lowercase("bitcoin"@) =~= "bitcoin"@);
    assert(ascii_lowercase("sui"@) =~= "sui"@);
}

/// Every chain is named by its own code: what `as_str` writes, `from_str` reads back.
pub proof fn lemma_code_names_its_chain(c: ChainId)
    ensures
        ChainId::named_by(c.code()) == Some(c),
{
    lemma_chain_names_are_lowercase();
    reveal_strlit("eth");
    reveal_strlit("ethereum");
    reveal_strlit("sol");
    reveal_strlit("solana");
    reveal_strlit("btc");
    reveal_strlit("bitcoin");
    reveal_strlit("sui");
    match c {
        ChainId::Ethereum => {},
        ChainId::Solana => {
            assert("sol"@[0] != "eth"@[0]);
            assert("sol"@.len() != "ethereum"@.len());
        },
        ChainId::Bitcoin => {
            assert("btc"@[0] != "eth"@[0]);
            assert("btc"@[0] != "sol"@[0]);
            assert("btc"@.len() != "ethereum"@.len());
            assert("btc"@.len() != "solana"@.len());
        },
        ChainId::Sui => {
            assert("sui"@[0] != "eth"@[0]);
            assert("sui"@[1] != "sol"@[1]);
            assert("sui"@[0] != "btc"@[0]);
            assert("sui"@.len() != "ethereum"@.len());
            assert("sui"@.len() != "solana"@.len());
            assert("sui"@.len() != "bitcoin"@.len());
        },
    }
}

/// No two chains share a code.
pub proof fn lemma_codes_are_distinct(a: ChainId, b: ChainId)
    requires
        a.code() == b.code(),
    ensures
        a == b,
{
    lemma_code_names_its_chain(a);
    lemma_code_names_its_chain(b);
}

} // verus!

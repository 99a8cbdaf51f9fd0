//! The Ethereum adapter and its rules.
//!
//! Balance and status queries need the node in the middle of their work.
//! What is decided before and after the node is asked stands here as
//! functions of its own: `balance_query` and `balance_reply`, `watch_query`,
//! `watch_on_receipt` and `watch_on_transaction`. A caller that asks the
//! node itself uses those; `EthereumAdapter` puts them together around an
//! `EthereumNode`, which asks for it.
use crate::chain::eth::primitives::{ethereum_account, EthAddress, EthHash, Receipt, Wei};
use crate::chain::ChainAdapter;
use crate::runtime::chain_runtime::ChainRuntime;
use crate::error::WalletError;
use crate::text::{
    amount_fits, amount_text_fits, bytes_of_hex, is_hex_of, lemma_hex_text_is_read_back,
    units_text,
};
use crate::trusted::{
    document_bytes, document_to_bytes, ether_amount, format_ether, keccak256_digest, parse_ether,
    request_document, transaction_document,
};
use crate::types::key::{message_signature, EthereumKey};
use crate::types::{
    Address, Balance, BalanceView, ChainId, Key, SignedTx, SignedTxView, TxHash, TxHashView,
    TxRequest, TxRequestView, TxStatus, TxStatusInfo, TxStatusInfoView, UnsignedTx,
    UnsignedTxView,
};
use std::marker::PhantomData;
use std::sync::Arc;
use vstd::prelude::*;

verus! {

/// The bytes under which the node knows `address`, or why it cannot be asked.
pub open spec fn balance_target(address: Address) -> Result<Seq<u8>, WalletError> {
    if address.chain_id != ChainId::Ethereum {
        Err(WalletError::ChainMismatch)
    } else if !is_hex_of(address.value@, 20) {
        Err(WalletError::InvalidAddress)
    } else {
        Ok(bytes_of_hex(address.value@, 20))
    }
}

/// First step of a balance query: decides whether `address` can be asked
/// about on Ethereum, and under which twenty bytes. An address of another
/// chain is turned away here, before the node is asked anything.
pub fn balance_query(address: &Address) -> (r: Result<EthAddress, WalletError>)
    ensures
        match balance_target(*address) {
            Ok(bytes) => r matches Ok(a) && a@ == bytes,
            Err(e) => r == Err::<EthAddress, WalletError>(e),
        },
{
    if address.chain_id != ChainId::Ethereum {
        return Err(WalletError::ChainMismatch);
    }
    EthAddress::parse(address.value.as_str())
}

/// The account that a key reports can be asked about: the text that stands
/// for twenty address bytes is read back as those bytes.
pub proof fn lemma_account_is_a_balance_target(address: Address, bytes: Seq<u8>)
    requires
        bytes.len() == 20,
        address@ == ethereum_account(bytes),
    ensures
        balance_target(address) == Ok::<Seq<u8>, WalletError>(bytes),
{
    lemma_hex_text_is_read_back(bytes);
}

/// The balance that stands for `wei`: in ether, with eighteen decimals.
pub open spec fn ether_balance(wei: Wei) -> BalanceView {
    BalanceView { amount: units_text(wei.value(), 18), decimals: 18, symbol: "ETH"@ }
}

/// Last step of a balance query: turns the node's answer into a balance.
/// A failure of the node is reported as such, with the node's words.
pub fn balance_reply(reply: Result<Wei, String>) -> (r: Result<Balance, WalletError>)
    ensures
        match reply {
            Ok(wei) => r matches Ok(balance) && balance@ == ether_balance(wei),
            Err(reason) => r == Err::<Balance, WalletError>(WalletError::NetworkError(reason)),
        },
{
    match reply {
        Ok(wei) => Ok(Balance::new(format_ether(&wei), 18, "ETH".to_owned())),
        Err(reason) => Err(WalletError::NetworkError(reason)),
    }
}

/// The bytes under which the node knows the transaction `hash`, or why it
/// cannot be asked.
pub open spec fn watch_target(hash: TxHash) -> Result<Seq<u8>, WalletError> {
    if hash.chain_id != ChainId::Ethereum {
        Err(WalletError::ChainMismatch)
    } else if !is_hex_of(hash.value@, 32) {
        Err(WalletError::InvalidHash)
    } else {
        Ok(bytes_of_hex(hash.value@, 32))
    }
}

/// First step of a status query: decides whether `hash` can be asked about
/// on Ethereum, and under which thirty-two bytes.
pub fn watch_query(hash: &TxHash) -> (r: Result<EthHash, WalletError>)
    ensures
        match watch_target(*hash) {
            Ok(bytes) => r matches Ok(h) && h@ == bytes,
            Err(e) => r == Err::<EthHash, WalletError>(e),
        },
{
    if hash.chain_id != ChainId::Ethereum {
        return Err(WalletError::ChainMismatch);
    }
    EthHash::parse(hash.value.as_str())
}

/// The status of a transaction that has a receipt: confirmed, in the
/// receipt's block, with one confirmation.
pub open spec fn confirmed(hash: TxHashView, receipt: Receipt) -> TxStatusInfoView {
    TxStatusInfoView {
        hash,
        status: TxStatus::Confirmed,
        block_number: Some(receipt.block_number),
        confirmations: Some(1u64),
        error: None,
    }
}

/// The status of a transaction without a receipt: pending where the node
/// knows it, not found where it does not.
pub open spec fn unconfirmed(hash: TxHashView, known: bool) -> TxStatusInfoView {
    TxStatusInfoView {
        hash,
        status: if known {
            TxStatus::Pending
        } else {
            TxStatus::NotFound
        },
        block_number: None,
        confirmations: None,
        error: None,
    }
}

/// Whether a status is one that the Ethereum adapter reports: confirmed
/// with the block of the transaction and at least one confirmation, or
/// pending or not found with neither; in no case with an error text.
pub open spec fn is_settled(info: TxStatusInfoView) -> bool {
    &&& info.error is None
    &&& match info.status {
        TxStatus::Confirmed => info.block_number is Some && info.confirmations is Some
            && info.confirmations->0 >= 1,
        TxStatus::Pending | TxStatus::NotFound => info.block_number is None
            && info.confirmations is None,
        TxStatus::Failed => false,
    }
}

/// What follows the node's answer to the question for a receipt.
pub enum WatchStep {
    /// The status is settled, or the query has failed.
    Done(Result<TxStatusInfo, WalletError>),
    /// The node holds no receipt: it has to be asked whether it knows the
    /// transaction at all.
    AskTransaction,
}

/// Second step of a status query: decides on the node's answer to the
/// question for the receipt of `hash`.
pub fn watch_on_receipt(hash: &TxHash, reply: Result<Option<Receipt>, String>) -> (r: WatchStep)
    ensures
        match reply {
            Ok(Some(receipt)) => r matches WatchStep::Done(Ok(info)) && info@ == confirmed(
                hash@,
                receipt,
            ),
            Ok(None) => r is AskTransaction,
            Err(reason) => r matches WatchStep::Done(res) && res == Err::<
                TxStatusInfo,
                WalletError,
            >(WalletError::NetworkError(reason)),
        },
        r matches WatchStep::Done(Ok(info)) ==> info.status == TxStatus::Confirmed && is_settled(
            info@,
        ),
{
    match reply {
        Ok(Some(receipt)) => WatchStep::Done(
            Ok(
                TxStatusInfo {
                    hash: hash.clone(),
                    status: TxStatus::Confirmed,
                    block_number: Some(receipt.block_number),
                    confirmations: Some(1u64),
                    error: None,
                },
            ),
        ),
        Ok(None) => WatchStep::AskTransaction,
        Err(reason) => WatchStep::Done(Err(WalletError::NetworkError(reason))),
    }
}

/// Last step of a status query without a receipt: decides on the node's
/// answer to the question whether it knows the transaction.
pub fn watch_on_transaction(hash: &TxHash, reply: Result<bool, String>) -> (r: Result<
    TxStatusInfo,
    WalletError,
>)
    ensures
        match reply {
            Ok(known) => r matches Ok(info) && info@ == unconfirmed(hash@, known),
            Err(reason) => r == Err::<TxStatusInfo, WalletError>(WalletError::NetworkError(reason)),
        },
        r matches Ok(info) ==> info.status != TxStatus::Confirmed && is_settled(info@),
{
    match reply {
        Ok(known) => Ok(
            TxStatusInfo {
                hash: hash.clone(),
                status: if known {
                    TxStatus::Pending
                } else {
                    TxStatus::NotFound
                },
                block_number: None,
                confirmations: None,
                error: None,
            },
        ),
        Err(reason) => Err(WalletError::NetworkError(reason)),
    }
}

/// Whether two steps are the same step: both ask on, or both are done with
/// the same error or with statuses that agree in every field.
pub open spec fn same_step(first: WatchStep, second: WatchStep) -> bool {
    match (first, second) {
        (WatchStep::AskTransaction, WatchStep::AskTransaction) => true,
        (WatchStep::Done(a), WatchStep::Done(b)) => same_status(a, b),
        _ => false,
    }
}

/// Whether two results of a status query are the same: the same error, or
/// statuses that agree in every field.
pub open spec fn same_status(
    first: Result<TxStatusInfo, WalletError>,
    second: Result<TxStatusInfo, WalletError>,
) -> bool {
    match (first, second) {
        (Ok(a), Ok(b)) => a@ == b@,
        (Err(a), Err(b)) => a == b,
        _ => false,
    }
}

/// Polling is repeatable, first half: whatever `watch_on_receipt` returns
/// for a hash and an answer of the node, it returns every time for them.
pub proof fn lemma_receipt_step_is_repeatable(
    hash: TxHash,
    reply: Result<Option<Receipt>, String>,
    first: WatchStep,
    second: WatchStep,
)
    requires
        call_ensures(watch_on_receipt, (&hash, reply), first),
        call_ensures(watch_on_receipt, (&hash, reply), second),
    ensures
        same_step(first, second),
{
}

/// Polling is repeatable, second half: whatever `watch_on_transaction`
/// returns for a hash and an answer of the node, it returns every time for
/// them: the same status, the same block number.
pub proof fn lemma_transaction_step_is_repeatable(
    hash: TxHash,
    reply: Result<bool, String>,
    first: Result<TxStatusInfo, WalletError>,
    second: Result<TxStatusInfo, WalletError>,
)
    requires
        call_ensures(watch_on_transaction, (&hash, reply), first),
        call_ensures(watch_on_transaction, (&hash, reply), second),
    ensures
        same_status(first, second),
{
}

/// The amount of wei that a decimal text of ether stands for, as `ethers`
/// reads it: digits with at most one point, `_` between them passed over,
/// what lies beyond the eighteenth decimal place cut off, and an amount
/// with a minus sign taken in two's complement. Texts that are not plain
/// ASCII, or whose whole part is so long that scaling it to wei could leave
/// 256 bits, stand for none.
pub open spec fn wei_of_text(text: Seq<char>) -> Option<Wei> {
    if amount_text_fits(text, 18) {
        ether_amount(text)
    } else {
        None
    }
}

/// Reads an amount of ether as wei.
pub fn parse_amount(s: &str) -> (r: Result<Wei, WalletError>)
    ensures
        match wei_of_text(s@) {
            Some(wei) => r == Ok::<Wei, WalletError>(wei),
            None => r == Err::<Wei, WalletError>(WalletError::InvalidAmount),
        },
{
    if !amount_fits(s, 18) {
        return Err(WalletError::InvalidAmount);
    }
    match parse_ether(s) {
        Some(wei) => Ok(wei),
        None => Err(WalletError::InvalidAmount),
    }
}

/// The gas price of a request in wei, where it names one.
pub open spec fn gas_price_of(req: TxRequestView) -> Option<Wei> {
    match req.gas_price {
        Some(text) => wei_of_text(text),
        None => None,
    }
}

/// The transaction document of a request and the bytes that write it, or
/// why the request has none. Checks come in this order: the chains of both
/// accounts, the sender's address, the recipient's, the amount, the gas
/// price, and last the encoding itself.
pub open spec fn encoded_request(req: TxRequestView) -> Result<
    (serde_json::Value, Seq<u8>),
    WalletError,
> {
    if req.from.chain_id != ChainId::Ethereum || req.to.chain_id != ChainId::Ethereum {
        Err(WalletError::ChainMismatch)
    } else if !is_hex_of(req.from.value, 20) || !is_hex_of(req.to.value, 20) {
        Err(WalletError::InvalidAddress)
    } else if wei_of_text(req.amount) is None {
        Err(WalletError::InvalidAmount)
    } else if req.gas_price is Some && gas_price_of(req) is None {
        Err(WalletError::InvalidAmount)
    } else {
        match request_document(
            bytes_of_hex(req.from.value, 20),
            bytes_of_hex(req.to.value, 20),
            wei_of_text(req.amount)->0,
            req.gas_limit,
            gas_price_of(req),
            req.data,
        ) {
            None => Err(WalletError::EncodingFailed),
            Some(document) => match document_bytes(document) {
                None => Err(WalletError::EncodingFailed),
                Some(raw) => Ok((document, raw)),
            },
        }
    }
}

/// The unsigned Ethereum transaction that carries a transaction document:
/// the bytes as payload, the document itself beside them.
pub open spec fn unsigned(document: serde_json::Value, raw: Seq<u8>) -> UnsignedTxView {
    UnsignedTxView {
        chain_id: ChainId::Ethereum,
        raw_data: raw,
        tx_type: "ethereum"@,
        metadata: Some(document),
    }
}

/// The unsigned Ethereum transaction that carries a transaction document.
pub fn unsigned_transaction(document: serde_json::Value, raw: Vec<u8>) -> (tx: UnsignedTx)
    ensures
        tx@ == unsigned(document, raw@),
{
    UnsignedTx {
        chain_id: ChainId::Ethereum,
        raw_data: raw,
        tx_type: "ethereum".to_owned(),
        metadata: Some(document),
    }
}

/// Encodes a transfer request as an unsigned Ethereum transaction. Gas
/// limit, gas price and data enter the transaction where the request names
/// them and are left to the node where it does not.
pub fn build_tx(req: TxRequest) -> (r: Result<UnsignedTx, WalletError>)
    ensures
        match encoded_request(req@) {
            Ok((document, raw)) => r matches Ok(tx) && tx@ == unsigned(document, raw),
            Err(e) => r == Err::<UnsignedTx, WalletError>(e),
        },
{
    if req.from.chain_id != ChainId::Ethereum || req.to.chain_id != ChainId::Ethereum {
        return Err(WalletError::ChainMismatch);
    }
    let from = match EthAddress::parse(req.from.value.as_str()) {
        Ok(a) => a,
        Err(e) => {
            return Err(e);
        },
    };
    let to = match EthAddress::parse(req.to.value.as_str()) {
        Ok(a) => a,
        Err(e) => {
            return Err(e);
        },
    };
    let amount = match parse_amount(req.amount.as_str()) {
        Ok(wei) => wei,
        Err(e) => {
            return Err(e);
        },
    };
    let gas_price = match &req.gas_price {
        Some(text) => match parse_amount(text.as_str()) {
            Ok(wei) => Some(wei),
            Err(e) => {
                return Err(e);
            },
        },
        None => None,
    };
    let document = match transaction_document(
        &from,
        &to,
        amount,
        req.gas_limit,
        gas_price,
        req.data,
    ) {
        Some(document) => document,
        None => {
            return Err(WalletError::EncodingFailed);
        },
    };
    match document_to_bytes(&document) {
        Some(raw) => Ok(unsigned_transaction(document, raw)),
        None => Err(WalletError::EncodingFailed),
    }
}

/// A request that was built is one between two accounts of Ethereum, and
/// what was built is a transaction of Ethereum: the rules keep what every
/// adapter owes the runtime.
pub proof fn lemma_built_transaction_is_on_ethereum(
    req: TxRequest,
    r: Result<UnsignedTx, WalletError>,
)
    requires
        call_ensures(build_tx, (req,), r),
        r is Ok,
    ensures
        r->Ok_0.chain_id == req.from.chain_id,
        req.to.chain_id == req.from.chain_id,
        req.from.chain_id == ChainId::Ethereum,
{
}

/// Whether `chain` stands in `chains`.
pub fn lists_chain(chains: &Vec<ChainId>, chain: ChainId) -> (r: bool)
    ensures
        r == chains@.contains(chain),
{
    let mut i: usize = 0;
    while i < chains.len()
        invariant
            i <= chains@.len(),
            forall|j: int| 0 <= j < i ==> chains@[j] != chain,
        decreases chains@.len() - i,
    {
        if chains[i] == chain {
            return true;
        }
        i = i + 1;
    }
    false
}

/// The signed Ethereum transaction made of an unsigned one and a signature.
pub open spec fn sealed(tx: UnsignedTx, signature: Seq<u8>) -> SignedTxView {
    SignedTxView {
        chain_id: ChainId::Ethereum,
        raw_data: tx.raw_data@,
        signature,
        tx_type: "ethereum"@,
    }
}

/// Packages an unsigned Ethereum transaction with its signature.
pub fn seal(tx: UnsignedTx, signature: Vec<u8>) -> (signed: SignedTx)
    ensures
        signed@ == sealed(tx, signature@),
{
    SignedTx {
        chain_id: ChainId::Ethereum,
        raw_data: tx.raw_data,
        signature,
        tx_type: "ethereum".to_owned(),
    }
}

/// What `sign_tx` returns once the key has spoken: `chains` is what the key
/// listed as its chains, `signature` what it returned for the payload of
/// `tx`. A key that does not list Ethereum is turned away with
/// `ChainMismatch`, whatever it would have signed; an error of the key
/// comes back as it is.
pub open spec fn signing_outcome(
    tx: UnsignedTx,
    chains: Seq<ChainId>,
    signature: Result<Vec<u8>, WalletError>,
    r: Result<SignedTx, WalletError>,
) -> bool {
    if !chains.contains(ChainId::Ethereum) {
        r == Err::<SignedTx, WalletError>(WalletError::ChainMismatch)
    } else {
        match signature {
            Ok(bytes) => r matches Ok(signed) && signed@ == sealed(tx, bytes@),
            Err(e) => r == Err::<SignedTx, WalletError>(e),
        }
    }
}

/// A key that does not list Ethereum among its chains gets nothing signed:
/// the outcome is `ChainMismatch` whatever the key would have returned.
pub proof fn lemma_foreign_key_is_turned_away(
    tx: UnsignedTx,
    chains: Seq<ChainId>,
    signature: Result<Vec<u8>, WalletError>,
    r: Result<SignedTx, WalletError>,
)
    requires
        !chains.contains(ChainId::Ethereum),
        signing_outcome(tx, chains, signature, r),
    ensures
        r == Err::<SignedTx, WalletError>(WalletError::ChainMismatch),
{
}

/// Whether `key` is a key of other chains only: whatever it lists as its
/// chains, Ethereum is not among them.
pub open spec fn is_foreign_key<K: Key + ?Sized>(key: &K) -> bool {
    forall|chains: Vec<ChainId>| #[trigger]
        call_ensures(K::supported_chains, (key,), chains) ==> !chains@.contains(
            ChainId::Ethereum,
        )
}

/// Has `key` sign the payload of `tx` and packages the signature with it.
/// A transaction of another chain, and a key that is not bound to
/// Ethereum, are turned away with `ChainMismatch` before the key is asked
/// to sign anything. The key is asked for its chains once and, where they
/// hold Ethereum, for one signature, of the payload as it stands in `tx`.
pub fn sign_with<K: Key + ?Sized>(tx: UnsignedTx, key: &K) -> (r: Result<SignedTx, WalletError>)
    ensures
        tx.chain_id != ChainId::Ethereum ==> r == Err::<SignedTx, WalletError>(
            WalletError::ChainMismatch,
        ),
        tx.chain_id == ChainId::Ethereum ==> exists|chains: Vec<ChainId>|
            #![trigger call_ensures(K::supported_chains, (key,), chains)]
            call_ensures(K::supported_chains, (key,), chains) && if !chains@.contains(
                ChainId::Ethereum,
            ) {
                r == Err::<SignedTx, WalletError>(WalletError::ChainMismatch)
            } else {
                exists|payload: &[u8], signature: Result<Vec<u8>, WalletError>|
                    #![trigger call_ensures(K::sign, (key, payload), signature)]
                    payload@ == tx.raw_data@ && call_ensures(K::sign, (key, payload), signature)
                        && signing_outcome(tx, chains@, signature, r)
            },
        tx.chain_id == ChainId::Ethereum ==> exists|
            chains: Seq<ChainId>,
            signature: Result<Vec<u8>, WalletError>,
        | signing_outcome(tx, chains, signature, r),
        is_foreign_key(key) ==> r == Err::<SignedTx, WalletError>(WalletError::ChainMismatch),
        r matches Ok(signed) ==> signed.chain_id == tx.chain_id,
{
    if tx.chain_id != ChainId::Ethereum {
        return Err(WalletError::ChainMismatch);
    }
    let chains = key.supported_chains();
    if !lists_chain(&chains, ChainId::Ethereum) {
        let r = Err(WalletError::ChainMismatch);
        assert(signing_outcome(tx, chains@, Err(WalletError::ChainMismatch), r));
        return r;
    }
    let payload = tx.raw_data.as_slice();
    let signature = key.sign(payload);
    let ghost answer = signature;
    let ghost handed = payload;
    let ghost before = tx;
    let r = match signature {
        Ok(bytes) => Ok(seal(tx, bytes)),
        Err(e) => Err(e),
    };
    assert(call_ensures(K::sign, (key, handed), answer));
    assert(signing_outcome(before, chains@, answer, r));
    r
}

/// With an Ethereum key, signing a transaction of Ethereum is settled by
/// key and payload alone: the signed transaction carries the signature of
/// the key's secret under the Keccak-256 digest of the payload, or signing
/// fails as the key fails.
pub proof fn lemma_ethereum_key_signs_for_ethereum(
    tx: UnsignedTx,
    key: EthereumKey,
    r: Result<SignedTx, WalletError>,
)
    requires
        tx.chain_id == ChainId::Ethereum,
        call_ensures(sign_with::<EthereumKey>, (tx, &key), r),
    ensures
        match message_signature(key@.secret, keccak256_digest(tx.raw_data@)) {
            Some(signature) => r matches Ok(signed) && signed@ == sealed(tx, signature),
            None => r == Err::<SignedTx, WalletError>(WalletError::SigningFailed),
        },
{
    let chains = choose|chains: Vec<ChainId>|
        #![trigger call_ensures(EthereumKey::supported_chains, (&key,), chains)]
        call_ensures(EthereumKey::supported_chains, (&key,), chains) && if !chains@.contains(
            ChainId::Ethereum,
        ) {
            r == Err::<SignedTx, WalletError>(WalletError::ChainMismatch)
        } else {
            exists|payload: &[u8], signature: Result<Vec<u8>, WalletError>|
                #![trigger call_ensures(EthereumKey::sign, (&key, payload), signature)]
                payload@ == tx.raw_data@ && call_ensures(
                    EthereumKey::sign,
                    (&key, payload),
                    signature,
                ) && signing_outcome(tx, chains@, signature, r)
        };
    assert(chains@ == seq![ChainId::Ethereum]);
    assert(chains@[0] == ChainId::Ethereum);
}

/// `sign_with` for a key behind a trait object, the form in which the
/// runtime hands keys to adapters: the result is what `sign_with` returns
/// for this transaction and this key.
pub fn sign_tx(tx: UnsignedTx, key: &dyn Key) -> (r: Result<SignedTx, WalletError>)
    ensures
        ({
            let handed = (tx, key);
            call_ensures(sign_with::<dyn Key>, handed, r)
        }),
        tx.chain_id != ChainId::Ethereum ==> r == Err::<SignedTx, WalletError>(
            WalletError::ChainMismatch,
        ),
        tx.chain_id == ChainId::Ethereum ==> exists|
            chains: Seq<ChainId>,
            signature: Result<Vec<u8>, WalletError>,
        | signing_outcome(tx, chains, signature, r),
        is_foreign_key(key) ==> r == Err::<SignedTx, WalletError>(WalletError::ChainMismatch),
        r matches Ok(signed) ==> signed.chain_id == tx.chain_id,
{
    sign_with(tx, key)
}

/// Broadcasts a signed Ethereum transaction. The payload of a signed
/// transaction does not hold what the network needs to accept it, so the
/// broadcast cannot be completed: a transaction of Ethereum fails with
/// `BroadcastFailed`, one of another chain with `ChainMismatch`.
pub fn send_tx(tx: SignedTx) -> (r: Result<TxHash, WalletError>)
    ensures
        tx.chain_id != ChainId::Ethereum ==> r == Err::<TxHash, WalletError>(
            WalletError::ChainMismatch,
        ),
        tx.chain_id == ChainId::Ethereum ==> r == Err::<TxHash, WalletError>(
            WalletError::BroadcastFailed,
        ),
{
    if tx.chain_id != ChainId::Ethereum {
        return Err(WalletError::ChainMismatch);
    }
    Err(WalletError::BroadcastFailed)
}

/// The three questions that the Ethereum adapter has for a node. An answer
/// is what the node said, or the words in which asking failed.
pub trait EthereumNode: Send + Sync {
    /// The balance of `account` in wei.
    fn balance(&self, account: EthAddress) -> (r: Result<Wei, String>)
    ;

    /// The receipt of the transaction `hash`, if the node holds one.
    fn receipt(&self, hash: EthHash) -> (r: Result<Option<Receipt>, String>)
    ;

    /// Whether the node knows the transaction `hash` at all.
    fn knows(&self, hash: EthHash) -> (r: Result<bool, String>)
    ;
}

/// A shared node is a node: every question goes to the one it points to.
impl<T: EthereumNode + ?Sized> EthereumNode for Arc<T> {
    fn balance(&self, account: EthAddress) -> (r: Result<Wei, String>)
        ensures
            call_ensures(T::balance, (&**self, account), r),
    {
        (**self).balance(account)
    }

    fn receipt(&self, hash: EthHash) -> (r: Result<Option<Receipt>, String>)
        ensures
            call_ensures(T::receipt, (&**self, hash), r),
    {
        (**self).receipt(hash)
    }

    fn knows(&self, hash: EthHash) -> (r: Result<bool, String>)
        ensures
            call_ensures(T::knows, (&**self, hash), r),
    {
        (**self).knows(hash)
    }
}

/// Whether `r` is what `balance_reply` makes of the node's answer.
pub open spec fn balance_outcome(reply: Result<Wei, String>, r: Result<Balance, WalletError>) -> bool {
    match reply {
        Ok(wei) => r matches Ok(balance) && balance@ == ether_balance(wei),
        Err(reason) => r == Err::<Balance, WalletError>(WalletError::NetworkError(reason)),
    }
}

/// Whether `r` is the status that a hash has once the node has answered
/// the question whether it knows the transaction.
pub open spec fn transaction_outcome(
    hash: TxHashView,
    reply: Result<bool, String>,
    r: Result<TxStatusInfo, WalletError>,
) -> bool {
    match reply {
        Ok(known) => r matches Ok(info) && info@ == unconfirmed(hash, known),
        Err(reason) => r == Err::<TxStatusInfo, WalletError>(WalletError::NetworkError(reason)),
    }
}

/// The adapter of Ethereum around a node. `K` is the kind of key that it
/// signs with; unless another is named it is `dyn Key`.
pub struct EthereumAdapter<N: EthereumNode, K: Key + ?Sized = dyn Key> {
    pub node: N,
    pub keys: PhantomData<K>,
}

impl<N: EthereumNode, K: Key + ?Sized> EthereumAdapter<N, K> {
    pub fn new(node: N) -> (r: Self)
        ensures
            r.node == node,
    {
        Self { node, keys: PhantomData }
    }
}

impl<N: EthereumNode, K: Key + ?Sized> ChainAdapter<K> for EthereumAdapter<N, K> {
    fn chain_id(&self) -> (c: ChainId)
        ensures
            c == ChainId::Ethereum,
    {
        ChainId::Ethereum
    }

    /// The balance of `address` in ether. An address of another chain, or
    /// one that is no address, is turned away without a word to the node;
    /// else the node is asked once, for the account that the address
    /// writes, and its answer decides.
    fn get_balance(&self, address: &Address) -> (r: Result<Balance, WalletError>)
        ensures
            match balance_target(*address) {
                Err(e) => r == Err::<Balance, WalletError>(e),
                Ok(bytes) => exists|account: EthAddress, reply: Result<Wei, String>|
                    #![trigger call_ensures(N::balance, (&self.node, account), reply)]
                    account@ == bytes && call_ensures(N::balance, (&self.node, account), reply)
                        && balance_outcome(reply, r),
            },
    {
        let account = match balance_query(address) {
            Ok(account) => account,
            Err(e) => {
                return Err(e);
            },
        };
        let reply = self.node.balance(account);
        let ghost answer = reply;
        let r = balance_reply(reply);
        assert(call_ensures(N::balance, (&self.node, account), answer));
        assert(balance_outcome(answer, r));
        r
    }

    fn build_tx(&self, req: TxRequest) -> (r: Result<UnsignedTx, WalletError>)
        ensures
            call_ensures(build_tx, (req,), r),
    {
        build_tx(req)
    }

    /// Signs as `sign_with` does, with this transaction and this key. A
    /// transaction of another chain, and a key of other chains only, are
    /// turned away with `ChainMismatch`.
    fn sign_tx(&self, tx: UnsignedTx, key: &K) -> (r: Result<SignedTx, WalletError>)
        ensures
            call_ensures(sign_with::<K>, (tx, key), r),
            tx.chain_id != ChainId::Ethereum ==> r == Err::<SignedTx, WalletError>(
                WalletError::ChainMismatch,
            ),
            tx.chain_id == ChainId::Ethereum ==> exists|
                chains: Seq<ChainId>,
                signature: Result<Vec<u8>, WalletError>,
            | signing_outcome(tx, chains, signature, r),
            is_foreign_key(key) ==> r == Err::<SignedTx, WalletError>(
                WalletError::ChainMismatch,
            ),
    {
        sign_with(tx, key)
    }

    fn send_tx(&self, tx: SignedTx) -> (r: Result<TxHash, WalletError>)
        ensures
            call_ensures(send_tx, (tx,), r),
    {
        send_tx(tx)
    }

    /// Where the transaction `hash` stands. A hash of another chain, or
    /// one that is no hash, is turned away without a word to the node. Else
    /// the node is asked for the receipt; only where it holds none is it
    /// asked a second time, whether it knows the transaction. A question
    /// that fails ends the query with a network error, never with a status.
    fn watch_tx(&self, hash: TxHash) -> (r: Result<TxStatusInfo, WalletError>)
        ensures
            match watch_target(hash) {
                Err(e) => r == Err::<TxStatusInfo, WalletError>(e),
                Ok(bytes) => exists|target: EthHash, receipt: Result<Option<Receipt>, String>|
                    #![trigger call_ensures(N::receipt, (&self.node, target), receipt)]
                    target@ == bytes && call_ensures(N::receipt, (&self.node, target), receipt)
                        && match receipt {
                        Err(reason) => r == Err::<TxStatusInfo, WalletError>(
                            WalletError::NetworkError(reason),
                        ),
                        Ok(Some(found)) => r matches Ok(info) && info@ == confirmed(hash@, found),
                        Ok(None) => exists|known: Result<bool, String>|
                            #![trigger call_ensures(N::knows, (&self.node, target), known)]
                            call_ensures(N::knows, (&self.node, target), known)
                                && transaction_outcome(hash@, known, r),
                    },
            },
            r matches Ok(info) ==> is_settled(info@),
    {
        let target = match watch_query(&hash) {
            Ok(target) => target,
            Err(e) => {
                return Err(e);
            },
        };
        let receipt = self.node.receipt(target);
        let ghost first = receipt;
        assert(call_ensures(N::receipt, (&self.node, target), first));
        match watch_on_receipt(&hash, receipt) {
            WatchStep::Done(outcome) => outcome,
            WatchStep::AskTransaction => {
                let known = self.node.knows(target);
                let ghost second = known;
                let r = watch_on_transaction(&hash, known);
                assert(call_ensures(N::knows, (&self.node, target), second));
                assert(transaction_outcome(hash@, second, r));
                r
            },
        }
    }
}

/// At the adapter's own method: a key of other chains only gets nothing
/// signed, whatever the transaction.
pub proof fn lemma_adapter_turns_foreign_key_away<N: EthereumNode, K: Key + ?Sized>(
    adapter: EthereumAdapter<N, K>,
    tx: UnsignedTx,
    key: &K,
    r: Result<SignedTx, WalletError>,
)
    requires
        is_foreign_key(key),
        call_ensures(<EthereumAdapter<N, K> as ChainAdapter<K>>::sign_tx, (&adapter, tx, key), r),
    ensures
        r == Err::<SignedTx, WalletError>(WalletError::ChainMismatch),
{
}

/// Through the runtime as at the adapter: where an Ethereum adapter is
/// registered for the chain of the transaction, signing with a key of
/// other chains only ends in `ChainMismatch`.
pub proof fn lemma_runtime_turns_foreign_key_away<N: EthereumNode, K: Key + ?Sized>(
    runtime: ChainRuntime<EthereumAdapter<N, K>, K>,
    tx: UnsignedTx,
    key: &K,
    r: Result<SignedTx, WalletError>,
)
    requires
        runtime@.contains_key(tx.chain_id),
        is_foreign_key(key),
        call_ensures(
            ChainRuntime::<EthereumAdapter<N, K>, K>::sign_tx,
            (&runtime, tx, key),
            r,
        ),
    ensures
        r == Err::<SignedTx, WalletError>(WalletError::ChainMismatch),
{
}

/// The same where the runtime holds its Ethereum adapter shared.
pub proof fn lemma_shared_runtime_turns_foreign_key_away<N: EthereumNode, K: Key + ?Sized>(
    runtime: ChainRuntime<Arc<EthereumAdapter<N, K>>, K>,
    tx: UnsignedTx,
    key: &K,
    r: Result<SignedTx, WalletError>,
)
    requires
        runtime@.contains_key(tx.chain_id),
        is_foreign_key(key),
        call_ensures(
            ChainRuntime::<Arc<EthereumAdapter<N, K>>, K>::sign_tx,
            (&runtime, tx, key),
            r,
        ),
    ensures
        r == Err::<SignedTx, WalletError>(WalletError::ChainMismatch),
{
}

} // verus!

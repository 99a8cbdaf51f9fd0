//! The outside types and functions that the library relies on without proof.
//!
//! Each function here makes one call into `ethers`, `serde_json` or `std`
//! and states what that call returns. None of these statements is proved:
//! they were read off the sources of those crates.
use crate::chain::eth::primitives::{EthAddress, EthHash, Wei};
use crate::text::{
    amount_text_fits, bytes_of_hex, hex_text, is_hex_of, is_unit_scale, replaced,
    signed_message, units_text,
};
use ethers::signers::LocalWallet;
use vstd::prelude::*;

verus! {

/// A JSON document of `serde_json`; carried, never looked into.
#[verifier::external_type_specification]
#[verifier::external_body]
pub struct ExJsonValue(serde_json::Value);

/// `str::replace` with a pattern that is not empty: every occurrence of the
/// pattern, taken from the left and without overlap, gives way to `with`.
#[verifier::external_body]
pub(crate) fn replace_text(text: &str, pattern: &str, with: &str) -> (r: String)
    requires
        pattern@.len() > 0,
    ensures
        r@ == replaced(text@, pattern@, with@),
{
    text.replace(pattern, with)
}

/// `<H160 as FromStr>::from_str`: strips one leading `0x`, skips blanks
/// (space, tab, carriage return, line feed) wherever they stand, and decodes
/// what is left as exactly forty hexadecimal digits.
#[verifier::external_body]
pub(crate) fn parse_eth_address(s: &str) -> (r: Option<EthAddress>)
    ensures
        r is Some <==> is_hex_of(s@, 20),
        r matches Some(a) ==> a.bytes@ == bytes_of_hex(s@, 20),
{
    s.parse::<ethers::types::H160>().ok().map(|h| EthAddress { bytes: h.0 })
}

/// `<H256 as FromStr>::from_str`: as for addresses, with sixty-four digits.
#[verifier::external_body]
pub(crate) fn parse_eth_hash(s: &str) -> (r: Option<EthHash>)
    ensures
        r is Some <==> is_hex_of(s@, 32),
        r matches Some(h) ==> h.bytes@ == bytes_of_hex(s@, 32),
{
    s.parse::<ethers::types::H256>().ok().map(|h| EthHash { bytes: h.0 })
}

/// `<H160 as Debug>::fmt`: `0x` and the forty lower-case digits.
#[verifier::external_body]
pub(crate) fn eth_address_text(address: &EthAddress) -> (r: String)
    ensures
        r@ == hex_text(address.bytes@),
{
    format!("{:?}", ethers::types::H160(address.bytes))
}

/// What `ethers::utils::parse_ether` makes of a decimal text: the amount in
/// wei, or nothing where it reports an error.
pub uninterp spec fn ether_amount(text: Seq<char>) -> Option<Wei>;

/// `ethers::utils::parse_ether`. It multiplies without a check once the
/// digits are read, so texts on which that could overflow are left out.
#[verifier::external_body]
pub(crate) fn parse_ether(s: &str) -> (r: Option<Wei>)
    requires
        amount_text_fits(s@, 18),
    ensures
        r == ether_amount(s@),
{
    ethers::utils::parse_ether(s).ok().map(|v| Wei { limbs: v.0 })
}

/// What `ethers::utils::parse_units` makes of a decimal text and a number
/// of decimal places, taken as an unsigned 256-bit number: the amount in
/// the smallest unit, or nothing where it reports an error.
pub uninterp spec fn units_amount(text: Seq<char>, decimals: u8) -> Option<Wei>;

/// `ethers::utils::parse_units`, and the conversion of what it returns to
/// an unsigned number. As `parse_ether`, it is kept from texts on which
/// its scaling could overflow.
#[verifier::external_body]
pub(crate) fn parse_units(s: &str, decimals: u8) -> (r: Option<Wei>)
    requires
        amount_text_fits(s@, decimals as nat),
    ensures
        r == units_amount(s@, decimals),
{
    ethers::utils::parse_units(s, u32::from(decimals)).ok().map(
        |v| Wei { limbs: ethers::types::U256::from(v).0 },
    )
}

/// `ethers::utils::format_units` for an unsigned amount: with fewer than
/// seventy-eight decimal places the whole part, a point, and that many
/// digits of the fraction; with more, an error.
#[verifier::external_body]
pub(crate) fn format_units(amount: &Wei, decimals: u8) -> (r: Option<String>)
    ensures
        r is Some == is_unit_scale(decimals),
        r matches Some(text) ==> text@ == units_text(amount.value(), decimals as nat),
{
    ethers::utils::format_units(ethers::types::U256(amount.limbs), u32::from(decimals)).ok()
}

/// `ethers::utils::format_ether`: the whole ether, a point, and the
/// eighteen digits of the fraction.
#[verifier::external_body]
pub(crate) fn format_ether(amount: &Wei) -> (r: String)
    ensures
        r@ == units_text(amount.value(), 18),
{
    ethers::utils::format_ether(ethers::types::U256(amount.limbs))
}

/// The JSON document that `serde_json::to_value` makes of an `ethers`
/// `TransactionRequest` with these fields; nothing where it fails.
pub uninterp spec fn request_document(
    from: Seq<u8>,
    to: Seq<u8>,
    value: Wei,
    gas: Option<u64>,
    gas_price: Option<Wei>,
    data: Option<Seq<u8>>,
) -> Option<serde_json::Value>;

/// The view of optional bytes.
pub open spec fn optional_bytes(data: Option<Vec<u8>>) -> Option<Seq<u8>> {
    match data {
        Some(bytes) => Some(bytes@),
        None => None,
    }
}

/// `serde_json::to_value` on a `TransactionRequest` filled with the given
/// fields: sender, recipient and value always, the others where given.
#[verifier::external_body]
pub(crate) fn transaction_document(
    from: &EthAddress,
    to: &EthAddress,
    value: Wei,
    gas: Option<u64>,
    gas_price: Option<Wei>,
    data: Option<Vec<u8>>,
) -> (r: Option<serde_json::Value>)
    ensures
        r == request_document(from.bytes@, to.bytes@, value, gas, gas_price, optional_bytes(data)),
{
    let tx = ethers::types::TransactionRequest {
        from: Some(ethers::types::H160(from.bytes)),
        to: Some(ethers::types::NameOrAddress::Address(ethers::types::H160(to.bytes))),
        gas: gas.map(ethers::types::U256::from),
        gas_price: gas_price.map(|p| ethers::types::U256(p.limbs)),
        value: Some(ethers::types::U256(value.limbs)),
        data: data.map(ethers::types::Bytes::from),
        nonce: None,
        chain_id: None,
    };
    serde_json::to_value(&tx).ok()
}

/// The bytes that `serde_json::to_vec` writes for a document; nothing where
/// it fails.
pub uninterp spec fn document_bytes(document: serde_json::Value) -> Option<Seq<u8>>;

/// `serde_json::to_vec`.
#[verifier::external_body]
pub(crate) fn document_to_bytes(document: &serde_json::Value) -> (r: Option<Vec<u8>>)
    ensures
        optional_bytes(r) == document_bytes(*document),
{
    serde_json::to_vec(document).ok()
}

/// The key that `LocalWallet::from_str` reads from a text: its thirty-two
/// secret bytes and the twenty bytes of its address; nothing where the text
/// is refused.
pub uninterp spec fn key_of_text(text: Seq<char>) -> Option<(Seq<u8>, Seq<u8>)>;

/// The view of an optional key: secret bytes and address bytes.
pub open spec fn optional_key(key: Option<([u8; 32], EthAddress)>) -> Option<(Seq<u8>, Seq<u8>)> {
    match key {
        Some((secret, address)) => Some((secret@, address@)),
        None => None,
    }
}

/// `<LocalWallet as FromStr>::from_str`, and the secret and the address of
/// the wallet it returns.
#[verifier::external_body]
pub(crate) fn read_key(s: &str) -> (r: Option<([u8; 32], EthAddress)>)
    ensures
        optional_key(r) == key_of_text(s@),
{
    s.parse::<LocalWallet>().ok().map(
        |w| (w.signer().to_bytes().into(), EthAddress { bytes: ethers::signers::Signer::address(&w).0 }),
    )
}

/// The Keccak-256 digest of `data`.
pub uninterp spec fn keccak256_digest(data: Seq<u8>) -> Seq<u8>;

/// `ethers::utils::keccak256`.
#[verifier::external_body]
pub(crate) fn keccak256(data: &[u8]) -> (r: [u8; 32])
    ensures
        r@ == keccak256_digest(data@),
{
    ethers::utils::keccak256(data)
}

/// `ethers::utils::hash_message`: the Keccak-256 digest of the message
/// behind the prefix of signed Ethereum messages and its length in decimal
/// digits.
#[verifier::external_body]
pub(crate) fn hash_message(message: &[u8]) -> (r: [u8; 32])
    ensures
        r@ == keccak256_digest(signed_message(message@)),
{
    ethers::utils::hash_message(message).0
}

/// The sixty-five bytes (r, s, v) of the signature that the wallet of a
/// secret puts under a hash with `Wallet::sign_hash`; nothing where the
/// secret makes no wallet or signing fails. Signing is deterministic: the
/// nonce is derived from secret and hash.
pub uninterp spec fn hash_signature(secret: Seq<u8>, hash: Seq<u8>) -> Option<Seq<u8>>;

/// `LocalWallet::from_bytes` on the secret, `Wallet::sign_hash` of that
/// wallet on the hash, and `Signature::to_vec` on what it returns.
#[verifier::external_body]
pub(crate) fn sign_hash(secret: &[u8; 32], hash: &[u8; 32]) -> (r: Option<Vec<u8>>)
    ensures
        optional_bytes(r) == hash_signature(secret@, hash@),
{
    let wallet = LocalWallet::from_bytes(secret).ok()?;
    wallet.sign_hash(ethers::types::H256(*hash)).ok().map(|signature| signature.to_vec())
}

} // verus!

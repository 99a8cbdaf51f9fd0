//! Addresses, hashes and amounts of Ethereum as plain bytes and limbs.
use crate::error::WalletError;
use crate::text::{bytes_of_hex, hex_text, is_hex_of};
use crate::trusted::{eth_address_text, parse_eth_address, parse_eth_hash};
use crate::types::{Address, AddressView, ChainId};
use vstd::prelude::*;

verus! {

/// The twenty bytes of an Ethereum account address.
#[derive(Debug, Clone, Copy, PartialEq, Eq)]
pub struct EthAddress {
    pub bytes: [u8; 20],
}

impl View for EthAddress {
    type V = Seq<u8>;

    open spec fn view(&self) -> Seq<u8> {
        self.bytes@
    }
}

/// The bytes that an address text writes, or `InvalidAddress` where it
/// writes no twenty bytes in hexadecimal.
pub open spec fn address_bytes(text: Seq<char>) -> Result<Seq<u8>, WalletError> {
    if is_hex_of(text, 20) {
        Ok(bytes_of_hex(text, 20))
    } else {
        Err(WalletError::InvalidAddress)
    }
}

/// The Ethereum account with the given address bytes: the chain, and the
/// address written as `0x` and forty lower-case hexadecimal digits.
pub open spec fn ethereum_account(address: Seq<u8>) -> AddressView {
    AddressView { chain_id: ChainId::Ethereum, value: hex_text(address) }
}

impl EthAddress {
    /// Reads an address from hexadecimal text. A leading `0x` may be there
    /// or not, digits may be of either case, and blanks are passed over.
    pub fn parse(text: &str) -> (r: Result<Self, WalletError>)
        ensures
            match address_bytes(text@) {
                Ok(bytes) => r matches Ok(a) && a@ == bytes,
                Err(e) => r == Err::<Self, WalletError>(e),
            },
    {
        match parse_eth_address(text) {
            Some(a) => Ok(a),
            None => Err(WalletError::InvalidAddress),
        }
    }

    /// Writes the address as `0x` and forty lower-case hexadecimal digits.
    pub fn to_text(&self) -> (r: String)
        ensures
            r@ == hex_text(self@),
    {
        eth_address_text(self)
    }

    /// The account on Ethereum that has this address.
    pub fn account(&self) -> (r: Address)
        ensures
            r@ == ethereum_account(self@),
    {
        Address::new(ChainId::Ethereum, eth_address_text(self))
    }
}

/// The bytes that a hash text writes, or `InvalidHash` where it writes no
/// thirty-two bytes in hexadecimal.
pub open spec fn hash_bytes(text: Seq<char>) -> Result<Seq<u8>, WalletError> {
    if is_hex_of(text, 32) {
        Ok(bytes_of_hex(text, 32))
    } else {
        Err(WalletError::InvalidHash)
    }
}

/// The thirty-two bytes of an Ethereum transaction hash.
#[derive(Debug, Clone, Copy, PartialEq, Eq)]
pub struct EthHash {
    pub bytes: [u8; 32],
}

impl View for EthHash {
    type V = Seq<u8>;

    open spec fn view(&self) -> Seq<u8> {
        self.bytes@
    }
}

impl EthHash {
    /// Reads a transaction hash from hexadecimal text, as `EthAddress::parse`
    /// reads an address.
    pub fn parse(text: &str) -> (r: Result<Self, WalletError>)
        ensures
            match hash_bytes(text@) {
                Ok(bytes) => r matches Ok(h) && h@ == bytes,
                Err(e) => r == Err::<Self, WalletError>(e),
            },
    {
        match parse_eth_hash(text) {
            Some(h) => Ok(h),
            None => Err(WalletError::InvalidHash),
        }
    }
}

/// An amount of wei: an unsigned 256-bit integer in four 64-bit limbs, the
/// least significant first.
#[derive(Debug, Clone, Copy, PartialEq, Eq)]
pub struct Wei {
    pub limbs: [u64; 4],
}

impl Wei {
    /// The number that the limbs write.
    pub open spec fn value(self) -> nat {
        (self.limbs[0] as nat) + (self.limbs[1] as nat) * 0x1_0000_0000_0000_0000
            + (self.limbs[2] as nat) * 0x1_0000_0000_0000_0000_0000_0000_0000_0000
            + (self.limbs[3] as nat)
            * 0x1_0000_0000_0000_0000_0000_0000_0000_0000_0000_0000_0000_0000
    }

    /// The amount `v`.
    pub fn from_u64(v: u64) -> (r: Self)
        ensures
            r.value() == v,
    {
        Self { limbs: [v, 0, 0, 0] }
    }
}

/// What a node reports of a mined transaction: the number of the block
/// that holds it. There is no receipt without a block.
#[derive(Debug, Clone, Copy, PartialEq, Eq)]
pub struct Receipt {
    pub block_number: u64,
}

/// What the answer of a node to the question for a receipt comes to:
/// `found` holds nothing where the node has no receipt, and else the block
/// number that the receipt names, if it names one. A receipt that names no
/// block is no receipt but a fault of the node.
pub open spec fn receipt_found(found: Option<Option<u64>>) -> Result<Option<Receipt>, Seq<char>> {
    match found {
        None => Ok(None),
        Some(Some(block_number)) => Ok(Some(Receipt { block_number })),
        Some(None) => Err("receipt without block number"@),
    }
}

impl Receipt {
    /// Reads the answer of a node to the question for a receipt.
    pub fn of_node(found: Option<Option<u64>>) -> (r: Result<Option<Receipt>, String>)
        ensures
            match receipt_found(found) {
                Ok(receipt) => r == Ok::<Option<Receipt>, String>(receipt),
                Err(reason) => r matches Err(text) && text@ == reason,
            },
    {
        match found {
            None => Ok(None),
            Some(Some(block_number)) => Ok(Some(Receipt { block_number })),
            Some(None) => Err("receipt without block number".to_owned()),
        }
    }
}

} // verus!

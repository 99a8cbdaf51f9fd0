//! What an ERC-20 token service computes between its calls to the node.
use crate::chain::eth::primitives::Wei;
use crate::error::WalletError;
use crate::text::{amount_fits, amount_text_fits, is_unit_scale, units_text};
use crate::trusted::{format_units, parse_units, units_amount};
use vstd::prelude::*;

verus! {

/// What a token contract says of itself.
#[derive(Debug)]
pub struct TokenInfo {
    pub name: String,
    pub symbol: String,
    pub decimals: u8,
    /// The total supply in whole tokens, as a decimal text.
    pub total_supply: String,
}

impl Clone for TokenInfo {
    fn clone(&self) -> (r: Self)
        ensures
            r == *self,
    {
        Self {
            name: self.name.clone(),
            symbol: self.symbol.clone(),
            decimals: self.decimals,
            total_supply: self.total_supply.clone(),
        }
    }
}

/// An amount of a token's smallest unit written in whole tokens, for a
/// token with `decimals` decimal places; a token with seventy-eight places
/// or more has no such text, as 256 bits do not hold its unit.
pub open spec fn token_text(raw: Wei, decimals: u8) -> Option<Seq<char>> {
    if is_unit_scale(decimals) {
        Some(units_text(raw.value(), decimals as nat))
    } else {
        None
    }
}

/// Writes an amount of a token's smallest unit in whole tokens.
pub fn format_token_amount(raw: &Wei, decimals: u8) -> (r: Result<String, WalletError>)
    ensures
        match token_text(*raw, decimals) {
            Some(text) => r matches Ok(written) && written@ == text,
            None => r == Err::<String, WalletError>(WalletError::InvalidAmount),
        },
{
    match format_units(raw, decimals) {
        Some(text) => Ok(text),
        None => Err(WalletError::InvalidAmount),
    }
}

/// The amount of a token's smallest unit that a decimal text of whole
/// tokens stands for. Texts that are not plain ASCII, or whose whole part is
/// so long that scaling it could leave 256 bits, stand for none.
pub open spec fn token_amount(text: Seq<char>, decimals: u8) -> Option<Wei> {
    if amount_text_fits(text, decimals as nat) {
        units_amount(text, decimals)
    } else {
        None
    }
}

/// Reads an amount of whole tokens as an amount of the smallest unit.
pub fn parse_token_amount(text: &str, decimals: u8) -> (r: Result<Wei, WalletError>)
    ensures
        match token_amount(text@, decimals) {
            Some(raw) => r == Ok::<Wei, WalletError>(raw),
            None => r == Err::<Wei, WalletError>(WalletError::InvalidAmount),
        },
{
    if !amount_fits(text, decimals) {
        return Err(WalletError::InvalidAmount);
    }
    match parse_units(text, decimals) {
        Some(raw) => Ok(raw),
        None => Err(WalletError::InvalidAmount),
    }
}

/// Puts together what a token contract answered: name, symbol and decimal
/// places as they came, the total supply written in whole tokens.
pub fn token_info(name: String, symbol: String, decimals: u8, total_supply: &Wei) -> (r: Result<
    TokenInfo,
    WalletError,
>)
    ensures
        match token_text(*total_supply, decimals) {
            Some(text) => r matches Ok(info) && info.name == name && info.symbol == symbol
                && info.decimals == decimals && info.total_supply@ == text,
            None => r == Err::<TokenInfo, WalletError>(WalletError::InvalidAmount),
        },
{
    match format_token_amount(total_supply, decimals) {
        Ok(total_supply) => Ok(TokenInfo { name, symbol, decimals, total_supply }),
        Err(e) => Err(e),
    }
}

/// What a request to listen is answered with.
pub open spec fn listen_answer(started: bool) -> Seq<char> {
    if started {
        "listening"@
    } else {
        "already listening"@
    }
}

/// The answer to a request to listen to a contract: `listening` where the
/// request started a listener, `already listening` where one was running.
pub fn listen_status(started: bool) -> (r: &'static str)
    ensures
        r@ == listen_answer(started),
{
    if started {
        "listening"
    } else {
        "already listening"
    }
}

} // verus!

use wallet::config::server_config::Config;
use wallet::error::WalletError;
use wallet::types::{Address, Balance, ChainId, TxHash, TxStatus};

#[test]
fn chain_codes_parse_to_their_chain() {
    assert_eq!(ChainId::from_str("eth"), Ok(ChainId::Ethereum));
    assert_eq!(ChainId::from_str("sol"), Ok(ChainId::Solana));
    assert_eq!(ChainId::from_str("btc"), Ok(ChainId::Bitcoin));
    assert_eq!(ChainId::from_str("sui"), Ok(ChainId::Sui));
}

#[test]
fn chain_long_names_parse_to_their_chain() {
    assert_eq!(ChainId::from_str("ethereum"), Ok(ChainId::Ethereum));
    assert_eq!(ChainId::from_str("solana"), Ok(ChainId::Solana));
    assert_eq!(ChainId::from_str("bitcoin"), Ok(ChainId::Bitcoin));
}

#[test]
fn chain_names_ignore_case() {
    assert_eq!(ChainId::from_str("ETH"), Ok(ChainId::Ethereum));
    assert_eq!(ChainId::from_str("Ethereum"), Ok(ChainId::Ethereum));
    assert_eq!(ChainId::from_str("SoLaNa"), Ok(ChainId::Solana));
    assert_eq!(ChainId::from_str("BTC"), Ok(ChainId::Bitcoin));
    assert_eq!(ChainId::from_str("Sui"), Ok(ChainId::Sui));
}

#[test]
fn unknown_chain_names_are_unsupported() {
    assert_eq!(
        ChainId::from_str("doge"),
        Err(WalletError::UnsupportedChain("doge".to_string()))
    );
    assert_eq!(ChainId::from_str(""), Err(WalletError::UnsupportedChain(String::new())));
    assert_eq!(
        ChainId::from_str("eth "),
        Err(WalletError::UnsupportedChain("eth ".to_string()))
    );
    assert_eq!(
        ChainId::from_str("suí"),
        Err(WalletError::UnsupportedChain("suí".to_string()))
    );
    // The long name of Sui is its code: there is no other alias.
    assert_eq!(
        ChainId::from_str("suinetwork"),
        Err(WalletError::UnsupportedChain("suinetwork".to_string()))
    );
}

#[test]
fn chain_codes_are_short_and_lowercase() {
    assert_eq!(ChainId::Ethereum.as_str(), "eth");
    assert_eq!(ChainId::Solana.as_str(), "sol");
    assert_eq!(ChainId::Bitcoin.as_str(), "btc");
    assert_eq!(ChainId::Sui.as_str(), "sui");
    assert_eq!(ChainId::Bitcoin.to_string(), "btc");
}

#[test]
fn chain_code_round_trips_through_parsing() {
    for chain in [ChainId::Ethereum, ChainId::Solana, ChainId::Bitcoin, ChainId::Sui] {
        assert_eq!(ChainId::from_str(chain.as_str()), Ok(chain));
    }
}

#[test]
fn address_keeps_chain_and_text() {
    let a = Address::new(ChainId::Ethereum, "0xabc".to_string());
    assert_eq!(a.chain_id, ChainId::Ethereum);
    assert_eq!(a.value, "0xabc");
    let b = Address::from_str(ChainId::Solana, "So1ana");
    assert_eq!(b.chain_id, ChainId::Solana);
    assert_eq!(b.value, "So1ana");
}

#[test]
fn address_text_is_not_validated() {
    let a = Address::from_str(ChainId::Ethereum, "not an address at all");
    assert_eq!(a.value, "not an address at all");
}

#[test]
fn same_text_on_two_chains_is_two_addresses() {
    let eth = Address::from_str(ChainId::Ethereum, "abc");
    let sol = Address::from_str(ChainId::Solana, "abc");
    assert_ne!(eth, sol);
    assert_eq!(eth, Address::from_str(ChainId::Ethereum, "abc"));
    assert_ne!(eth, Address::from_str(ChainId::Ethereum, "abd"));
    assert_eq!(eth.clone(), eth);
}

#[test]
fn address_is_written_as_code_colon_text() {
    let a = Address::from_str(ChainId::Bitcoin, "1xyz");
    assert_eq!(a.to_string(), "btc:1xyz");
}

#[test]
fn tx_hash_is_written_as_code_colon_text() {
    let h = TxHash::new(ChainId::Ethereum, "0xfeed".to_string());
    assert_eq!(h.chain_id, ChainId::Ethereum);
    assert_eq!(h.value, "0xfeed");
    assert_eq!(h.to_string(), "eth:0xfeed");
    assert_eq!(h.clone(), h);
    assert_ne!(h, TxHash::new(ChainId::Sui, "0xfeed".to_string()));
}

#[test]
fn balance_keeps_its_fields() {
    let b = Balance::new("1.5".to_string(), 18, "ETH".to_string());
    assert_eq!(b.amount, "1.5");
    assert_eq!(b.decimals, 18);
    assert_eq!(b.symbol, "ETH");
    let c = b.clone();
    assert_eq!(c.amount, "1.5");
}

#[test]
fn tx_status_values_are_distinct() {
    assert_ne!(TxStatus::Pending, TxStatus::Confirmed);
    assert_ne!(TxStatus::Failed, TxStatus::NotFound);
    assert_eq!(TxStatus::Confirmed, TxStatus::Confirmed);
}

#[test]
fn error_messages_name_what_went_wrong() {
    assert_eq!(
        WalletError::UnsupportedChain("doge".to_string()).message(),
        "Unsupported chain: doge"
    );
    assert_eq!(WalletError::ChainMismatch.message(), "Chain mismatch");
    assert_eq!(
        WalletError::AdapterNotFound(ChainId::Solana).message(),
        "Chain adapter not found for: sol"
    );
    assert_eq!(WalletError::KeyNotFound.message(), "Key not found");
    assert_eq!(WalletError::InvalidKeyMaterial.message(), "Invalid private key");
    assert_eq!(
        WalletError::NotImplemented(ChainId::Bitcoin).message(),
        "btc adapter not yet implemented"
    );
    assert_eq!(
        WalletError::NetworkError("connection refused".to_string()).message(),
        "Network error: connection refused"
    );
    assert!(WalletError::BroadcastFailed.message().starts_with("Broadcast failed"));
    assert_eq!(WalletError::InvalidAddress.message(), "Invalid address");
    assert_eq!(WalletError::InvalidAmount.message(), "Invalid amount");
    assert_eq!(WalletError::InvalidHash.message(), "Invalid transaction hash");
    assert_eq!(WalletError::EncodingFailed.message(), "Transaction could not be encoded");
    assert_eq!(WalletError::SigningFailed.message(), "Signing failed");
}

#[test]
fn errors_are_never_reported_as_success() {
    let all = [
        WalletError::UnsupportedChain("x".to_string()),
        WalletError::ChainMismatch,
        WalletError::AdapterNotFound(ChainId::Sui),
        WalletError::KeyNotFound,
        WalletError::InvalidKeyMaterial,
        WalletError::NotImplemented(ChainId::Solana),
        WalletError::BroadcastFailed,
        WalletError::NetworkError("x".to_string()),
        WalletError::InvalidAddress,
        WalletError::InvalidAmount,
        WalletError::InvalidHash,
        WalletError::EncodingFailed,
        WalletError::SigningFailed,
    ];
    for error in all {
        let code = error.http_status();
        assert!((400..=599).contains(&code), "{:?}", error);
    }
    assert_eq!(WalletError::ChainMismatch.http_status(), 400);
    assert_eq!(WalletError::AdapterNotFound(ChainId::Sui).http_status(), 404);
    assert_eq!(WalletError::KeyNotFound.http_status(), 404);
    assert_eq!(WalletError::NotImplemented(ChainId::Bitcoin).http_status(), 501);
    assert_eq!(WalletError::BroadcastFailed.http_status(), 502);
    assert_eq!(WalletError::NetworkError("x".to_string()).http_status(), 502);
    assert_eq!(WalletError::SigningFailed.http_status(), 500);
}

#[test]
fn error_clone_is_equal() {
    let e = WalletError::NetworkError("timeout".to_string());
    assert_eq!(e.clone(), e);
    assert_eq!(WalletError::ChainMismatch.clone(), WalletError::ChainMismatch);
}

fn config(eth_url: &str) -> Config {
    Config { dsn: "mysql://localhost/wallet".to_string(), port: 8080, eth_url: eth_url.to_string() }
}

#[test]
fn ws_url_of_plain_http() {
    assert_eq!(config("http://localhost:8545").eth_ws_url(), "ws://localhost:8545");
}

#[test]
fn ws_url_of_https() {
    assert_eq!(
        config("https://mainnet.infura.io/v3/xxx").eth_ws_url(),
        "wss://mainnet.infura.io/v3/xxx"
    );
}

#[test]
fn ws_url_leaves_other_schemes_alone() {
    assert_eq!(config("ws://localhost:8546").eth_ws_url(), "ws://localhost:8546");
    assert_eq!(config("localhost:8545").eth_ws_url(), "localhost:8545");
    assert_eq!(config("").eth_ws_url(), "");
}

#[test]
fn ws_url_replaces_every_occurrence() {
    assert_eq!(
        config("http://proxy/?to=http://node&alt=https://node").eth_ws_url(),
        "ws://proxy/?to=ws://node&alt=wss://node"
    );
}

#[test]
fn config_clone_keeps_fields() {
    let c = config("http://localhost:8545").clone();
    assert_eq!(c.dsn, "mysql://localhost/wallet");
    assert_eq!(c.port, 8080);
    assert_eq!(c.eth_url, "http://localhost:8545");
}

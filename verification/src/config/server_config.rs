//! The configuration of the server.
use crate::text::{
    lemma_shorter_text_is_kept, lemma_text_without_pattern_is_kept, occurs_at, replaced,
};
use crate::trusted::replace_text;
use vstd::prelude::*;

verus! {

/// What the server is started with.
#[derive(Debug)]
pub struct Config {
    /// Data source name of the database.
    pub dsn: String,
    /// The port to listen on.
    pub port: i32,
    /// The HTTP endpoint of the Ethereum node.
    pub eth_url: String,
}

impl Clone for Config {
    fn clone(&self) -> (r: Self)
        ensures
            r == *self,
    {
        Self { dsn: self.dsn.clone(), port: self.port, eth_url: self.eth_url.clone() }
    }
}

/// `url` with every `http://` turned into `ws://` and, in what comes of
/// that, every `https://` into `wss://`.
pub open spec fn ws_url(url: Seq<char>) -> Seq<char> {
    replaced(replaced(url, "http://"@, "ws://"@), "https://"@, "wss://"@)
}

impl Config {
    /// The WebSocket endpoint that belongs to the node's HTTP endpoint:
    /// `http://localhost:8545` gives `ws://localhost:8545`, and
    /// `https://example.org/v3/key` gives `wss://example.org/v3/key`.
    pub fn eth_ws_url(&self) -> (r: String)
        ensures
            r@ == ws_url(self.eth_url@),
    {
        proof {
            reveal_strlit("http://");
            reveal_strlit("https://");
        }
        let plain = replace_text(self.eth_url.as_str(), "http://", "ws://");
        replace_text(plain.as_str(), "https://", "wss://")
    }
}

/// A worked example of `ws_url`, for a plain and for a secured endpoint.
pub proof fn example_ws_url()
    ensures
        ws_url("http://a"@) == "ws://a"@,
        ws_url("https://a"@) == "wss://a"@,
{
    reveal_strlit("http://");
    reveal_strlit("https://");
    reveal_strlit("ws://");
    reveal_strlit("wss://");
    reveal_strlit("http://a");
    reveal_strlit("https://a");
    reveal_strlit("ws://a");
    reveal_strlit("wss://a");
    reveal_with_fuel(replaced, 10);
    let plain = "http://"@;
    let secure = "https://"@;
    // http://a: the first pattern stands at the start, the second nowhere.
    let one = "http://a"@;
    assert(one.subrange(0, 7) =~= plain);
    assert(one.skip(7) =~= seq!['a']);
    assert(replaced(seq!['a'], plain, "ws://"@) =~= seq!['a']) by {
        assert(seq!['a'].skip(1) =~= Seq::<char>::empty());
    }
    assert(replaced(one, plain, "ws://"@) =~= "ws://a"@);
    assert(replaced("ws://a"@, secure, "wss://"@) =~= "ws://a"@) by {
        assert("ws://a"@.len() < secure.len());
        lemma_shorter_text_is_kept("ws://a"@, secure, "wss://"@);
    }
    // https://a: the first pattern stands nowhere, the second at the start.
    let two = "https://a"@;
    assert(replaced(two, plain, "ws://"@) =~= two) by {
        assert forall|i: int| !occurs_at(two, plain, i) by {
            if occurs_at(two, plain, i) {
                let part = two.subrange(i, i + 7);
                assert(part[0] == two[i] && part[4] == two[i + 4]);
                assert(plain[0] == 'h' && plain[4] == ':');
            }
        }
        lemma_text_without_pattern_is_kept(two, plain, "ws://"@);
    }
    assert(two.subrange(0, 8) =~= secure);
    assert(two.skip(8) =~= seq!['a']);
    assert(replaced(seq!['a'], secure, "wss://"@) =~= seq!['a']) by {
        lemma_shorter_text_is_kept(seq!['a'], secure, "wss://"@);
    }
    assert(replaced(two, secure, "wss://"@) =~= "wss://a"@);
}

} // verus!

//! The key store.
use crate::error::WalletError;
use crate::chain::eth::primitives::ethereum_account;
use crate::types::key::{key_in_text, EthereumKey, EthereumKeyView};
use crate::types::{Address, AddressView, ChainId, Key};
use vstd::prelude::*;

verus! {

/// The keys that the process holds, each under the address it signs for.
///
/// Keys are found by the whole address, chain and text, so the same text
/// under another chain finds nothing.
pub struct Keyring {
    entries: Vec<(Address, EthereumKey)>,
}

/// The state of a key store after the key text `text` was imported into
/// `before`, and what the import returned: the key's Ethereum account, with
/// the key stored under it in place of any key that was there; or
/// `InvalidKeyMaterial`, with nothing changed, where the text holds no key.
pub open spec fn imported(before: Map<AddressView, EthereumKeyView>, text: Seq<char>) -> (
    Map<AddressView, EthereumKeyView>,
    Result<AddressView, WalletError>,
) {
    match key_in_text(text) {
        Some(key) => (
            before.insert(ethereum_account(key.address), key),
            Ok(ethereum_account(key.address)),
        ),
        None => (before, Err(WalletError::InvalidKeyMaterial)),
    }
}

/// What a key store in state `store` answers when asked for the key of `address`.
pub open spec fn looked_up(
    store: Map<AddressView, EthereumKeyView>,
    address: AddressView,
) -> Result<EthereumKeyView, WalletError> {
    if store.contains_key(address) {
        Ok(store[address])
    } else {
        Err(WalletError::KeyNotFound)
    }
}

/// Importing the same key text a second time returns what the first import
/// returned and leaves the store as the first import left it.
pub proof fn lemma_import_is_idempotent(before: Map<AddressView, EthereumKeyView>, text: Seq<char>)
    ensures
        imported(imported(before, text).0, text).1 == imported(before, text).1,
        imported(imported(before, text).0, text).0 == imported(before, text).0,
{
    let once = imported(before, text).0;
    assert(imported(once, text).0 =~= once);
}

/// After a successful import the key is found under the address that the
/// import returned, and it is the key of the text.
pub proof fn lemma_imported_key_is_found(
    before: Map<AddressView, EthereumKeyView>,
    text: Seq<char>,
)
    requires
        key_in_text(text) is Some,
    ensures
        imported(before, text).1 matches Ok(address) && looked_up(
            imported(before, text).0,
            address,
        ) == Ok::<EthereumKeyView, WalletError>(key_in_text(text)->0),
{
}

/// An address that was never imported has no key: neither in a new store
/// nor in one that holds other addresses only.
pub proof fn lemma_unknown_address_has_no_key(
    store: Map<AddressView, EthereumKeyView>,
    address: AddressView,
)
    requires
        !store.contains_key(address),
    ensures
        looked_up(store, address) == Err::<EthereumKeyView, WalletError>(WalletError::KeyNotFound),
        looked_up(Map::empty(), address) == Err::<EthereumKeyView, WalletError>(
            WalletError::KeyNotFound,
        ),
{
}

/// Whether every key of a store stands under its own account: the address
/// it is found by is the one that it signs for.
pub open spec fn keys_stand_under_their_accounts(store: Map<AddressView, EthereumKeyView>) -> bool {
    forall|address: AddressView| #[trigger]
        store.contains_key(address) ==> ethereum_account(store[address].address) == address
}

/// Importing keeps every key under its own account.
pub proof fn lemma_import_keeps_keys_under_their_accounts(
    before: Map<AddressView, EthereumKeyView>,
    text: Seq<char>,
)
    requires
        keys_stand_under_their_accounts(before),
    ensures
        keys_stand_under_their_accounts(imported(before, text).0),
{
}

/// Whether the entry at `i` is stored under `address`.
spec fn held_at(entries: Seq<(Address, EthereumKey)>, i: int, address: AddressView) -> bool {
    0 <= i < entries.len() && entries[i].0@ == address
}

/// Whether no address is stored twice.
spec fn distinct(entries: Seq<(Address, EthereumKey)>) -> bool {
    forall|i: int, j: int|
        0 <= i < j < entries.len() ==> (#[trigger] entries[i]).0@ != (#[trigger] entries[j]).0@
}

/// Whether every entry holds a key under the account of that key.
spec fn own_accounts(entries: Seq<(Address, EthereumKey)>) -> bool {
    forall|i: int|
        0 <= i < entries.len() ==> (#[trigger] entries[i]).0@ == ethereum_account(
            entries[i].1@.address,
        )
}

/// The keys of the entries by the address they are stored under.
spec fn keys_of(entries: Seq<(Address, EthereumKey)>) -> Map<AddressView, EthereumKeyView> {
    Map::new(
        |address: AddressView| exists|i: int| held_at(entries, i, address),
        |address: AddressView| entries[choose|i: int| held_at(entries, i, address)].1@,
    )
}

/// Where no address is stored twice, the key under an address is the one of
/// the entry that holds the address.
proof fn lemma_key_at(entries: Seq<(Address, EthereumKey)>, i: int, address: AddressView)
    requires
        distinct(entries),
        held_at(entries, i, address),
    ensures
        keys_of(entries).contains_key(address),
        keys_of(entries)[address] == entries[i].1@,
{
    let k = choose|k: int| held_at(entries, k, address);
    if k < i {
        assert(entries[k].0@ != entries[i].0@);
    } else if i < k {
        assert(entries[i].0@ != entries[k].0@);
    }
}

/// Where no address is stored twice and every entry holds a key under its
/// own account, every key of the store stands under its own account.
proof fn lemma_store_keeps_accounts(entries: Seq<(Address, EthereumKey)>)
    requires
        distinct(entries),
        own_accounts(entries),
    ensures
        keys_stand_under_their_accounts(keys_of(entries)),
{
    assert forall|address: AddressView| #[trigger]
        keys_of(entries).contains_key(address) implies ethereum_account(
        keys_of(entries)[address].address,
    ) == address by {
        let i = choose|i: int| held_at(entries, i, address);
        lemma_key_at(entries, i, address);
    }
}

/// Entries that hold what `before` held, and `key` under `address` besides
/// or instead, have the keys of `before` with `key` put in under `address`.
proof fn lemma_keys_after_put(
    before: Seq<(Address, EthereumKey)>,
    after: Seq<(Address, EthereumKey)>,
    at: int,
    address: AddressView,
    key: EthereumKeyView,
)
    requires
        distinct(before),
        held_at(after, at, address),
        after[at].1@ == key,
        at < before.len() ==> after.len() == before.len() && held_at(before, at, address),
        at >= before.len() ==> after.len() == before.len() + 1 && at == before.len() && forall|
            i: int,
        |
            !held_at(before, i, address),
        forall|i: int| 0 <= i < before.len() && i != at ==> after[i] == before[i],
    ensures
        distinct(after),
        keys_of(after) == keys_of(before).insert(address, key),
{
    assert forall|k: int, a: AddressView|
        held_at(after, k, a) == (held_at(before, k, a) || (k == at && a == address)) by {
        if 0 <= k < before.len() && k != at {
            assert(after[k] == before[k]);
        }
    }
    assert forall|x: int, y: int| 0 <= x < y < after.len() implies (#[trigger] after[x]).0@ != (
    #[trigger] after[y]).0@ by {
        assert(held_at(after, x, after[x].0@));
        assert(held_at(after, y, after[y].0@));
        if x != at && y != at {
            assert(before[x].0@ != before[y].0@);
        } else if at < before.len() {
            assert(held_at(before, x, after[x].0@));
            assert(held_at(before, y, after[y].0@));
            assert(before[x].0@ != before[y].0@);
        } else {
            assert(!held_at(before, x, address));
        }
    }
    let wanted = keys_of(before).insert(address, key);
    assert forall|a: AddressView| #[trigger] wanted.contains_key(a) implies keys_of(
        after,
    ).contains_key(a) && keys_of(after)[a] == wanted[a] by {
        if a == address {
            lemma_key_at(after, at, a);
        } else {
            let k = choose|k: int| held_at(before, k, a);
            lemma_key_at(before, k, a);
            assert(held_at(after, k, a));
            lemma_key_at(after, k, a);
        }
    }
    assert forall|a: AddressView| #[trigger] keys_of(after).contains_key(a) implies wanted.contains_key(
        a,
    ) by {
        let k = choose|k: int| held_at(after, k, a);
        if a != address {
            assert(held_at(before, k, a));
        }
    }
    assert(keys_of(after) =~= wanted);
}

/// The index of the entry stored under `address`, if there is one.
fn position(entries: &Vec<(Address, EthereumKey)>, address: &Address) -> (r: Option<usize>)
    ensures
        match r {
            Some(i) => held_at(entries@, i as int, address@),
            None => forall|i: int| !held_at(entries@, i, address@),
        },
{
    let mut i: usize = 0;
    while i < entries.len()
        invariant
            i <= entries@.len(),
            forall|j: int| 0 <= j < i ==> !held_at(entries@, j, address@),
        decreases entries@.len() - i,
    {
        if entries[i].0 == *address {
            return Some(i);
        }
        i = i + 1;
    }
    None
}

/// Stores `key` under `address`, in place of the key that was there if
/// there was one.
fn put(entries: &mut Vec<(Address, EthereumKey)>, address: Address, key: EthereumKey)
    requires
        distinct(old(entries)@),
        own_accounts(old(entries)@),
        address@ == ethereum_account(key@.address),
    ensures
        distinct(final(entries)@),
        own_accounts(final(entries)@),
        keys_of(final(entries)@) == keys_of(old(entries)@).insert(address@, key@),
{
    let ghost before = entries@;
    match position(entries, &address) {
        Some(i) => {
            entries.set(i, (address, key));
            proof {
                lemma_keys_after_put(before, entries@, i as int, address@, key@);
            }
        },
        None => {
            entries.push((address, key));
            proof {
                lemma_keys_after_put(before, entries@, before.len() as int, address@, key@);
            }
        },
    }
}

impl Keyring {
    /// No address is stored twice, and every key is stored under the
    /// account that it signs for.
    #[verifier::type_invariant]
    closed spec fn wf(self) -> bool {
        distinct(self.entries@) && own_accounts(self.entries@)
    }

    /// The keys by the address they are stored under.
    pub closed spec fn view(&self) -> Map<AddressView, EthereumKeyView> {
        keys_of(self.entries@)
    }

    /// A key store that holds nothing.
    pub fn new() -> (r: Self)
        ensures
            r@ == Map::<AddressView, EthereumKeyView>::empty(),
            keys_stand_under_their_accounts(r@),
    {
        let r = Self { entries: Vec::new() };
        assert(r@ =~= Map::<AddressView, EthereumKeyView>::empty());
        r
    }

    /// Reads a key from the hexadecimal text of its secret and stores it
    /// under its Ethereum account, which it returns. A key already stored
    /// under that account is replaced.
    pub fn add_from_private_key(&mut self, private_key: &str) -> (r: Result<Address, WalletError>)
        ensures
            final(self)@ == imported(old(self)@, private_key@).0,
            match imported(old(self)@, private_key@).1 {
                Ok(address) => r matches Ok(a) && a@ == address,
                Err(e) => r == Err::<Address, WalletError>(e),
            },
            keys_stand_under_their_accounts(old(self)@),
            keys_stand_under_their_accounts(final(self)@),
    {
        proof {
            use_type_invariant(&*self);
            lemma_store_keeps_accounts(self.entries@);
        }
        let key = match EthereumKey::from_private_key(private_key) {
            Ok(key) => key,
            Err(e) => {
                return Err(e);
            },
        };
        let address = match key.address(ChainId::Ethereum) {
            Ok(address) => address,
            Err(e) => {
                return Err(e);
            },
        };
        let mut entries: Vec<(Address, EthereumKey)> = Vec::new();
        core::mem::swap(&mut self.entries, &mut entries);
        put(&mut entries, address.clone(), key);
        core::mem::swap(&mut self.entries, &mut entries);
        proof {
            lemma_store_keeps_accounts(self.entries@);
        }
        Ok(address)
    }

    /// The key stored under `address`. It is the key of that account: the
    /// address that it reports for Ethereum is the one asked for.
    pub fn get_by_address(&self, address: &Address) -> (r: Result<EthereumKey, WalletError>)
        ensures
            match looked_up(self@, address@) {
                Ok(key) => r matches Ok(k) && k@ == key,
                Err(e) => r == Err::<EthereumKey, WalletError>(e),
            },
            r matches Ok(k) ==> ethereum_account(k@.address) == address@,
            keys_stand_under_their_accounts(self@),
    {
        proof {
            use_type_invariant(self);
            lemma_store_keeps_accounts(self.entries@);
        }
        match position(&self.entries, address) {
            Some(i) => {
                proof {
                    lemma_key_at(self.entries@, i as int, address@);
                }
                Ok(self.entries[i].1.clone())
            },
            None => Err(WalletError::KeyNotFound),
        }
    }
}

} // verus!

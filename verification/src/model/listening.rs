//! The record of the token contracts that are listened to.
use crate::chain::eth::primitives::EthAddress;
use vstd::prelude::*;

verus! {

/// The contracts whose transfer events are being listened to. A contract is
/// listened to at most once.
pub struct Listening {
    contracts: Vec<EthAddress>,
}

/// Whether two addresses have the same bytes.
fn same_address(a: &EthAddress, b: &EthAddress) -> (r: bool)
    ensures
        r == (a@ == b@),
{
    let mut i: usize = 0;
    while i < 20
        invariant
            i <= 20,
            forall|j: int| 0 <= j < i ==> a.bytes@[j] == b.bytes@[j],
        decreases 20 - i,
    {
        if a.bytes[i] != b.bytes[i] {
            return false;
        }
        i = i + 1;
    }
    assert(a.bytes@ =~= b.bytes@);
    true
}

impl Listening {
    /// The addresses of the contracts that are listened to.
    pub closed spec fn view(&self) -> Set<Seq<u8>> {
        Set::new(|address: Seq<u8>| exists|i: int| self.holds_at(i, address))
    }

    /// Whether the entry at `i` is `address`.
    closed spec fn holds_at(&self, i: int, address: Seq<u8>) -> bool {
        0 <= i < self.contracts@.len() && self.contracts@[i]@ == address
    }

    /// Nothing is listened to.
    pub fn new() -> (r: Self)
        ensures
            r@ == Set::<Seq<u8>>::empty(),
    {
        let r = Self { contracts: Vec::new() };
        assert(r@ =~= Set::<Seq<u8>>::empty());
        r
    }

    /// Whether `contract` is listened to.
    pub fn contains(&self, contract: &EthAddress) -> (r: bool)
        ensures
            r == self@.contains(contract@),
    {
        let mut i: usize = 0;
        while i < self.contracts.len()
            invariant
                i <= self.contracts@.len(),
                forall|j: int| 0 <= j < i ==> !self.holds_at(j, contract@),
            decreases self.contracts@.len() - i,
        {
            if same_address(&self.contracts[i], contract) {
                assert(self.holds_at(i as int, contract@));
                return true;
            }
            i = i + 1;
        }
        false
    }

    /// Notes that `contract` is listened to from now on, and says whether
    /// that is new: `false` means that a listener is running already and no
    /// second one may be started.
    pub fn begin(&mut self, contract: EthAddress) -> (started: bool)
        ensures
            started == !old(self)@.contains(contract@),
            final(self)@ == old(self)@.insert(contract@),
    {
        if self.contains(&contract) {
            assert(self@ =~= self@.insert(contract@));
            return false;
        }
        let ghost before = *self;
        self.contracts.push(contract);
        proof {
            let n = before.contracts@.len() as int;
            assert forall|k: int, a: Seq<u8>|
                self.holds_at(k, a) == (before.holds_at(k, a) || (k == n && a == contract@)) by {
                if 0 <= k < n {
                    assert(self.contracts@[k] == before.contracts@[k]);
                }
            }
            assert(self.holds_at(n, contract@));
            assert forall|a: Seq<u8>| self@.contains(a) == before@.insert(contract@).contains(
                a,
            ) by {
                if self@.contains(a) {
                    let k = choose|k: int| self.holds_at(k, a);
                    assert(before.holds_at(k, a) || a == contract@);
                }
                if before@.contains(a) {
                    let k = choose|k: int| before.holds_at(k, a);
                    assert(self.holds_at(k, a));
                }
            }
            assert(self@ =~= before@.insert(contract@));
        }
        true
    }
}

} // verus!

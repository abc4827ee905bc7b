//! What the ledger holds: application records, each at its own address.

use vstd::prelude::*;
use crate::address::Address;

verus! {

/// The payload of a registration. It is stored as it is given.
#[derive(Clone, Copy, Debug, PartialEq, Eq, Structural)]
pub struct RegisterOAppParams {
    pub foo: u64,
}

/// The record of a registered application.
#[derive(Clone, Copy, Debug, PartialEq, Eq, Structural)]
pub struct OAppAccount {
    /// The payload that the application registered with.
    pub params: RegisterOAppParams,
    /// The nonce that completes the derivation of the record's address.
    pub bump: u8,
    /// What was paid for the record's storage.
    pub lamports: u64,
}

/// A record together with the address it lives at.
struct Slot {
    address: Address,
    account: OAppAccount,
}

/// The accounts that a list of slots stands for. A later slot would hide an
/// earlier one at the same address; a ledger never holds two such slots.
spec fn slots_map(slots: Seq<Slot>) -> Map<Seq<u8>, OAppAccount>
    decreases slots.len(),
{
    if slots.len() == 0 {
        Map::empty()
    } else {
        slots_map(slots.drop_last()).insert(slots.last().address@, slots.last().account)
    }
}

/// No address occurs in two slots.
spec fn distinct(slots: Seq<Slot>) -> bool {
    forall|i: int, j: int|
        0 <= i < j < slots.len() ==> (#[trigger] slots[i]).address@ != (#[trigger] slots[j]).address@
}

/// An address has an account exactly if some slot carries it, and the
/// account of a slot is the one found at its address.
proof fn lemma_slots_map(slots: Seq<Slot>)
    requires
        distinct(slots),
    ensures
        forall|a: Seq<u8>|
            slots_map(slots).dom().contains(a) <==> exists|i: int|
                0 <= i < slots.len() && (#[trigger] slots[i]).address@ == a,
        forall|i: int|
            0 <= i < slots.len() ==> slots_map(slots)[(#[trigger] slots[i]).address@]
                == slots[i].account,
        slots_map(slots).dom().finite(),
        slots_map(slots).dom().len() == slots.len(),
    decreases slots.len(),
{
    if slots.len() > 0 {
        let front = slots.drop_last();
        let last = slots.last();
        assert forall|i: int, j: int| 0 <= i < j < front.len() implies (#[trigger] front[i]).address@
            != (#[trigger] front[j]).address@ by {
            assert(front[i] == slots[i] && front[j] == slots[j]);
        }
        lemma_slots_map(front);
        assert forall|a: Seq<u8>|
            slots_map(slots).dom().contains(a) <==> exists|i: int|
                0 <= i < slots.len() && (#[trigger] slots[i]).address@ == a by {
            if slots_map(slots).dom().contains(a) {
                if a == last.address@ {
                    assert(slots[slots.len() - 1].address@ == a);
                } else {
                    let i = choose|i: int| 0 <= i < front.len() && (#[trigger] front[i]).address@ == a;
                    assert(slots[i].address@ == a);
                }
            }
            if exists|i: int| 0 <= i < slots.len() && (#[trigger] slots[i]).address@ == a {
                let i = choose|i: int| 0 <= i < slots.len() && (#[trigger] slots[i]).address@ == a;
                if i < front.len() {
                    assert(front[i].address@ == a);
                }
            }
        }
        assert forall|i: int| 0 <= i < slots.len() implies slots_map(slots)[(#[trigger] slots[i]).address@]
            == slots[i].account by {
            if i < front.len() {
                assert(front[i] == slots[i]);
                assert(slots[i].address@ != slots[slots.len() - 1].address@);
            }
        }
        if slots_map(front).dom().contains(last.address@) {
            let i = choose|i: int| 0 <= i < front.len() && (#[trigger] front[i]).address@ == last.address@;
            assert(slots[i].address@ == slots[slots.len() - 1].address@);
        }
    }
}

/// The ledger: the accounts that the endpoint program owns, and the price of
/// storing one more.
pub struct Ledger {
    rent: u64,
    slots: Vec<Slot>,
}

impl View for Ledger {
    type V = Map<Seq<u8>, OAppAccount>;

    /// The account at each occupied address.
    closed spec fn view(&self) -> Map<Seq<u8>, OAppAccount> {
        slots_map(self.slots@)
    }
}

impl Ledger {
    #[verifier::type_invariant]
    spec fn well_formed(&self) -> bool {
        distinct(self.slots@)
    }

    /// What the storage of one record costs.
    pub closed spec fn spec_rent(&self) -> u64 {
        self.rent
    }

    /// A ledger without accounts, on which storing a record costs `rent`.
    pub fn new(rent: u64) -> (ledger: Ledger)
        ensures
            ledger@ == Map::<Seq<u8>, OAppAccount>::empty(),
            ledger.spec_rent() == rent,
    {
        Ledger { rent, slots: Vec::new() }
    }

    /// What the storage of one record costs.
    #[verifier::when_used_as_spec(spec_rent)]
    pub fn rent(&self) -> (rent: u64)
        ensures
            rent == self.spec_rent(),
    {
        self.rent
    }

    /// The number of accounts.
    pub fn len(&self) -> (n: usize)
        ensures
            self@.dom().finite(),
            n == self@.dom().len(),
    {
        proof {
            use_type_invariant(self);
            lemma_slots_map(self.slots@);
        }
        self.slots.len()
    }

    /// The account at `address`, if there is one.
    pub fn get(&self, address: &Address) -> (found: Option<OAppAccount>)
        ensures
            found == if self@.dom().contains(address@) {
                Some(self@[address@])
            } else {
                None
            },
    {
        proof {
            use_type_invariant(self);
            lemma_slots_map(self.slots@);
        }
        let mut found: Option<OAppAccount> = None;
        let mut i: usize = 0;
        while i < self.slots.len() && found.is_none()
            invariant
                i <= self.slots@.len(),
                found is None ==> forall|j: int|
                    0 <= j < i ==> (#[trigger] self.slots@[j]).address@ != address@,
                found is Some ==> exists|j: int|
                    0 <= j < i && (#[trigger] self.slots@[j]).address@ == address@
                        && found == Some(self.slots@[j].account),
            decreases self.slots@.len() - i,
        {
            if self.slots[i].address.same_as(address) {
                found = Some(self.slots[i].account);
            }
            i += 1;
        }
        found
    }

    /// Whether an account exists at `address`.
    pub fn contains(&self, address: &Address) -> (occupied: bool)
        ensures
            occupied == self@.dom().contains(address@),
    {
        self.get(address).is_some()
    }

    /// Creates `account` at `address`, which must be free.
    pub(crate) fn create(&mut self, address: Address, account: OAppAccount)
        requires
            !old(self)@.dom().contains(address@),
        ensures
            final(self)@ == old(self)@.insert(address@, account),
            final(self).spec_rent() == old(self).spec_rent(),
    {
        proof {
            use_type_invariant(&*self);
            lemma_slots_map(self.slots@);
        }
        let ghost before = self.slots@;
        let mut slots: Vec<Slot> = Vec::new();
        core::mem::swap(&mut self.slots, &mut slots);
        slots.push(Slot { address, account });
        proof {
            assert(slots@.drop_last() == before);
            assert forall|i: int, j: int| 0 <= i < j < slots@.len() implies (#[trigger] slots@[i]).address@
                != (#[trigger] slots@[j]).address@ by {
                assert(before[i] == slots@[i]);
                if j < before.len() {
                    assert(before[j] == slots@[j]);
                }
            }
        }
        core::mem::swap(&mut self.slots, &mut slots);
    }
}

} // verus!

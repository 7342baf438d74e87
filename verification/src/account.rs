use vstd::prelude::*;

verus! {

/// A fixed-size public identifier of a ledger account: a mint, an owner or a
/// token account. Two identifiers are the same account exactly when their
/// bytes agree.
#[derive(Clone, Copy, Debug, Eq, Hash)]
pub struct AccountId {
    pub bytes: [u8; 32],
}

impl View for AccountId {
    type V = Seq<u8>;

    open spec fn view(&self) -> Seq<u8> {
        self.bytes@
    }
}

impl PartialEq for AccountId {
    fn eq(&self, other: &AccountId) -> (r: bool) {
        let mut i: usize = 0;
        while i < 32
            invariant
                i <= 32,
                forall|k: int| 0 <= k < i ==> self.bytes@[k] == other.bytes@[k],
            decreases 32 - i,
        {
            if self.bytes[i] != other.bytes[i] {
                return false;
            }
            i += 1;
        }
        proof {
            assert(self.bytes@ =~= other.bytes@);
        }
        true
    }
}

impl vstd::std_specs::cmp::PartialEqSpecImpl for AccountId {
    open spec fn obeys_eq_spec() -> bool {
        true
    }

    open spec fn eq_spec(&self, other: &AccountId) -> bool {
        self@ == other@
    }
}

impl AccountId {
    /// The identifier made of the given bytes.
    pub fn new(bytes: [u8; 32]) -> (id: AccountId)
        ensures
            id.bytes == bytes,
            id@ == bytes@,
    {
        AccountId { bytes }
    }

    /// Whether `other` is this very account.
    pub fn is(&self, other: &AccountId) -> (r: bool)
        ensures
            r == (*self == *other),
    {
        proof {
            AccountId::lemma_view_injective(*self, *other);
        }
        *self == *other
    }

    /// Identifiers with the same bytes are the same identifier.
    pub proof fn lemma_view_injective(a: AccountId, b: AccountId)
        ensures
            (a@ == b@) <==> (a == b),
            a@.len() == 32,
    {
        if a@ == b@ {
            assert(a.bytes@ =~= b.bytes@);
            assert(a.bytes == b.bytes);
        }
    }
}

} // verus!

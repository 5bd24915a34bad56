use vstd::prelude::*;

verus! {

/// A 32-byte identity: a user, a vault or a payout destination.
#[derive(Clone, Copy, Debug, PartialEq, Eq)]
pub struct Address {
    pub bytes: [u8; 32],
}

impl View for Address {
    type V = Seq<u8>;

    open spec fn view(&self) -> Seq<u8> {
        self.bytes@
    }
}

impl Address {
    /// True of the all-zero identity only, which stands for "none".
    pub open spec fn is_none(&self) -> bool {
        forall|k: int| 0 <= k < 32 ==> self.bytes[k] == 0u8
    }

    /// The all-zero identity.
    pub fn none() -> (r: Address)
        ensures
            r.is_none(),
    {
        Address { bytes: [0u8; 32] }
    }

    /// Two identities are the same when all 32 bytes agree.
    pub fn same(&self, other: &Address) -> (r: bool)
        ensures
            r == (*self == *other),
    {
        let mut i: usize = 0;
        while i < 32
            invariant
                i <= 32,
                forall|k: int| 0 <= k < i ==> self.bytes[k] == other.bytes[k],
            decreases 32 - i,
        {
            if self.bytes[i] != other.bytes[i] {
                return false;
            }
            i += 1;
        }
        assert(self.bytes =~= other.bytes);
        true
    }

    /// Whether this is the all-zero identity.
    pub fn is_default(&self) -> (r: bool)
        ensures
            r == self.is_none(),
    {
        let zero = Address::none();
        let r = self.same(&zero);
        proof {
            if self.is_none() {
                assert(self.bytes =~= zero.bytes);
            }
        }
        r
    }
}

} // verus!

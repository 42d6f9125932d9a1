//! Addresses of accounts and programs.
use vstd::prelude::*;

verus! {

/// The address of an account or a program: 32 bytes.
#[derive(Debug, Clone, Copy, Eq)]
pub struct Pubkey {
    pub bytes: [u8; 32],
}

impl View for Pubkey {
    type V = Seq<u8>;

    open spec fn view(&self) -> Seq<u8> {
        self.bytes@
    }
}

impl vstd::std_specs::cmp::PartialEqSpecImpl for Pubkey {
    open spec fn obeys_eq_spec() -> bool {
        true
    }

    /// Two addresses are equal when all their bytes are.
    open spec fn eq_spec(&self, other: &Pubkey) -> bool {
        *self == *other
    }
}

impl PartialEq for Pubkey {
    fn eq(&self, other: &Pubkey) -> (same: bool) {
        let mut i: usize = 0;
        while i < 32
            invariant
                i <= 32,
                forall|j: int| 0 <= j < i ==> self.bytes@[j] == other.bytes@[j],
            decreases 32 - i,
        {
            if self.bytes[i] != other.bytes[i] {
                return false;
            }
            i = i + 1;
        }
        assert(self.bytes =~= other.bytes);
        true
    }
}

/// An address is determined by its bytes.
pub proof fn pubkey_determined_by_bytes(a: Pubkey, b: Pubkey)
    ensures
        a@ == b@ <==> a == b,
{
    if a@ == b@ {
        assert forall|j: int| 0 <= j < 32 implies a.bytes[j] == b.bytes[j] by {
            assert(a@[j] == b@[j]);
        }
        assert(a.bytes =~= b.bytes);
    }
}

} // verus!

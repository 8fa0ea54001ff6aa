use vstd::prelude::*;

verus! {

broadcast use vstd::array::group_array_axioms;

/// An opaque 32-byte identity: a wallet, a token mint, or a derived account
/// address. The engine never inspects the bytes; it only compares them.
#[derive(Clone, Copy, Debug)]
pub struct AccountId {
    pub bytes: [u8; 32],
}

/// Two identities are the same exactly when all of their bytes agree.
pub fn id_eq(a: &AccountId, b: &AccountId) -> (r: bool)
    ensures
        r <==> *a == *b,
{
    let mut i: usize = 0;
    while i < 32
        invariant
            i <= 32,
            forall|j: int| 0 <= j < i ==> a.bytes@[j] == b.bytes@[j],
        decreases 32 - i,
    {
        if a.bytes[i] != b.bytes[i] {
            return false;
        }
        i += 1;
    }
    proof {
        assert(a.bytes =~= b.bytes);
    }
    true
}

/// Two identities are equal values exactly when their byte views agree.
pub proof fn lemma_id_eq_bytes(a: AccountId, b: AccountId)
    ensures
        (a == b) <==> (a.bytes@ == b.bytes@),
{
    if a.bytes@ == b.bytes@ {
        assert(a.bytes =~= b.bytes);
    }
}

} // verus!

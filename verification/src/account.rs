use vstd::prelude::*;

verus! {

/// The facts about one account that the host hands to a handler, as plain
/// values: its address, the program that owns it, its capability flags, and
/// its raw data region. Every field is attacker-controlled input; the
/// validator re-checks everything a handler relies on.
#[derive(Clone, Debug, PartialEq, Eq)]
pub struct Account {
    /// The account's address (a 32-byte public key).
    pub key: [u8; 32],
    /// The identity of the program that owns this account.
    pub owner: [u8; 32],
    /// Whether the transaction carries this account's signature.
    pub is_signer: bool,
    /// Whether the handler is allowed to mutate this account.
    pub is_writable: bool,
    /// Whether the account is marked as executable code.
    pub executable: bool,
    /// The account's persisted data region.
    pub data: Vec<u8>,
}

/// Compares two 32-byte public keys for equality.
pub fn bytes32_eq(a: &[u8; 32], b: &[u8; 32]) -> (r: bool)
    ensures
        r == (a@ == b@),
{
    let mut i: usize = 0;
    while i < 32
        invariant
            i <= 32,
            forall|j: int| 0 <= j < i ==> a@[j] == b@[j],
        decreases 32 - i,
    {
        if a[i] != b[i] {
            return false;
        }
        i += 1;
    }
    proof {
        assert(a@ =~= b@);
    }
    true
}

} // verus!

use vstd::prelude::*;
use vstd::array::array_as_slice;
use vstd::bytes::{spec_u64_to_le_bytes, u64_to_le_bytes};
use vstd::slice::slice_to_vec;

verus! {

/// What the external address deriver returns for a given ordered seed set and
/// program identity: the derived address, or nothing when no valid derivation
/// exists. The result is a function of the arguments alone, so the same seeds
/// and program identity always yield the same address.
pub uninterp spec fn derived_address(seeds: Seq<Seq<u8>>, program_id: Seq<u8>) -> Option<Seq<u8>>;

/// Relies on solana_pubkey::Pubkey::derive_program_address: it computes the
/// derived address and its collision-avoidance nonce by hashing the seeds and
/// the program identity alone, so the result is a function of its arguments;
/// it returns None (instead of panicking) when the seed set is oversized or no
/// valid derivation exists.
#[verifier::external_body]
fn derive_address_raw<const N: usize>(seeds: &[Vec<u8>; N], program_id: &[u8; 32]) -> (r: Option<
    [u8; 32],
>)
    ensures
        match r {
            Some(a) => derived_address(seeds@.map_values(|s: Vec<u8>| s@), program_id@) == Some(
                a@,
            ),
            None => derived_address(seeds@.map_values(|s: Vec<u8>| s@), program_id@) is None,
        },
{
    let refs: [&[u8]; N] = core::array::from_fn(|i| seeds[i].as_slice());
    let pid = solana_pubkey::Pubkey::new_from_array(*program_id);
    match solana_pubkey::Pubkey::derive_program_address(&refs, &pid) {
        Some((addr, _nonce)) => Some(addr.to_bytes()),
        None => None,
    }
}

/// The seed tag that starts every profile derivation: the bytes of "user".
pub open spec fn user_tag() -> Seq<u8> {
    seq![117u8, 115u8, 101u8, 114u8]
}

/// The seed tag that starts every post derivation: the bytes of "post".
pub open spec fn post_tag() -> Seq<u8> {
    seq![112u8, 111u8, 115u8, 116u8]
}

/// The ordered seed set that binds a profile's address to its owner.
pub open spec fn user_seeds(owner: Seq<u8>) -> Seq<Seq<u8>> {
    seq![user_tag(), owner]
}

/// The ordered seed set that binds a post's address to its author and its
/// sequence number.
pub open spec fn post_seeds(author: Seq<u8>, index: u64) -> Seq<Seq<u8>> {
    seq![post_tag(), author, spec_u64_to_le_bytes(index)]
}

/// The bytes of "user" as an owned vector.
fn user_tag_vec() -> (r: Vec<u8>)
    ensures
        r@ == user_tag(),
{
    let mut v: Vec<u8> = Vec::new();
    v.push(117);
    v.push(115);
    v.push(101);
    v.push(114);
    proof {
        assert(v@ =~= user_tag());
    }
    v
}

/// The bytes of "post" as an owned vector.
fn post_tag_vec() -> (r: Vec<u8>)
    ensures
        r@ == post_tag(),
{
    let mut v: Vec<u8> = Vec::new();
    v.push(112);
    v.push(111);
    v.push(115);
    v.push(116);
    proof {
        assert(v@ =~= post_tag());
    }
    v
}

/// Derives the address that a profile owned by `owner` must live at.
pub fn derive_user_address(owner: &[u8; 32], program_id: &[u8; 32]) -> (r: Option<[u8; 32]>)
    ensures
        match r {
            Some(a) => derived_address(user_seeds(owner@), program_id@) == Some(a@),
            None => derived_address(user_seeds(owner@), program_id@) is None,
        },
{
    let seeds: [Vec<u8>; 2] = [user_tag_vec(), slice_to_vec(array_as_slice(owner))];
    proof {
        assert(seeds@.map_values(|s: Vec<u8>| s@) =~= user_seeds(owner@));
    }
    derive_address_raw(&seeds, program_id)
}

/// Derives the address that the post with the given author and sequence
/// number must live at.
pub fn derive_post_address(author: &[u8; 32], index: u64, program_id: &[u8; 32]) -> (r: Option<
    [u8; 32],
>)
    ensures
        match r {
            Some(a) => derived_address(post_seeds(author@, index), program_id@) == Some(a@),
            None => derived_address(post_seeds(author@, index), program_id@) is None,
        },
{
    let seeds: [Vec<u8>; 3] = [
        post_tag_vec(),
        slice_to_vec(array_as_slice(author)),
        u64_to_le_bytes(index),
    ];
    proof {
        assert(seeds@.map_values(|s: Vec<u8>| s@) =~= post_seeds(author@, index));
    }
    derive_address_raw(&seeds, program_id)
}

/// The deriver is deterministic: equal seed sets and equal program
/// identities always give equal results.
pub proof fn lemma_derived_address_deterministic(
    seeds1: Seq<Seq<u8>>,
    pid1: Seq<u8>,
    seeds2: Seq<Seq<u8>>,
    pid2: Seq<u8>,
)
    requires
        seeds1 == seeds2,
        pid1 == pid2,
    ensures
        derived_address(seeds1, pid1) == derived_address(seeds2, pid2),
{
}

} // verus!

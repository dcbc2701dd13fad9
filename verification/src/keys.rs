//! Account addresses as plain 32-byte values.
use vstd::prelude::*;

verus! {

/// An account address: the 32 bytes of a Solana public key.
pub type Key = [u8; 32];

/// Compares two addresses byte by byte.
pub fn keys_equal(a: &Key, b: &Key) -> (r: bool)
    ensures
        r == (a@ == b@),
{
    let mut i: usize = 0;
    while i < 32
        invariant
            0 <= i <= 32,
            a@.len() == 32,
            b@.len() == 32,
            forall|j: int| 0 <= j < i ==> a@[j] == b@[j],
        decreases 32 - i,
    {
        if a[i] != b[i] {
            return false;
        }
        i = i + 1;
    }
    assert(a@ =~= b@);
    true
}

/// The ASCII bytes of `"vault"`, the seed with which the SOL vault, the
/// counter and the staking vault derive their addresses.
pub open spec fn vault_seed_bytes() -> Seq<u8> {
    seq![118u8, 97u8, 117u8, 108u8, 116u8]
}

/// Returns the bytes of the `"vault"` seed.
pub fn vault_seed() -> (s: Vec<u8>)
    ensures
        s@ == vault_seed_bytes(),
{
    vec![118u8, 97u8, 117u8, 108u8, 116u8]
}

/// The bytes of an address as a vector.
pub fn key_bytes(k: &Key) -> (v: Vec<u8>)
    ensures
        v@ == k@,
{
    let mut v: Vec<u8> = Vec::new();
    let mut i: usize = 0;
    while i < 32
        invariant
            0 <= i <= 32,
            k@.len() == 32,
            v@ == k@.subrange(0, i as int),
        decreases 32 - i,
    {
        v.push(k[i]);
        i = i + 1;
        assert(v@ =~= k@.subrange(0, i as int));
    }
    assert(k@.subrange(0, 32) =~= k@);
    v
}

/// The seeds with which an account derived from `"vault"`, an owner's key
/// and a bump signs: `["vault", owner, [bump]]`.
pub fn vault_signer_seeds(owner: &Key, bump: u8) -> (seeds: Vec<Vec<u8>>)
    ensures
        seeds@.len() == 3,
        seeds@[0]@ == vault_seed_bytes(),
        seeds@[1]@ == owner@,
        seeds@[2]@ == seq![bump],
{
    let mut seeds: Vec<Vec<u8>> = Vec::new();
    seeds.push(vault_seed());
    seeds.push(key_bytes(owner));
    let last: Vec<u8> = vec![bump];
    seeds.push(last);
    seeds
}

} // verus!

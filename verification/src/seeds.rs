use crate::pubkey::{create_program_address, program_address, seed_bytes, Pubkey};
use vstd::math::min;
use vstd::prelude::*;
use vstd::slice::slice_to_vec;
use vstd::string::StringSliceAdditionalSpecFns;

verus! {

/// Longest seed, in bytes, that the address derivation accepts.
pub const MAX_SEED_LEN: usize = 32;

/// Most seeds that the address derivation accepts.
pub const MAX_SEEDS: usize = 16;

/// First seed of every pool address: the ASCII bytes of `pool`.
pub const POOL_TAG: [u8; 4] = [112, 111, 111, 108];

/// The seed that stands for a pool's name: the first 32 bytes of its
/// UTF-8 encoding, or all of it where it is shorter.
pub open spec fn name_seed_spec(name: Seq<u8>) -> Seq<u8> {
    name.take(min(MAX_SEED_LEN as int, name.len() as int))
}

/// The bytes of a text in which every character is ASCII: one byte for
/// each character.
pub open spec fn ascii_bytes(text: Seq<char>) -> Seq<u8> {
    Seq::new(text.len(), |i: int| text[i] as u8)
}

/// The seeds of the pool that `owner` holds under `name`: the tag, the
/// owner's address, the name's seed, and the bump last.
pub open spec fn pool_seeds_spec(owner: Seq<u8>, name: Seq<u8>, bump: u8) -> Seq<Seq<u8>> {
    seq![POOL_TAG@, owner, name_seed_spec(name), seq![bump]]
}

/// The address of the pool that `owner` holds under `name`, where the bump
/// yields one.
pub open spec fn pool_address(program_id: Pubkey, owner: Pubkey, name: Seq<u8>, bump: u8) -> Option<
    Seq<u8>,
> {
    program_address(pool_seeds_spec(owner@, name, bump), program_id@)
}

/// An address, where there is one, as its bytes.
pub open spec fn address_bytes(address: Option<Pubkey>) -> Option<Seq<u8>> {
    match address {
        Some(key) => Some(key@),
        None => None,
    }
}

/// Cuts a pool's name down to the bytes that enter the address derivation.
/// In a name of ASCII characters each character is one of the bytes.
pub fn name_seed(name: &str) -> (seed: &[u8])
    ensures
        seed@ == name_seed_spec(name.spec_bytes()),
        name.is_ascii() ==> seed@ == name_seed_spec(ascii_bytes(name@)),
{
    let b = name.as_bytes();
    if b.len() > MAX_SEED_LEN {
        &b[0..MAX_SEED_LEN]
    } else {
        b
    }
}

/// The seeds of the pool that `owner` holds under `name`, with the bump
/// last.
pub fn pool_seeds(owner: &Pubkey, name: &str, bump: u8) -> (seeds: Vec<Vec<u8>>)
    ensures
        seeds@.len() == 4,
        seed_bytes(seeds@) == pool_seeds_spec(owner@, name.spec_bytes(), bump),
        name.is_ascii() ==> seed_bytes(seeds@) == pool_seeds_spec(owner@, ascii_bytes(name@), bump),
{
    let mut seeds: Vec<Vec<u8>> = Vec::new();
    seeds.push(slice_to_vec(POOL_TAG.as_slice()));
    seeds.push(slice_to_vec(owner.bytes.as_slice()));
    seeds.push(slice_to_vec(name_seed(name)));
    seeds.push(vec![bump]);
    proof {
        let got = seed_bytes(seeds@);
        let want = pool_seeds_spec(owner@, name.spec_bytes(), bump);
        assert(got[3] =~= want[3]);
    }
    seeds
}

/// Derives the address of the pool that `owner` holds under `name` with the
/// bump that the caller supplies; no bump is searched for. There is no
/// address where the bump does not yield one.
pub fn derive_pool_address(program_id: &Pubkey, owner: &Pubkey, name: &str, bump: u8) -> (address:
    Option<Pubkey>)
    ensures
        address_bytes(address) == pool_address(*program_id, *owner, name.spec_bytes(), bump),
{
    let seeds = pool_seeds(owner, name, bump);
    match create_program_address(&seeds, program_id) {
        Ok(key) => Some(key),
        Err(_) => None,
    }
}

/// Cutting a name down a second time changes nothing.
pub proof fn lemma_name_seed_idempotent(name: Seq<u8>)
    ensures
        name_seed_spec(name_seed_spec(name)) == name_seed_spec(name),
{
}

/// The seed of a name is never longer than 32 bytes, begins the name, and
/// is the whole name where the name has no more than 32 bytes.
pub proof fn lemma_name_seed_is_prefix(name: Seq<u8>)
    ensures
        name_seed_spec(name).len() <= MAX_SEED_LEN,
        name_seed_spec(name).is_prefix_of(name),
        name.len() <= MAX_SEED_LEN ==> name_seed_spec(name) == name,
{
}

/// Whatever the name, the seeds of a pool are within the limits of the
/// address derivation: not more than 16 seeds, none longer than 32 bytes.
pub proof fn lemma_pool_seeds_within_limits(owner: Pubkey, name: Seq<u8>, bump: u8)
    ensures
        pool_seeds_spec(owner@, name, bump).len() <= MAX_SEEDS,
        forall|i: int|
            0 <= i < pool_seeds_spec(owner@, name, bump).len() ==> (#[trigger] pool_seeds_spec(
                owner@,
                name,
                bump,
            )[i]).len() <= MAX_SEED_LEN,
{
}

/// Two names that agree in their first 32 bytes stand for the same pool of
/// an owner: they derive one address.
pub proof fn lemma_same_seed_same_address(
    program_id: Pubkey,
    owner: Pubkey,
    name: Seq<u8>,
    other: Seq<u8>,
    bump: u8,
)
    requires
        name_seed_spec(name) == name_seed_spec(other),
    ensures
        pool_address(program_id, owner, name, bump) == pool_address(program_id, owner, other, bump),
{
}

} // verus!

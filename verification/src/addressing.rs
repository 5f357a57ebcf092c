use vstd::prelude::*;
use crate::bytes::{clone_bytes, u64_le_bytes, u64_le_seq};
use crate::identity::Identity;

verus! {

/// What `Pubkey::create_program_address` of anchor_lang returns for the
/// given seeds and program id: the derived record address, or nothing
/// where the seeds are unusable (too many, one too long, or a derivation
/// that lands on the ed25519 curve). The result is a function of the
/// arguments alone.
pub uninterp spec fn program_address_of(seeds: Seq<Seq<u8>>, program_id: Seq<u8>) -> Option<
    Seq<u8>,
>;

/// What `Pubkey::try_find_program_address` of anchor_lang returns for the
/// given seeds and program id: the first derivable address found while
/// counting a disambiguation byte down from 255, together with that byte,
/// or nothing where no byte yields an address. The result is a function of
/// the arguments alone.
pub uninterp spec fn found_program_address(seeds: Seq<Seq<u8>>, program_id: Seq<u8>) -> Option<
    (Seq<u8>, u8),
>;

/// The byte sequences that a vector of seed vectors holds.
pub open spec fn seeds_view(seeds: Seq<Vec<u8>>) -> Seq<Seq<u8>> {
    seeds.map_values(|s: Vec<u8>| s@)
}

/// Relies on `Pubkey::create_program_address` of anchor_lang: it hashes
/// the seeds with the program id into an address, deterministically, and
/// reports unusable seeds as an error.
#[verifier::external_body]
pub(crate) fn create_program_address(seeds: &Vec<Vec<u8>>, program_id: &Identity) -> (r: Option<
    Identity,
>)
    requires
        program_id@.len() == 32,
    ensures
        (match r {
            Some(a) => Some(a@),
            None => None::<Seq<u8>>,
        }) == program_address_of(seeds_view(seeds@), program_id@),
        r matches Some(a) ==> a@.len() == 32,
{
    let pid_bytes: [u8; 32] = program_id.bytes.as_slice().try_into().unwrap();
    let pid = anchor_lang::prelude::Pubkey::new_from_array(pid_bytes);
    let slices: Vec<&[u8]> = seeds.iter().map(|s| s.as_slice()).collect();
    match anchor_lang::prelude::Pubkey::create_program_address(&slices, &pid) {
        Ok(addr) => Some(Identity { bytes: addr.to_bytes().to_vec() }),
        Err(_) => None,
    }
}

/// Relies on `Pubkey::try_find_program_address` of anchor_lang: it counts
/// a disambiguation byte down from 255 and returns the first address that
/// `create_program_address` derives from the seeds extended with that
/// byte, deterministically.
#[verifier::external_body]
pub(crate) fn find_program_address(seeds: &Vec<Vec<u8>>, program_id: &Identity) -> (r: Option<
    (Identity, u8),
>)
    requires
        program_id@.len() == 32,
    ensures
        (match r {
            Some((a, b)) => Some((a@, b)),
            None => None::<(Seq<u8>, u8)>,
        }) == found_program_address(seeds_view(seeds@), program_id@),
        r matches Some((a, b)) ==> a@.len() == 32 && program_address_of(
            seeds_view(seeds@).push(seq![b]),
            program_id@,
        ) == Some(a@),
{
    let pid_bytes: [u8; 32] = program_id.bytes.as_slice().try_into().unwrap();
    let pid = anchor_lang::prelude::Pubkey::new_from_array(pid_bytes);
    let slices: Vec<&[u8]> = seeds.iter().map(|s| s.as_slice()).collect();
    match anchor_lang::prelude::Pubkey::try_find_program_address(&slices, &pid) {
        Some((addr, bump)) => Some((Identity { bytes: addr.to_bytes().to_vec() }, bump)),
        None => None,
    }
}

/// The namespace tag of pool records: the bytes of "pool".
pub open spec fn pool_tag() -> Seq<u8> {
    seq![112u8, 111u8, 111u8, 108u8]
}

/// The namespace tag of participant records: the bytes of "participant".
pub open spec fn participant_tag() -> Seq<u8> {
    seq![112u8, 97u8, 114u8, 116u8, 105u8, 99u8, 105u8, 112u8, 97u8, 110u8, 116u8]
}

/// The seeds a pool record is derived from, before the disambiguation
/// byte: the pool tag, the creator, and the pool id in little-endian
/// bytes.
pub open spec fn pool_base_seeds(creator: Seq<u8>, pool_id: u64) -> Seq<Seq<u8>> {
    seq![pool_tag(), creator, u64_le_seq(pool_id)]
}

/// The full seeds of a pool record: the base seeds extended with the
/// disambiguation byte.
pub open spec fn pool_seeds(creator: Seq<u8>, pool_id: u64, bump: u8) -> Seq<Seq<u8>> {
    pool_base_seeds(creator, pool_id).push(seq![bump])
}

/// The seeds a participant record is derived from, before the
/// disambiguation byte: the participant tag, the pool address, and the
/// user.
pub open spec fn participant_seeds(pool: Seq<u8>, user: Seq<u8>) -> Seq<Seq<u8>> {
    seq![participant_tag(), pool, user]
}

fn pool_tag_bytes() -> (r: Vec<u8>)
    ensures
        r@ == pool_tag(),
{
    let mut v: Vec<u8> = Vec::new();
    v.push(112u8);
    v.push(111u8);
    v.push(111u8);
    v.push(108u8);
    proof {
        assert(v@ =~= pool_tag());
    }
    v
}

fn participant_tag_bytes() -> (r: Vec<u8>)
    ensures
        r@ == participant_tag(),
{
    let mut v: Vec<u8> = Vec::new();
    v.push(112u8);
    v.push(97u8);
    v.push(114u8);
    v.push(116u8);
    v.push(105u8);
    v.push(99u8);
    v.push(105u8);
    v.push(112u8);
    v.push(97u8);
    v.push(110u8);
    v.push(116u8);
    proof {
        assert(v@ =~= participant_tag());
    }
    v
}

/// The executable pool base seeds, matching `pool_base_seeds`.
pub(crate) fn build_pool_base_seeds(creator: &Identity, pool_id: u64) -> (r: Vec<Vec<u8>>)
    ensures
        seeds_view(r@) == pool_base_seeds(creator@, pool_id),
{
    let mut r: Vec<Vec<u8>> = Vec::new();
    r.push(pool_tag_bytes());
    r.push(creator.to_vec());
    r.push(u64_le_bytes(pool_id));
    proof {
        assert(seeds_view(r@) =~~= pool_base_seeds(creator@, pool_id));
    }
    r
}

/// The executable pool seeds, matching `pool_seeds`.
pub(crate) fn build_pool_seeds(creator: &Identity, pool_id: u64, bump: u8) -> (r: Vec<Vec<u8>>)
    ensures
        seeds_view(r@) == pool_seeds(creator@, pool_id, bump),
{
    let mut r = build_pool_base_seeds(creator, pool_id);
    let mut bump_bytes: Vec<u8> = Vec::new();
    bump_bytes.push(bump);
    r.push(bump_bytes);
    proof {
        assert(seeds_view(r@) =~~= pool_seeds(creator@, pool_id, bump));
    }
    r
}

/// The executable participant seeds, matching `participant_seeds`.
pub(crate) fn build_participant_seeds(pool: &Identity, user: &Identity) -> (r: Vec<Vec<u8>>)
    ensures
        seeds_view(r@) == participant_seeds(pool@, user@),
{
    let mut r: Vec<Vec<u8>> = Vec::new();
    r.push(participant_tag_bytes());
    r.push(pool.to_vec());
    r.push(user.to_vec());
    proof {
        assert(seeds_view(r@) =~~= participant_seeds(pool@, user@));
    }
    r
}

} // verus!

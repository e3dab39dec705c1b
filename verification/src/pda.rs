use vstd::prelude::*;

use crate::codec::{push_u64_le, spec_u64_le};
use crate::pubkey::Pubkey;

verus! {

/// The byte prefix under which schedule addresses are derived:
/// the ASCII bytes of "vest_schedule".
pub open spec fn spec_schedule_seed_prefix() -> Seq<u8> {
    seq![118u8, 101u8, 115u8, 116u8, 95u8, 115u8, 99u8, 104u8, 101u8, 100u8, 117u8, 108u8, 101u8]
}

/// The byte prefix under which participant-record addresses are derived:
/// the ASCII bytes of "vest_participant".
pub open spec fn spec_participant_seed_prefix() -> Seq<u8> {
    seq![
        118u8,
        101u8,
        115u8,
        116u8,
        95u8,
        112u8,
        97u8,
        114u8,
        116u8,
        105u8,
        99u8,
        105u8,
        112u8,
        97u8,
        110u8,
        116u8,
    ]
}

/// The seed list a schedule's address is derived from: the schedule prefix,
/// the little-endian seed, the asset, and the authority.
pub open spec fn spec_schedule_seeds(seed: u64, mint: Seq<u8>, authority: Seq<u8>) -> Seq<Seq<u8>> {
    seq![spec_schedule_seed_prefix(), spec_u64_le(seed), mint, authority]
}

/// The seed list a participant record's address is derived from: the
/// participant prefix, the participant, and the schedule account.
pub open spec fn spec_participant_seeds(participant: Seq<u8>, schedule: Seq<u8>) -> Seq<Seq<u8>> {
    seq![spec_participant_seed_prefix(), participant, schedule]
}

/// The executable form of the schedule seed prefix.
pub fn schedule_seed_prefix() -> (v: Vec<u8>)
    ensures
        v@ == spec_schedule_seed_prefix(),
{
    let mut v: Vec<u8> = Vec::new();
    v.push(118);
    v.push(101);
    v.push(115);
    v.push(116);
    v.push(95);
    v.push(115);
    v.push(99);
    v.push(104);
    v.push(101);
    v.push(100);
    v.push(117);
    v.push(108);
    v.push(101);
    proof {
        assert(v@ =~= spec_schedule_seed_prefix());
    }
    v
}

/// The executable form of the participant seed prefix.
pub fn participant_seed_prefix() -> (v: Vec<u8>)
    ensures
        v@ == spec_participant_seed_prefix(),
{
    let mut v: Vec<u8> = Vec::new();
    v.push(118);
    v.push(101);
    v.push(115);
    v.push(116);
    v.push(95);
    v.push(112);
    v.push(97);
    v.push(114);
    v.push(116);
    v.push(105);
    v.push(99);
    v.push(105);
    v.push(112);
    v.push(97);
    v.push(110);
    v.push(116);
    proof {
        assert(v@ =~= spec_participant_seed_prefix());
    }
    v
}

/// The executable form of a schedule's seed list.
pub fn schedule_seed_vec(seed: u64, mint: &Pubkey, authority: &Pubkey) -> (v: Vec<Vec<u8>>)
    ensures
        v.deep_view() == spec_schedule_seeds(seed, mint@, authority@),
{
    let mut seed_le: Vec<u8> = Vec::new();
    push_u64_le(&mut seed_le, seed);
    let mut v: Vec<Vec<u8>> = Vec::new();
    v.push(schedule_seed_prefix());
    v.push(seed_le);
    v.push(mint.to_bytes());
    v.push(authority.to_bytes());
    proof {
        assert(v.deep_view() =~~= spec_schedule_seeds(seed, mint@, authority@));
    }
    v
}

/// The executable form of a participant record's seed list.
pub fn participant_seed_vec(participant: &Pubkey, schedule: &Pubkey) -> (v: Vec<Vec<u8>>)
    ensures
        v.deep_view() == spec_participant_seeds(participant@, schedule@),
{
    let mut v: Vec<Vec<u8>> = Vec::new();
    v.push(participant_seed_prefix());
    v.push(participant.to_bytes());
    v.push(schedule.to_bytes());
    proof {
        assert(v.deep_view() =~~= spec_participant_seeds(participant@, schedule@));
    }
    v
}

/// The address and canonical nonce that the host's hash-based derivation
/// assigns to a seed list under a namespace, or nothing in the statistically
/// improbable event that no nonce yields a valid address. The result is a
/// function of the seeds and the namespace alone.
pub uninterp spec fn derive_of(seeds: Seq<Seq<u8>>, program: Seq<u8>) -> Option<(Seq<u8>, u8)>;

/// Relies on solana-address's `Address::try_find_program_address`: run
/// off-chain it recomputes the derivation by hashing, and its result depends
/// only on the seed list and the namespace address.
#[verifier::external_body]
fn try_find_derived_address(seeds: &Vec<Vec<u8>>, program_id: &Pubkey) -> (r: Option<(Pubkey, u8)>)
    requires
        program_id.wf(),
    ensures
        match r {
            Some(p) => derive_of(seeds.deep_view(), program_id@) == Some((p.0@, p.1)) && p.0.wf(),
            None => derive_of(seeds.deep_view(), program_id@) is None,
        },
{
    let mut pid = [0u8; 32];
    pid.copy_from_slice(&program_id.bytes);
    let refs: Vec<&[u8]> = seeds.iter().map(|s| s.as_slice()).collect();
    solana_address::Address::try_find_program_address(
        &refs,
        &solana_address::Address::new_from_array(pid),
    ).map(|(a, b)| (Pubkey { bytes: a.to_bytes().to_vec() }, b))
}

/// Derives the address and canonical nonce for a seed list under the given
/// namespace.
pub fn derive_address(seeds: &Vec<Vec<u8>>, program_id: &Pubkey) -> (r: Option<(Pubkey, u8)>)
    requires
        program_id.wf(),
    ensures
        match r {
            Some(p) => derive_of(seeds.deep_view(), program_id@) == Some((p.0@, p.1)) && p.0.wf(),
            None => derive_of(seeds.deep_view(), program_id@) is None,
        },
{
    try_find_derived_address(seeds, program_id)
}

} // verus!

use vstd::prelude::*;

use crate::codec::{
    copy_bytes, lemma_u64_le_round_trip, lemma_u64_of_le_round_trip, push_bytes, push_u64_le,
    read_u64_le, spec_u64_le, spec_u64_of_le,
};
use crate::error::PinocchioError;
use crate::pubkey::Pubkey;

verus! {

/// One beneficiary's allocation and claim progress under a schedule.
#[derive(Debug, Clone, PartialEq, Eq)]
pub struct VestParticipant {
    /// The participant's own identity.
    pub participant: Pubkey,
    /// The schedule this allocation vests under.
    pub schedule: Pubkey,
    /// The amount set aside for the participant.
    pub allocated_amount: u64,
    /// The amount the participant has withdrawn so far.
    pub claimed_amount: u64,
    /// The canonical derivation nonce of the participant record's address.
    pub bump: u8,
}

impl VestParticipant {
    /// The byte length of a stored participant record:
    /// tag, two addresses, two 64-bit amounts, and the nonce.
    pub const LEN: usize = 82;

    /// The type tag stored in the first byte of a participant record.
    pub const DISCRIMINATOR: u8 = 1;

    /// The invariants every participant record satisfies from creation on.
    pub open spec fn wf(&self) -> bool {
        &&& self.participant.wf()
        &&& self.schedule.wf()
        &&& self.allocated_amount > 0
        &&& self.claimed_amount <= self.allocated_amount
    }

    /// The byte image of a participant record with the given field values:
    /// tag, the two addresses, the two little-endian amounts, and the
    /// derivation nonce.
    pub open spec fn spec_image(
        participant: Seq<u8>,
        schedule: Seq<u8>,
        allocated_amount: u64,
        claimed_amount: u64,
        bump: u8,
    ) -> Seq<u8> {
        seq![VestParticipant::DISCRIMINATOR] + participant + schedule + spec_u64_le(
            allocated_amount,
        ) + spec_u64_le(claimed_amount) + seq![bump]
    }

    /// The byte image of the record.
    pub open spec fn spec_encode(&self) -> Seq<u8> {
        VestParticipant::spec_image(
            self.participant@,
            self.schedule@,
            self.allocated_amount,
            self.claimed_amount,
            self.bump,
        )
    }

    /// The participant bytes stored in a record's byte image.
    pub open spec fn spec_participant_of(b: Seq<u8>) -> Seq<u8> {
        b.subrange(1, 33)
    }

    /// The schedule-reference bytes stored in a record's byte image.
    pub open spec fn spec_schedule_of(b: Seq<u8>) -> Seq<u8> {
        b.subrange(33, 65)
    }

    /// The allocated amount stored in a record's byte image.
    pub open spec fn spec_allocated_of(b: Seq<u8>) -> u64 {
        spec_u64_of_le(b.subrange(65, 73))
    }

    /// The claimed amount stored in a record's byte image.
    pub open spec fn spec_claimed_of(b: Seq<u8>) -> u64 {
        spec_u64_of_le(b.subrange(73, 81))
    }

    /// The derivation nonce stored in a record's byte image.
    pub open spec fn spec_bump_of(b: Seq<u8>) -> u8
        recommends
            b.len() == VestParticipant::LEN,
    {
        b[81]
    }

    /// Whether `b` has the length and type tag of a stored participant record.
    pub open spec fn spec_bytes_wf(b: Seq<u8>) -> bool {
        &&& b.len() == VestParticipant::LEN
        &&& b[0] == VestParticipant::DISCRIMINATOR
    }

    /// Serializes the record into its stored byte image.
    pub fn encode(&self) -> (out: Vec<u8>)
        requires
            self.participant.wf(),
            self.schedule.wf(),
        ensures
            out@ == self.spec_encode(),
            out@.len() == VestParticipant::LEN,
    {
        let mut out: Vec<u8> = Vec::new();
        out.push(Self::DISCRIMINATOR);
        push_bytes(&mut out, &self.participant.bytes);
        push_bytes(&mut out, &self.schedule.bytes);
        push_u64_le(&mut out, self.allocated_amount);
        push_u64_le(&mut out, self.claimed_amount);
        out.push(self.bump);
        proof {
            assert(out@ =~= self.spec_encode());
        }
        out
    }

    /// Parses a stored byte image back into a record, checking the length
    /// and the type tag before trusting any field.
    pub fn load(bytes: &Vec<u8>) -> (r: Result<VestParticipant, PinocchioError>)
        ensures
            match r {
                Ok(p) => {
                    &&& VestParticipant::spec_bytes_wf(bytes@)
                    &&& p.participant.wf()
                    &&& p.schedule.wf()
                    &&& p.spec_encode() == bytes@
                    &&& p.participant@ == VestParticipant::spec_participant_of(bytes@)
                    &&& p.schedule@ == VestParticipant::spec_schedule_of(bytes@)
                    &&& p.allocated_amount == VestParticipant::spec_allocated_of(bytes@)
                    &&& p.claimed_amount == VestParticipant::spec_claimed_of(bytes@)
                    &&& p.bump == VestParticipant::spec_bump_of(bytes@)
                },
                Err(e) => {
                    &&& !VestParticipant::spec_bytes_wf(bytes@)
                    &&& if bytes@.len() != VestParticipant::LEN {
                        e == PinocchioError::InvalidAccountData
                    } else {
                        e == PinocchioError::InvalidDiscriminator
                    }
                },
            },
    {
        if bytes.len() != Self::LEN {
            return Err(PinocchioError::InvalidAccountData);
        }
        if bytes[0] != Self::DISCRIMINATOR {
            return Err(PinocchioError::InvalidDiscriminator);
        }
        let participant = Pubkey::new(copy_bytes(bytes, 1, 32));
        let schedule = Pubkey::new(copy_bytes(bytes, 33, 32));
        let allocated_amount = read_u64_le(bytes, 65);
        let claimed_amount = read_u64_le(bytes, 73);
        let bump = bytes[81];
        let p = VestParticipant { participant, schedule, allocated_amount, claimed_amount, bump };
        proof {
            lemma_u64_of_le_round_trip(bytes@.subrange(65, 73));
            lemma_u64_of_le_round_trip(bytes@.subrange(73, 81));
            assert(p.spec_encode() =~= bytes@);
        }
        Ok(p)
    }

    /// The participant's own identity.
    pub fn participant(&self) -> (k: &Pubkey)
        ensures
            k == &self.participant,
    {
        &self.participant
    }

    /// The schedule this allocation vests under.
    pub fn schedule(&self) -> (k: &Pubkey)
        ensures
            k == &self.schedule,
    {
        &self.schedule
    }

    /// The amount set aside for the participant.
    pub fn allocated_amount(&self) -> (v: u64)
        ensures
            v == self.allocated_amount,
    {
        self.allocated_amount
    }

    /// The amount the participant has withdrawn so far.
    pub fn claimed_amount(&self) -> (v: u64)
        ensures
            v == self.claimed_amount,
    {
        self.claimed_amount
    }

    /// The canonical derivation nonce of the participant record's address.
    pub fn bump(&self) -> (v: u8)
        ensures
            v == self.bump,
    {
        self.bump
    }

    /// Records a new claimed total; the only mutation a participant record
    /// ever sees after creation.
    pub fn set_claimed_amount(&mut self, amount: u64)
        ensures
            *final(self) == (VestParticipant { claimed_amount: amount, ..*old(self) }),
    {
        self.claimed_amount = amount;
    }

    /// Replaces every field of the record at once.
    pub fn set_inner(
        &mut self,
        participant: Pubkey,
        schedule: Pubkey,
        allocated_amount: u64,
        claimed_amount: u64,
        bump: u8,
    )
        ensures
            *final(self) == (VestParticipant {
                participant,
                schedule,
                allocated_amount,
                claimed_amount,
                bump,
            }),
    {
        self.participant = participant;
        self.schedule = schedule;
        self.allocated_amount = allocated_amount;
        self.claimed_amount = claimed_amount;
        self.bump = bump;
    }
}

/// Law: a participant record's byte image determines every field, so
/// decoding an encoded record gives back the record. Together with `load`'s
/// contract (the decoded record's image is the input) this is the round trip.
pub proof fn lemma_participant_encode_injective(p1: VestParticipant, p2: VestParticipant)
    requires
        p1.participant.wf(),
        p1.schedule.wf(),
        p2.participant.wf(),
        p2.schedule.wf(),
        p1.spec_encode() == p2.spec_encode(),
    ensures
        p1.participant@ == p2.participant@,
        p1.schedule@ == p2.schedule@,
        p1.allocated_amount == p2.allocated_amount,
        p1.claimed_amount == p2.claimed_amount,
        p1.bump == p2.bump,
{
    lemma_participant_encode_fields(p1);
    lemma_participant_encode_fields(p2);
    lemma_u64_le_round_trip(p1.allocated_amount);
    lemma_u64_le_round_trip(p2.allocated_amount);
    lemma_u64_le_round_trip(p1.claimed_amount);
    lemma_u64_le_round_trip(p2.claimed_amount);
}

/// The position of each field inside a participant record's byte image.
proof fn lemma_participant_encode_fields(p: VestParticipant)
    requires
        p.participant.wf(),
        p.schedule.wf(),
    ensures
        p.spec_encode().len() == VestParticipant::LEN,
        p.spec_encode()[0] == VestParticipant::DISCRIMINATOR,
        p.spec_encode().subrange(1, 33) == p.participant@,
        p.spec_encode().subrange(33, 65) == p.schedule@,
        p.spec_encode().subrange(65, 73) == spec_u64_le(p.allocated_amount),
        p.spec_encode().subrange(73, 81) == spec_u64_le(p.claimed_amount),
        p.spec_encode()[81] == p.bump,
{
    assert(p.spec_encode().subrange(1, 33) =~= p.participant@);
    assert(p.spec_encode().subrange(33, 65) =~= p.schedule@);
    assert(p.spec_encode().subrange(65, 73) =~= spec_u64_le(p.allocated_amount));
    assert(p.spec_encode().subrange(73, 81) =~= spec_u64_le(p.claimed_amount));
}

} // verus!

use vstd::prelude::*;

use crate::codec::{
    copy_bytes, lemma_u64_le_round_trip, lemma_u64_of_le_round_trip, push_bytes, push_u64_le,
    read_u64_le, spec_u64_le, spec_u64_of_le,
};
use crate::error::PinocchioError;
use crate::pubkey::{Pubkey, PUBKEY_LEN};

verus! {

/// Difference of two amounts, floored at zero.
pub open spec fn sat_sub(a: int, b: int) -> int {
    if a >= b {
        a - b
    } else {
        0
    }
}

/// The amount claimable at `now` under a schedule with the given timing
/// fields, by a participant with the given allocation and already-claimed
/// amount: zero before the cliff ends, everything outstanding once the total
/// duration has passed, and in between the step-floored vested share minus
/// what was already claimed.
pub open spec fn spec_claimable_amounts(
    start: u64,
    cliff: u64,
    total: u64,
    step: u64,
    now: u64,
    allocated: u64,
    claimed: u64,
) -> int
    recommends
        step > 0,
        cliff < total,
{
    if now < start + cliff {
        0
    } else if now >= start + total {
        sat_sub(allocated as int, claimed as int)
    } else {
        let steps_elapsed = (now - start - cliff) / (step as int);
        let total_steps = (total - cliff) / (step as int);
        sat_sub((allocated * steps_elapsed) / total_steps, claimed as int)
    }
}

/// The shared vesting policy: one record per schedule, immutable once created.
#[derive(Debug, Clone, PartialEq, Eq)]
pub struct VestSchedule {
    /// The asset that vests under this schedule.
    pub token_mint: Pubkey,
    /// The principal allowed to enroll participants.
    pub authority: Pubkey,
    /// The disambiguating seed the schedule's address is derived from.
    pub seed: u64,
    /// When vesting time begins to count.
    pub start_timestamp: u64,
    /// Seconds after the start during which nothing vests.
    pub cliff_duration: u64,
    /// Seconds after the start at which everything has vested.
    pub total_duration: u64,
    /// Seconds between post-cliff vesting checkpoints.
    pub step_duration: u64,
    /// The canonical derivation nonce of the schedule's address.
    pub bump: u8,
}

/// Where a schedule stands at a given time, derived purely from timestamps.
#[derive(Clone, Copy, Debug, PartialEq, Eq, Structural)]
pub enum VestStatus {
    /// Before the start timestamp.
    NotStarted,
    /// Between the start and the end of the cliff.
    Cliff,
    /// Between the end of the cliff and full vesting.
    Stepping,
    /// At or past the end of the total duration.
    Completed,
}

impl VestSchedule {
    /// The byte length of a stored schedule record:
    /// tag, mint, authority, five 64-bit fields, and the nonce.
    pub const LEN: usize = 106;

    /// The type tag stored in the first byte of a schedule record.
    pub const DISCRIMINATOR: u8 = 2;

    /// The invariants every schedule record satisfies from creation on.
    pub open spec fn wf(&self) -> bool {
        &&& self.token_mint.wf()
        &&& self.authority.wf()
        &&& self.seed != 0
        &&& self.cliff_duration > 0
        &&& self.step_duration > 0
        &&& self.cliff_duration < self.total_duration
        &&& self.step_duration < self.total_duration
        &&& (self.total_duration - self.cliff_duration) % (self.step_duration as int) == 0
    }

    /// The amount claimable at `now` by a participant with the given
    /// allocation and already-claimed amount, as `spec_claimable_amounts`
    /// states it for this record's timing fields.
    pub open spec fn spec_claimable(&self, now: u64, allocated: u64, claimed: u64) -> int
        recommends
            self.wf(),
    {
        spec_claimable_amounts(
            self.start_timestamp,
            self.cliff_duration,
            self.total_duration,
            self.step_duration,
            now,
            allocated,
            claimed,
        )
    }

    /// The amount claimable at `now` under the schedule stored in byte
    /// image `b`, for the given allocation and claim progress.
    pub open spec fn spec_claimable_of(b: Seq<u8>, now: u64, allocated: u64, claimed: u64) -> int
        recommends
            VestSchedule::spec_bytes_wf(b),
    {
        spec_claimable_amounts(
            VestSchedule::spec_start_of(b),
            VestSchedule::spec_cliff_of(b),
            VestSchedule::spec_total_of(b),
            VestSchedule::spec_step_of(b),
            now,
            allocated,
            claimed,
        )
    }

    /// Computes the claimable amount. Exact with respect to `spec_claimable`
    /// and free of overflow for every combination of inputs.
    pub fn calculate_claimable_amount(
        &self,
        current_timestamp: u64,
        total_allocated_amount: u64,
        claimed_amount: u64,
    ) -> (r: u64)
        requires
            self.wf(),
        ensures
            r == self.spec_claimable(current_timestamp, total_allocated_amount, claimed_amount),
    {
        let start = self.start_timestamp;
        let cliff = self.cliff_duration;
        let total = self.total_duration;
        let step = self.step_duration;

        let cliff_end = match start.checked_add(cliff) {
            Some(ce) => ce,
            None => {
                // The cliff ends beyond the representable range, so every
                // representable timestamp is still before it.
                return 0;
            },
        };
        if current_timestamp < cliff_end {
            return 0;
        }
        match start.checked_add(total) {
            Some(te) => {
                if current_timestamp >= te {
                    return total_allocated_amount.saturating_sub(claimed_amount);
                }
            },
            None => {},
        }

        let elapsed = current_timestamp - start;
        let steps_elapsed = (elapsed - cliff) / step;
        let total_steps = (total - cliff) / step;

        proof {
            lemma_schedule_steps(
                elapsed as int,
                cliff as int,
                total as int,
                step as int,
            );
        }

        proof {
            vstd::arithmetic::mul::lemma_mul_upper_bound(
                total_allocated_amount as int,
                u64::MAX as int,
                steps_elapsed as int,
                u64::MAX as int,
            );
        }
        let vested_wide = (total_allocated_amount as u128) * (steps_elapsed as u128);
        let vested_wide = vested_wide / (total_steps as u128);

        proof {
            lemma_vested_bounded(
                total_allocated_amount as int,
                steps_elapsed as int,
                total_steps as int,
            );
        }

        let vested = vested_wide as u64;
        vested.saturating_sub(claimed_amount)
    }

    /// The byte image of a schedule record with the given field values:
    /// tag, mint, authority, the five little-endian 64-bit fields, and the
    /// derivation nonce.
    pub open spec fn spec_image(
        mint: Seq<u8>,
        authority: Seq<u8>,
        seed: u64,
        start_timestamp: u64,
        cliff_duration: u64,
        total_duration: u64,
        step_duration: u64,
        bump: u8,
    ) -> Seq<u8> {
        seq![VestSchedule::DISCRIMINATOR] + mint + authority + spec_u64_le(seed) + spec_u64_le(
            start_timestamp,
        ) + spec_u64_le(cliff_duration) + spec_u64_le(total_duration) + spec_u64_le(step_duration)
            + seq![bump]
    }

    /// The byte image of the record.
    pub open spec fn spec_encode(&self) -> Seq<u8> {
        VestSchedule::spec_image(
            self.token_mint@,
            self.authority@,
            self.seed,
            self.start_timestamp,
            self.cliff_duration,
            self.total_duration,
            self.step_duration,
            self.bump,
        )
    }

    /// The mint bytes stored in a schedule record's byte image.
    pub open spec fn spec_mint_of(b: Seq<u8>) -> Seq<u8> {
        b.subrange(1, 33)
    }

    /// The authority bytes stored in a schedule record's byte image.
    pub open spec fn spec_authority_of(b: Seq<u8>) -> Seq<u8> {
        b.subrange(33, 65)
    }

    /// The seed stored in a schedule record's byte image.
    pub open spec fn spec_seed_of(b: Seq<u8>) -> u64 {
        spec_u64_of_le(b.subrange(65, 73))
    }

    /// The start timestamp stored in a schedule record's byte image.
    pub open spec fn spec_start_of(b: Seq<u8>) -> u64 {
        spec_u64_of_le(b.subrange(73, 81))
    }

    /// The cliff duration stored in a schedule record's byte image.
    pub open spec fn spec_cliff_of(b: Seq<u8>) -> u64 {
        spec_u64_of_le(b.subrange(81, 89))
    }

    /// The total duration stored in a schedule record's byte image.
    pub open spec fn spec_total_of(b: Seq<u8>) -> u64 {
        spec_u64_of_le(b.subrange(89, 97))
    }

    /// The step duration stored in a schedule record's byte image.
    pub open spec fn spec_step_of(b: Seq<u8>) -> u64 {
        spec_u64_of_le(b.subrange(97, 105))
    }

    /// The derivation nonce stored in a schedule record's byte image.
    pub open spec fn spec_bump_of(b: Seq<u8>) -> u8
        recommends
            b.len() == VestSchedule::LEN,
    {
        b[105]
    }

    /// Whether `b` is the stored image of some well-formed schedule record.
    pub open spec fn spec_bytes_wf(b: Seq<u8>) -> bool {
        &&& b.len() == VestSchedule::LEN
        &&& b[0] == VestSchedule::DISCRIMINATOR
        &&& {
            let seed = spec_u64_of_le(b.subrange(65, 73));
            let cliff = spec_u64_of_le(b.subrange(81, 89));
            let total = spec_u64_of_le(b.subrange(89, 97));
            let step = spec_u64_of_le(b.subrange(97, 105));
            &&& seed != 0
            &&& cliff > 0
            &&& step > 0
            &&& cliff < total
            &&& step < total
            &&& (total - cliff) % (step as int) == 0
        }
    }

    /// Serializes the record into its stored byte image.
    pub fn encode(&self) -> (out: Vec<u8>)
        requires
            self.token_mint.wf(),
            self.authority.wf(),
        ensures
            out@ == self.spec_encode(),
            out@.len() == VestSchedule::LEN,
    {
        let mut out: Vec<u8> = Vec::new();
        out.push(Self::DISCRIMINATOR);
        push_bytes(&mut out, &self.token_mint.bytes);
        push_bytes(&mut out, &self.authority.bytes);
        push_u64_le(&mut out, self.seed);
        push_u64_le(&mut out, self.start_timestamp);
        push_u64_le(&mut out, self.cliff_duration);
        push_u64_le(&mut out, self.total_duration);
        push_u64_le(&mut out, self.step_duration);
        out.push(self.bump);
        proof {
            assert(out@ =~= self.spec_encode());
        }
        out
    }

    /// Parses a stored byte image back into a record, checking the length,
    /// the type tag, and every schedule invariant before trusting any field.
    pub fn load(bytes: &Vec<u8>) -> (r: Result<VestSchedule, PinocchioError>)
        ensures
            match r {
                Ok(s) => {
                    &&& VestSchedule::spec_bytes_wf(bytes@)
                    &&& s.wf()
                    &&& s.spec_encode() == bytes@
                    &&& s.token_mint@ == VestSchedule::spec_mint_of(bytes@)
                    &&& s.authority@ == VestSchedule::spec_authority_of(bytes@)
                    &&& s.seed == VestSchedule::spec_seed_of(bytes@)
                    &&& s.start_timestamp == VestSchedule::spec_start_of(bytes@)
                    &&& s.cliff_duration == VestSchedule::spec_cliff_of(bytes@)
                    &&& s.total_duration == VestSchedule::spec_total_of(bytes@)
                    &&& s.step_duration == VestSchedule::spec_step_of(bytes@)
                    &&& s.bump == VestSchedule::spec_bump_of(bytes@)
                },
                Err(e) => {
                    &&& !VestSchedule::spec_bytes_wf(bytes@)
                    &&& if bytes@.len() != VestSchedule::LEN {
                        e == PinocchioError::InvalidAccountData
                    } else if bytes@[0] != VestSchedule::DISCRIMINATOR {
                        e == PinocchioError::InvalidDiscriminator
                    } else {
                        e == PinocchioError::InvalidAccountData
                    }
                },
            },
    {
        if bytes.len() != Self::LEN {
            return Err(PinocchioError::InvalidAccountData);
        }
        if bytes[0] != Self::DISCRIMINATOR {
            return Err(PinocchioError::InvalidDiscriminator);
        }
        let token_mint = Pubkey::new(copy_bytes(bytes, 1, 32));
        let authority = Pubkey::new(copy_bytes(bytes, 33, 32));
        let seed = read_u64_le(bytes, 65);
        let start_timestamp = read_u64_le(bytes, 73);
        let cliff_duration = read_u64_le(bytes, 81);
        let total_duration = read_u64_le(bytes, 89);
        let step_duration = read_u64_le(bytes, 97);
        let bump = bytes[105];
        if seed == 0 || cliff_duration == 0 || step_duration == 0 || cliff_duration
            >= total_duration || step_duration >= total_duration {
            return Err(PinocchioError::InvalidAccountData);
        }
        if (total_duration - cliff_duration) % step_duration != 0 {
            return Err(PinocchioError::InvalidAccountData);
        }
        let s = VestSchedule {
            token_mint,
            authority,
            seed,
            start_timestamp,
            cliff_duration,
            total_duration,
            step_duration,
            bump,
        };
        proof {
            lemma_u64_of_le_round_trip(bytes@.subrange(65, 73));
            lemma_u64_of_le_round_trip(bytes@.subrange(73, 81));
            lemma_u64_of_le_round_trip(bytes@.subrange(81, 89));
            lemma_u64_of_le_round_trip(bytes@.subrange(89, 97));
            lemma_u64_of_le_round_trip(bytes@.subrange(97, 105));
            assert(s.spec_encode() =~= bytes@);
        }
        Ok(s)
    }

    /// Whether the cliff has ended at `now`; once it has, the set of
    /// participants is frozen.
    pub fn is_cliff_completed(&self, current_timestamp: u64) -> (r: bool)
        ensures
            r == (current_timestamp >= self.start_timestamp + self.cliff_duration),
    {
        match self.start_timestamp.checked_add(self.cliff_duration) {
            Some(ce) => current_timestamp >= ce,
            None => false,
        }
    }

    /// The asset that vests under this schedule.
    pub fn token_mint(&self) -> (k: &Pubkey)
        ensures
            k == &self.token_mint,
    {
        &self.token_mint
    }

    /// The principal allowed to enroll participants.
    pub fn authority(&self) -> (k: &Pubkey)
        ensures
            k == &self.authority,
    {
        &self.authority
    }

    /// The disambiguating seed the schedule's address is derived from.
    pub fn seed(&self) -> (v: u64)
        ensures
            v == self.seed,
    {
        self.seed
    }

    /// When vesting time begins to count.
    pub fn start_timestamp(&self) -> (v: u64)
        ensures
            v == self.start_timestamp,
    {
        self.start_timestamp
    }

    /// Seconds after the start during which nothing vests.
    pub fn cliff_duration(&self) -> (v: u64)
        ensures
            v == self.cliff_duration,
    {
        self.cliff_duration
    }

    /// Seconds after the start at which everything has vested.
    pub fn total_duration(&self) -> (v: u64)
        ensures
            v == self.total_duration,
    {
        self.total_duration
    }

    /// Seconds between post-cliff vesting checkpoints.
    pub fn step_duration(&self) -> (v: u64)
        ensures
            v == self.step_duration,
    {
        self.step_duration
    }

    /// The canonical derivation nonce of the schedule's address.
    pub fn bump(&self) -> (v: u8)
        ensures
            v == self.bump,
    {
        self.bump
    }

    /// Replaces every field of the record at once.
    pub fn set_inner(
        &mut self,
        token_mint: Pubkey,
        authority: Pubkey,
        seed: u64,
        start_timestamp: u64,
        cliff_duration: u64,
        total_duration: u64,
        step_duration: u64,
        bump: u8,
    )
        ensures
            *final(self) == (VestSchedule {
                token_mint,
                authority,
                seed,
                start_timestamp,
                cliff_duration,
                total_duration,
                step_duration,
                bump,
            }),
    {
        self.token_mint = token_mint;
        self.authority = authority;
        self.seed = seed;
        self.start_timestamp = start_timestamp;
        self.cliff_duration = cliff_duration;
        self.total_duration = total_duration;
        self.step_duration = step_duration;
        self.bump = bump;
    }

    /// The phase the schedule is in at `now`, as `spec_status` states it.
    pub open spec fn spec_status(&self, now: u64) -> VestStatus {
        if now < self.start_timestamp {
            VestStatus::NotStarted
        } else if now < self.start_timestamp + self.cliff_duration {
            VestStatus::Cliff
        } else if now < self.start_timestamp + self.total_duration {
            VestStatus::Stepping
        } else {
            VestStatus::Completed
        }
    }

    /// The phase the schedule is in at `now`, derived purely from the stored
    /// timestamps; no status byte is stored that could fall out of step.
    pub fn status(&self, now: u64) -> (s: VestStatus)
        ensures
            s == self.spec_status(now),
    {
        if now < self.start_timestamp {
            return VestStatus::NotStarted;
        }
        match self.start_timestamp.checked_add(self.cliff_duration) {
            Some(ce) => {
                if now < ce {
                    return VestStatus::Cliff;
                }
            },
            None => {
                return VestStatus::Cliff;
            },
        }
        match self.start_timestamp.checked_add(self.total_duration) {
            Some(te) => {
                if now < te {
                    VestStatus::Stepping
                } else {
                    VestStatus::Completed
                }
            },
            None => VestStatus::Stepping,
        }
    }
}

/// Law: a schedule record's byte image determines every field, so decoding
/// an encoded record gives back the record. Together with `load`'s contract
/// (the decoded record's image is the input) this is the round trip.
pub proof fn lemma_schedule_encode_injective(s1: VestSchedule, s2: VestSchedule)
    requires
        s1.token_mint.wf(),
        s1.authority.wf(),
        s2.token_mint.wf(),
        s2.authority.wf(),
        s1.spec_encode() == s2.spec_encode(),
    ensures
        s1.token_mint@ == s2.token_mint@,
        s1.authority@ == s2.authority@,
        s1.seed == s2.seed,
        s1.start_timestamp == s2.start_timestamp,
        s1.cliff_duration == s2.cliff_duration,
        s1.total_duration == s2.total_duration,
        s1.step_duration == s2.step_duration,
        s1.bump == s2.bump,
{
    lemma_schedule_encode_fields(s1);
    lemma_schedule_encode_fields(s2);
    lemma_u64_le_round_trip(s1.seed);
    lemma_u64_le_round_trip(s2.seed);
    lemma_u64_le_round_trip(s1.start_timestamp);
    lemma_u64_le_round_trip(s2.start_timestamp);
    lemma_u64_le_round_trip(s1.cliff_duration);
    lemma_u64_le_round_trip(s2.cliff_duration);
    lemma_u64_le_round_trip(s1.total_duration);
    lemma_u64_le_round_trip(s2.total_duration);
    lemma_u64_le_round_trip(s1.step_duration);
    lemma_u64_le_round_trip(s2.step_duration);
}

/// The position of each field inside a schedule record's byte image.
proof fn lemma_schedule_encode_fields(s: VestSchedule)
    requires
        s.token_mint.wf(),
        s.authority.wf(),
    ensures
        s.spec_encode().len() == VestSchedule::LEN,
        s.spec_encode()[0] == VestSchedule::DISCRIMINATOR,
        s.spec_encode().subrange(1, 33) == s.token_mint@,
        s.spec_encode().subrange(33, 65) == s.authority@,
        s.spec_encode().subrange(65, 73) == spec_u64_le(s.seed),
        s.spec_encode().subrange(73, 81) == spec_u64_le(s.start_timestamp),
        s.spec_encode().subrange(81, 89) == spec_u64_le(s.cliff_duration),
        s.spec_encode().subrange(89, 97) == spec_u64_le(s.total_duration),
        s.spec_encode().subrange(97, 105) == spec_u64_le(s.step_duration),
        s.spec_encode()[105] == s.bump,
{
    assert(s.spec_encode().subrange(1, 33) =~= s.token_mint@);
    assert(s.spec_encode().subrange(33, 65) =~= s.authority@);
    assert(s.spec_encode().subrange(65, 73) =~= spec_u64_le(s.seed));
    assert(s.spec_encode().subrange(73, 81) =~= spec_u64_le(s.start_timestamp));
    assert(s.spec_encode().subrange(81, 89) =~= spec_u64_le(s.cliff_duration));
    assert(s.spec_encode().subrange(89, 97) =~= spec_u64_le(s.total_duration));
    assert(s.spec_encode().subrange(97, 105) =~= spec_u64_le(s.step_duration));
}

/// Law: for every valid schedule, nothing is claimable at or before the end
/// of the cliff, whatever the allocation and claim progress.
pub proof fn lemma_claimable_zero_through_cliff(
    s: VestSchedule,
    now: u64,
    allocated: u64,
    claimed: u64,
)
    requires
        s.wf(),
        now <= s.start_timestamp + s.cliff_duration,
    ensures
        s.spec_claimable(now, allocated, claimed) == 0,
{
    if now >= s.start_timestamp + s.cliff_duration {
        let step = s.step_duration as int;
        vstd::arithmetic::div_mod::lemma_div_of0(step);
        let total_steps = (s.total_duration - s.cliff_duration) / step;
        lemma_schedule_steps(
            s.cliff_duration as int,
            s.cliff_duration as int,
            s.total_duration as int,
            step,
        );
        vstd::arithmetic::div_mod::lemma_div_of0(total_steps);
        assert(now - s.start_timestamp - s.cliff_duration == 0);
        assert((now - s.start_timestamp - s.cliff_duration) / step == 0);
        assert(allocated * ((now - s.start_timestamp - s.cliff_duration) / step) == 0);
        assert((allocated * ((now - s.start_timestamp - s.cliff_duration) / step)) / total_steps
            == 0);
        assert(now < s.start_timestamp + s.total_duration);
    }
}

/// Law: with the allocation and the claimed amount held fixed, the claimable
/// amount never decreases as time advances.
pub proof fn lemma_claimable_monotonic(
    s: VestSchedule,
    now1: u64,
    now2: u64,
    allocated: u64,
    claimed: u64,
)
    requires
        s.wf(),
        now1 <= now2,
    ensures
        s.spec_claimable(now1, allocated, claimed) <= s.spec_claimable(now2, allocated, claimed),
{
    let st = s.start_timestamp as int;
    let c = s.cliff_duration as int;
    let t = s.total_duration as int;
    let p = s.step_duration as int;
    let a = allocated as int;
    if now1 < st + c {
        // Nothing claimable yet, and the claimable amount is never negative.
    } else if now1 >= st + t {
        // Both times are past full vesting; the amounts coincide.
    } else {
        let e1 = now1 - st;
        let se1 = (e1 - c) / p;
        let ts = (t - c) / p;
        lemma_schedule_steps(e1, c, t, p);
        if now2 < st + t {
            let e2 = now2 - st;
            let se2 = (e2 - c) / p;
            vstd::arithmetic::div_mod::lemma_div_is_ordered(e1 - c, e2 - c, p);
            vstd::arithmetic::mul::lemma_mul_inequality(se1, se2, a);
            vstd::arithmetic::mul::lemma_mul_is_commutative(se1, a);
            vstd::arithmetic::mul::lemma_mul_is_commutative(se2, a);
            vstd::arithmetic::div_mod::lemma_div_is_ordered(a * se1, a * se2, ts);
        } else {
            lemma_vested_bounded(a, se1, ts);
        }
    }
}

/// Law: once the total duration has passed, exactly the outstanding
/// remainder of the allocation is claimable; no remainder is lost.
pub proof fn lemma_claimable_fully_vested(
    s: VestSchedule,
    now: u64,
    allocated: u64,
    claimed: u64,
)
    requires
        s.wf(),
        now >= s.start_timestamp + s.total_duration,
        claimed <= allocated,
    ensures
        s.spec_claimable(now, allocated, claimed) == allocated - claimed,
{
}

/// Law: paying out a positive claimable amount leaves the claimed total
/// within the allocation, and leaves nothing further claimable at the same
/// instant; a second claim without time advancing finds a zero amount.
pub proof fn lemma_second_claim_finds_nothing(
    s: VestSchedule,
    now: u64,
    allocated: u64,
    claimed: u64,
)
    requires
        s.wf(),
        claimed <= allocated,
        s.spec_claimable(now, allocated, claimed) > 0,
    ensures
        claimed + s.spec_claimable(now, allocated, claimed) <= allocated,
        s.spec_claimable(
            now,
            allocated,
            (claimed + s.spec_claimable(now, allocated, claimed)) as u64,
        ) == 0,
{
    let st = s.start_timestamp as int;
    let c = s.cliff_duration as int;
    let t = s.total_duration as int;
    let p = s.step_duration as int;
    if now >= st + t {
        // The whole allocation is claimed afterwards.
    } else {
        let e = now - st;
        let se = (e - c) / p;
        let ts = (t - c) / p;
        lemma_schedule_steps(e, c, t, p);
        lemma_vested_bounded(allocated as int, se, ts);
    }
}

/// Law: whenever anything is claimable at all, paying it out leaves the
/// claimed total within the allocation, whatever the record held before.
pub proof fn lemma_claimable_within_allocation(
    s: VestSchedule,
    now: u64,
    allocated: u64,
    claimed: u64,
)
    requires
        s.wf(),
        s.spec_claimable(now, allocated, claimed) > 0,
    ensures
        claimed + s.spec_claimable(now, allocated, claimed) <= allocated,
{
    let st = s.start_timestamp as int;
    let c = s.cliff_duration as int;
    let t = s.total_duration as int;
    let p = s.step_duration as int;
    if now >= st + t {
        // The payout is exactly the outstanding remainder.
    } else {
        let e = now - st;
        let se = (e - c) / p;
        let ts = (t - c) / p;
        lemma_schedule_steps(e, c, t, p);
        lemma_vested_bounded(allocated as int, se, ts);
    }
}

/// Law: from any record satisfying the claimed-within-allocation bound, a
/// claim outcome preserves the bound: every reachable claimed amount stays
/// within the allocation.
pub proof fn lemma_claim_preserves_allocation_bound(
    s: VestSchedule,
    now: u64,
    allocated: u64,
    claimed: u64,
)
    requires
        s.wf(),
        claimed <= allocated,
    ensures
        claimed + s.spec_claimable(now, allocated, claimed) <= allocated,
{
    if s.spec_claimable(now, allocated, claimed) > 0 {
        lemma_second_claim_finds_nothing(s, now, allocated, claimed);
    }
}

/// In the stepping phase the elapsed step count is a proper prefix of the
/// total step count.
proof fn lemma_schedule_steps(elapsed: int, cliff: int, total: int, step: int)
    requires
        0 < step,
        0 < cliff < total,
        step < total,
        (total - cliff) % step == 0,
        cliff <= elapsed < total,
    ensures
        1 <= (total - cliff) / step,
        0 <= (elapsed - cliff) / step < (total - cliff) / step,
{
    let e = elapsed - cliff;
    let t = total - cliff;
    if t < step {
        vstd::arithmetic::div_mod::lemma_small_mod(t as nat, step as nat);
        assert(false);
    }
    vstd::arithmetic::div_mod::lemma_div_is_ordered(step, t, step);
    vstd::arithmetic::div_mod::lemma_div_by_self(step);
    vstd::arithmetic::div_mod::lemma_div_pos_is_pos(e, step);
    vstd::arithmetic::div_mod::lemma_fundamental_div_mod(e, step);
    vstd::arithmetic::div_mod::lemma_fundamental_div_mod(t, step);
    vstd::arithmetic::div_mod::lemma_mod_division_less_than_divisor(e, step);
    assert(step * (e / step) <= e);
    assert(step * (t / step) == t);
    assert(step * (e / step) < step * (t / step));
    vstd::arithmetic::mul::lemma_mul_is_commutative(step, e / step);
    vstd::arithmetic::mul::lemma_mul_is_commutative(step, t / step);
    vstd::arithmetic::mul::lemma_mul_strict_inequality_converse(e / step, t / step, step);
}

/// The step-floored vested share never exceeds the allocation.
proof fn lemma_vested_bounded(allocated: int, steps_elapsed: int, total_steps: int)
    requires
        0 <= allocated,
        0 <= steps_elapsed <= total_steps,
        1 <= total_steps,
    ensures
        0 <= (allocated * steps_elapsed) / total_steps <= allocated,
{
    vstd::arithmetic::mul::lemma_mul_nonnegative(allocated, steps_elapsed);
    vstd::arithmetic::div_mod::lemma_div_pos_is_pos(allocated * steps_elapsed, total_steps);
    vstd::arithmetic::mul::lemma_mul_inequality(steps_elapsed, total_steps, allocated);
    vstd::arithmetic::mul::lemma_mul_is_commutative(steps_elapsed, allocated);
    vstd::arithmetic::mul::lemma_mul_is_commutative(total_steps, allocated);
    vstd::arithmetic::div_mod::lemma_div_is_ordered(
        allocated * steps_elapsed,
        allocated * total_steps,
        total_steps,
    );
    vstd::arithmetic::mul::lemma_mul_is_commutative(allocated, total_steps);
    vstd::arithmetic::div_mod::lemma_div_multiples_vanish(allocated, total_steps);
}

} // verus!

use vstd::prelude::*;

use crate::account::{Account, ProgramConfig};
use crate::error::PinocchioError;
use crate::helpers::{
    spec_ata_seeds, spec_set_amount, spec_token_amount, AssociatedToken, ProgramAccount,
    SignerAccount, Token, TOKEN_ACCOUNT_LEN,
};
use crate::participant_state::VestParticipant;
use crate::pda::{derive_of, participant_seed_vec, spec_participant_seeds};
use crate::schedule_state::{lemma_claimable_within_allocation, VestSchedule};

verus! {

/// The Claim operation: pays a participant exactly what has vested since
/// their last claim, out of their vault.
pub struct Claim;

impl Claim {
    /// The opcode tag of the Claim instruction.
    pub const DISCRIMINATOR: u8 = 2;

    /// The number of accounts Claim takes: participant, participant
    /// record, the participant's holding, the schedule, the vault, the
    /// mint, the system program, the token program, and the
    /// associated-token program.
    pub const ACCOUNTS: usize = 9;

    /// The amount the participant whose record is `b1` can claim at `now`
    /// under the schedule whose record is `b3`.
    pub open spec fn spec_claimable(b3: Seq<u8>, b1: Seq<u8>, now: u64) -> int {
        VestSchedule::spec_claimable_of(
            b3,
            now,
            VestParticipant::spec_allocated_of(b1),
            VestParticipant::spec_claimed_of(b1),
        )
    }

    /// The failure Claim aborts with on the given world and time, or
    /// nothing when it succeeds. The checks run in this order: account
    /// count, participant signature, collaborator identities, the shapes
    /// of the schedule and participant records, the schedule's invariants,
    /// the asset identity, the vault, the participant's holding, the
    /// participant record's derivation and contents, the claimable amount,
    /// the vault balance, the allocation bound, and that the destination
    /// balance cannot overflow.
    pub open spec fn spec_error(a: Seq<Account>, now: u64, cfg: ProgramConfig) -> Option<
        PinocchioError,
    > {
        if a.len() != Claim::ACCOUNTS {
            Some(PinocchioError::NotEnoughAccountKeys)
        } else if !a[0].is_signer {
            Some(PinocchioError::MissingSignature)
        } else if a[7].key@ != cfg.token_program_id@ {
            Some(PinocchioError::InvalidOwner)
        } else if a[6].key@ != cfg.system_program_id@ {
            Some(PinocchioError::InvalidOwner)
        } else if ProgramAccount::spec_check_error(
            a[3],
            cfg,
            VestSchedule::LEN,
            VestSchedule::DISCRIMINATOR,
        ) is Some {
            ProgramAccount::spec_check_error(
                a[3],
                cfg,
                VestSchedule::LEN,
                VestSchedule::DISCRIMINATOR,
            )
        } else if ProgramAccount::spec_check_error(
            a[1],
            cfg,
            VestParticipant::LEN,
            VestParticipant::DISCRIMINATOR,
        ) is Some {
            ProgramAccount::spec_check_error(
                a[1],
                cfg,
                VestParticipant::LEN,
                VestParticipant::DISCRIMINATOR,
            )
        } else if a[8].key@ != cfg.ata_program_id@ {
            Some(PinocchioError::InvalidOwner)
        } else if !VestSchedule::spec_bytes_wf(a[3].data@) {
            Some(PinocchioError::InvalidAccountData)
        } else if a[5].key@ != VestSchedule::spec_mint_of(a[3].data@) {
            Some(PinocchioError::InvalidAccountData)
        } else if AssociatedToken::spec_check_error(
            a[4],
            a[1].key@,
            VestSchedule::spec_mint_of(a[3].data@),
            cfg,
        ) is Some {
            AssociatedToken::spec_check_error(
                a[4],
                a[1].key@,
                VestSchedule::spec_mint_of(a[3].data@),
                cfg,
            )
        } else if !AssociatedToken::spec_check_ok(a[2], a[0].key@, a[5].key@, cfg) && !(derive_of(
            spec_ata_seeds(a[0].key@, cfg.token_program_id@, a[5].key@),
            cfg.ata_program_id@,
        ) matches Some(p) && p.0 == a[2].key@) {
            Some(PinocchioError::InvalidAccountData)
        } else {
            match derive_of(spec_participant_seeds(a[0].key@, a[3].key@), cfg.program_id@) {
                None => Some(PinocchioError::AddressMismatch),
                Some(p) => {
                    if p.0 != a[1].key@ {
                        Some(PinocchioError::AddressMismatch)
                    } else if p.1 != VestParticipant::spec_bump_of(a[1].data@) {
                        Some(PinocchioError::NonceMismatch)
                    } else if VestParticipant::spec_participant_of(a[1].data@) != a[0].key@ {
                        Some(PinocchioError::UnauthorizedPrincipal)
                    } else if VestParticipant::spec_schedule_of(a[1].data@) != a[3].key@ {
                        Some(PinocchioError::InvalidAccountData)
                    } else {
                        let claimable = Claim::spec_claimable(a[3].data@, a[1].data@, now);
                        if claimable == 0 {
                            Some(PinocchioError::NoClaimableAmount)
                        } else if spec_token_amount(a[4].data@) < claimable {
                            Some(PinocchioError::InsufficientFunds)
                        } else if VestParticipant::spec_claimed_of(a[1].data@) + claimable
                            > VestParticipant::spec_allocated_of(a[1].data@) {
                            Some(PinocchioError::ClaimExceedsAllocation)
                        } else {
                            let dest = if AssociatedToken::spec_check_ok(
                                a[2],
                                a[0].key@,
                                a[5].key@,
                                cfg,
                            ) {
                                spec_token_amount(a[2].data@) as int
                            } else {
                                0
                            };
                            if dest + claimable > u64::MAX {
                                Some(PinocchioError::InvalidAccountData)
                            } else {
                                None
                            }
                        }
                    }
                },
            }
        }
    }

    /// Runs Claim against the supplied accounts: validates everything
    /// `spec_error` lists, and on success moves the claimable amount from
    /// the vault into the participant's holding (creating that holding if
    /// it does not exist yet) and records the new claimed total. A failed
    /// run changes nothing.
    pub fn process(accounts: &mut Vec<Account>, now: u64, cfg: &ProgramConfig) -> (r: Result<
        (),
        PinocchioError,
    >)
        requires
            cfg.wf(),
            forall|i: int|
                0 <= i < old(accounts)@.len() ==> (#[trigger] old(accounts)@[i]).wf(),
        ensures
            final(accounts)@.len() == old(accounts)@.len(),
            match r {
                Ok(()) => {
                    let b3 = old(accounts)@[3].data@;
                    let b1 = old(accounts)@[1].data@;
                    let claimable = Claim::spec_claimable(b3, b1, now);
                    &&& Claim::spec_error(old(accounts)@, now, *cfg) is None
                    &&& claimable > 0
                    &&& forall|i: int|
                        0 <= i < old(accounts)@.len() && i != 1 && i != 2 && i != 4
                            ==> final(accounts)@[i] == old(accounts)@[i]
                    &&& final(accounts)@[1].key@ == old(accounts)@[1].key@
                    &&& final(accounts)@[1].owner@ == old(accounts)@[1].owner@
                    &&& final(accounts)@[1].is_signer == old(accounts)@[1].is_signer
                    &&& final(accounts)@[1].lamports == old(accounts)@[1].lamports
                    &&& final(accounts)@[1].data@ == VestParticipant::spec_image(
                        VestParticipant::spec_participant_of(b1),
                        VestParticipant::spec_schedule_of(b1),
                        VestParticipant::spec_allocated_of(b1),
                        (VestParticipant::spec_claimed_of(b1) + claimable) as u64,
                        VestParticipant::spec_bump_of(b1),
                    )
                    &&& final(accounts)@[4].key@ == old(accounts)@[4].key@
                    &&& final(accounts)@[4].owner@ == old(accounts)@[4].owner@
                    &&& final(accounts)@[4].is_signer == old(accounts)@[4].is_signer
                    &&& final(accounts)@[4].lamports == old(accounts)@[4].lamports
                    &&& final(accounts)@[4].data@ == spec_set_amount(
                        old(accounts)@[4].data@,
                        (spec_token_amount(old(accounts)@[4].data@) - claimable) as u64,
                    )
                    &&& final(accounts)@[2].key@ == old(accounts)@[2].key@
                    &&& final(accounts)@[2].owner@ == cfg.token_program_id@
                    &&& final(accounts)@[2].is_signer == old(accounts)@[2].is_signer
                    &&& final(accounts)@[2].lamports > 0
                    &&& final(accounts)@[2].data@ == spec_set_amount(
                        if AssociatedToken::spec_check_ok(
                            old(accounts)@[2],
                            old(accounts)@[0].key@,
                            old(accounts)@[5].key@,
                            *cfg,
                        ) {
                            old(accounts)@[2].data@
                        } else {
                            Seq::new(TOKEN_ACCOUNT_LEN as nat, |i: int| 0u8)
                        },
                        (if AssociatedToken::spec_check_ok(
                            old(accounts)@[2],
                            old(accounts)@[0].key@,
                            old(accounts)@[5].key@,
                            *cfg,
                        ) {
                            spec_token_amount(old(accounts)@[2].data@) as int
                        } else {
                            0
                        } + claimable) as u64,
                    )
                },
                Err(e) => {
                    &&& Claim::spec_error(old(accounts)@, now, *cfg) == Some(e)
                    &&& final(accounts)@ == old(accounts)@
                },
            },
    {
        if accounts.len() != Self::ACCOUNTS {
            return Err(PinocchioError::NotEnoughAccountKeys);
        }
        if let Err(e) = SignerAccount::check(&accounts[0]) {
            return Err(e);
        }
        if let Err(e) = ProgramAccount::check_token_program(&accounts[7], cfg) {
            return Err(e);
        }
        if let Err(e) = ProgramAccount::check_system_program(&accounts[6], cfg) {
            return Err(e);
        }
        if let Err(e) = ProgramAccount::check(
            &accounts[3],
            cfg,
            VestSchedule::LEN,
            VestSchedule::DISCRIMINATOR,
        ) {
            return Err(e);
        }
        if let Err(e) = ProgramAccount::check(
            &accounts[1],
            cfg,
            VestParticipant::LEN,
            VestParticipant::DISCRIMINATOR,
        ) {
            return Err(e);
        }
        if let Err(e) = ProgramAccount::check_ata_program(&accounts[8], cfg) {
            return Err(e);
        }
        let schedule = match VestSchedule::load(&accounts[3].data) {
            Ok(s) => s,
            Err(_) => {
                return Err(PinocchioError::InvalidAccountData);
            },
        };
        let participant_record = match VestParticipant::load(&accounts[1].data) {
            Ok(p) => p,
            Err(e) => {
                // The shape check above already pinned the record's length
                // and tag, so this branch cannot be taken.
                proof {
                    assert(false);
                }
                return Err(e);
            },
        };
        if !accounts[5].key.eq_key(&schedule.token_mint) {
            return Err(PinocchioError::InvalidAccountData);
        }
        if let Err(e) = AssociatedToken::check(
            &accounts[4],
            &accounts[1].key,
            &schedule.token_mint,
            cfg,
        ) {
            return Err(e);
        }
        let mut destination = accounts[2].clone_model();
        if let Err(e) = AssociatedToken::init_if_needed(
            &mut destination,
            &accounts[0].key,
            &accounts[5].key,
            cfg,
        ) {
            return Err(e);
        }
        let seeds = participant_seed_vec(&accounts[0].key, &accounts[3].key);
        if let Err(e) = ProgramAccount::verify(&seeds, &accounts[1], participant_record.bump, cfg) {
            return Err(e);
        }
        if !participant_record.participant.eq_key(&accounts[0].key) {
            return Err(PinocchioError::UnauthorizedPrincipal);
        }
        if !participant_record.schedule.eq_key(&accounts[3].key) {
            return Err(PinocchioError::InvalidAccountData);
        }
        let claimable = schedule.calculate_claimable_amount(
            now,
            participant_record.allocated_amount,
            participant_record.claimed_amount,
        );
        if claimable == 0 {
            return Err(PinocchioError::NoClaimableAmount);
        }
        let vault_amount = Token::amount(&accounts[4]);
        if vault_amount < claimable {
            return Err(PinocchioError::InsufficientFunds);
        }
        proof {
            lemma_claimable_within_allocation(
                schedule,
                now,
                participant_record.allocated_amount,
                participant_record.claimed_amount,
            );
        }
        let new_claimed = participant_record.claimed_amount.saturating_add(claimable);
        if new_claimed > participant_record.allocated_amount {
            return Err(PinocchioError::ClaimExceedsAllocation);
        }
        let destination_amount = Token::amount(&destination);
        let new_destination_amount = match destination_amount.checked_add(claimable) {
            Some(v) => v,
            None => {
                return Err(PinocchioError::InvalidAccountData);
            },
        };
        Token::set_amount(&mut destination, new_destination_amount);
        let new_vault = Token::with_amount(&accounts[4], vault_amount - claimable);
        let mut record = participant_record;
        record.set_claimed_amount(new_claimed);
        let mut new_participant_state = accounts[1].clone_model();
        new_participant_state.data = record.encode();
        accounts.set(2, destination);
        accounts.set(4, new_vault);
        accounts.set(1, new_participant_state);
        Ok(())
    }
}

/// Law: the claimed-within-allocation bound holds in every reachable
/// participant record. Enrollment creates records with nothing claimed, and
/// paying out the claimable amount at any time keeps the record within its
/// allocation.
pub proof fn lemma_claim_keeps_record_wf(s: VestSchedule, p: VestParticipant, now: u64)
    requires
        s.wf(),
        p.wf(),
    ensures
        (VestParticipant {
            claimed_amount: (p.claimed_amount + s.spec_claimable(
                now,
                p.allocated_amount,
                p.claimed_amount,
            )) as u64,
            ..p
        }).wf(),
{
    crate::schedule_state::lemma_claim_preserves_allocation_bound(
        s,
        now,
        p.allocated_amount,
        p.claimed_amount,
    );
}

} // verus!

use vstd::prelude::*;

use crate::account::{Account, ProgramConfig};
use crate::codec::spec_u64_of_le;
use crate::error::PinocchioError;
use crate::helpers::{
    spec_set_amount, spec_token_amount, AssociatedToken, Mint, ProgramAccount, SignerAccount, Token,
};
use crate::participant_state::VestParticipant;
use crate::pda::{derive_of, participant_seed_vec, spec_participant_seeds};
use crate::schedule_state::VestSchedule;

verus! {

/// The parsed payload of an AddParticipant instruction.
pub struct AddParticipantInstructionData {
    /// The amount set aside for the new participant.
    pub allocated_amount: u64,
    /// The claimed derivation nonce for the participant record's address.
    pub participant_bump: u8,
}

impl AddParticipantInstructionData {
    /// The byte length of the payload: the amount and the nonce.
    pub const LEN: usize = 9;

    /// The allocation stored in the payload.
    pub open spec fn spec_allocated(d: Seq<u8>) -> u64 {
        spec_u64_of_le(d.subrange(0, 8))
    }

    /// The claimed nonce stored in the payload.
    pub open spec fn spec_bump(d: Seq<u8>) -> u8
        recommends
            d.len() == AddParticipantInstructionData::LEN,
    {
        d[8]
    }

    /// The failure a payload parses to, or nothing when it is acceptable:
    /// the shape first, then the rule that an allocation is never zero.
    pub open spec fn spec_parse_error(d: Seq<u8>) -> Option<PinocchioError> {
        if d.len() != AddParticipantInstructionData::LEN {
            Some(PinocchioError::InvalidInstructionData)
        } else if Self::spec_allocated(d) == 0 {
            Some(PinocchioError::ZeroAllocation)
        } else {
            None
        }
    }

    /// Parses and validates a payload.
    pub fn parse(data: &Vec<u8>) -> (r: Result<AddParticipantInstructionData, PinocchioError>)
        ensures
            match r {
                Ok(x) => {
                    &&& Self::spec_parse_error(data@) is None
                    &&& x.allocated_amount == Self::spec_allocated(data@)
                    &&& x.participant_bump == Self::spec_bump(data@)
                },
                Err(e) => Self::spec_parse_error(data@) == Some(e),
            },
    {
        if data.len() != Self::LEN {
            return Err(PinocchioError::InvalidInstructionData);
        }
        let allocated_amount = crate::codec::read_u64_le(data, 0);
        let participant_bump = data[8];
        if allocated_amount == 0 {
            return Err(PinocchioError::ZeroAllocation);
        }
        Ok(AddParticipantInstructionData { allocated_amount, participant_bump })
    }
}

/// The AddParticipant operation: enrolls a participant under a schedule and
/// funds the participant's vault with the allocation.
pub struct AddParticipant;

impl AddParticipant {
    /// The opcode tag of the AddParticipant instruction.
    pub const DISCRIMINATOR: u8 = 1;

    /// The number of accounts AddParticipant takes: authority, the
    /// authority's holding, the vault, the participant, the participant
    /// record, the schedule, the mint, the system program, and the token
    /// program.
    pub const ACCOUNTS: usize = 9;

    /// The failure AddParticipant aborts with on the given world, payload,
    /// and time, or nothing when it succeeds. The checks run in this
    /// order: account count, authority signature, collaborator identities,
    /// the schedule record's shape, the mint's shape, the payload, the
    /// schedule's invariants, the cliff freeze, the authority and asset
    /// identities, the participant record's derivation, the authority's
    /// holding and balance, the vault, that the record does not exist yet,
    /// and that the vault balance cannot overflow.
    pub open spec fn spec_error(
        a: Seq<Account>,
        d: Seq<u8>,
        now: u64,
        cfg: ProgramConfig,
    ) -> Option<PinocchioError> {
        if a.len() != AddParticipant::ACCOUNTS {
            Some(PinocchioError::NotEnoughAccountKeys)
        } else if !a[0].is_signer {
            Some(PinocchioError::MissingSignature)
        } else if a[7].key@ != cfg.system_program_id@ {
            Some(PinocchioError::InvalidOwner)
        } else if a[8].key@ != cfg.token_program_id@ {
            Some(PinocchioError::InvalidOwner)
        } else if ProgramAccount::spec_check_error(
            a[5],
            cfg,
            VestSchedule::LEN,
            VestSchedule::DISCRIMINATOR,
        ) is Some {
            ProgramAccount::spec_check_error(
                a[5],
                cfg,
                VestSchedule::LEN,
                VestSchedule::DISCRIMINATOR,
            )
        } else if Mint::spec_check_error(a[6], cfg) is Some {
            Mint::spec_check_error(a[6], cfg)
        } else if AddParticipantInstructionData::spec_parse_error(d) is Some {
            AddParticipantInstructionData::spec_parse_error(d)
        } else if !VestSchedule::spec_bytes_wf(a[5].data@) {
            Some(PinocchioError::InvalidAccountData)
        } else if now >= VestSchedule::spec_start_of(a[5].data@) + VestSchedule::spec_cliff_of(
            a[5].data@,
        ) {
            Some(PinocchioError::AllocationFrozen)
        } else if a[0].key@ != VestSchedule::spec_authority_of(a[5].data@) {
            Some(PinocchioError::UnauthorizedPrincipal)
        } else if a[6].key@ != VestSchedule::spec_mint_of(a[5].data@) {
            Some(PinocchioError::InvalidAccountData)
        } else {
            match derive_of(spec_participant_seeds(a[3].key@, a[5].key@), cfg.program_id@) {
                None => Some(PinocchioError::AddressMismatch),
                Some(p) => {
                    if p.0 != a[4].key@ {
                        Some(PinocchioError::AddressMismatch)
                    } else if p.1 != AddParticipantInstructionData::spec_bump(d) {
                        Some(PinocchioError::NonceMismatch)
                    } else if AssociatedToken::spec_check_error(
                        a[1],
                        a[0].key@,
                        a[6].key@,
                        cfg,
                    ) is Some {
                        AssociatedToken::spec_check_error(a[1], a[0].key@, a[6].key@, cfg)
                    } else if spec_token_amount(a[1].data@)
                        < AddParticipantInstructionData::spec_allocated(d) {
                        Some(PinocchioError::InsufficientFunds)
                    } else if AssociatedToken::spec_check_error(
                        a[2],
                        a[4].key@,
                        a[6].key@,
                        cfg,
                    ) is Some {
                        AssociatedToken::spec_check_error(a[2], a[4].key@, a[6].key@, cfg)
                    } else if a[4].lamports > 0 {
                        Some(PinocchioError::AlreadyInitialized)
                    } else if spec_token_amount(a[2].data@)
                        + AddParticipantInstructionData::spec_allocated(d) > u64::MAX {
                        Some(PinocchioError::InvalidAccountData)
                    } else {
                        None
                    }
                },
            }
        }
    }

    /// Runs AddParticipant against the supplied accounts: validates
    /// everything `spec_error` lists, and on success creates the
    /// participant record with nothing claimed and moves the allocation
    /// from the authority's holding into the vault. A failed run changes
    /// nothing.
    pub fn process(
        accounts: &mut Vec<Account>,
        instruction_data: &Vec<u8>,
        now: u64,
        cfg: &ProgramConfig,
    ) -> (r: Result<(), PinocchioError>)
        requires
            cfg.wf(),
            forall|i: int|
                0 <= i < old(accounts)@.len() ==> (#[trigger] old(accounts)@[i]).wf(),
        ensures
            final(accounts)@.len() == old(accounts)@.len(),
            match r {
                Ok(()) => {
                    &&& AddParticipant::spec_error(old(accounts)@, instruction_data@, now, *cfg)
                        is None
                    &&& forall|i: int|
                        0 <= i < old(accounts)@.len() && i != 1 && i != 2 && i != 4
                            ==> final(accounts)@[i] == old(accounts)@[i]
                    &&& final(accounts)@[4].key@ == old(accounts)@[4].key@
                    &&& final(accounts)@[4].owner@ == cfg.program_id@
                    &&& final(accounts)@[4].is_signer == old(accounts)@[4].is_signer
                    &&& final(accounts)@[4].lamports > 0
                    &&& final(accounts)@[4].data@ == VestParticipant::spec_image(
                        old(accounts)@[3].key@,
                        old(accounts)@[5].key@,
                        AddParticipantInstructionData::spec_allocated(instruction_data@),
                        0,
                        AddParticipantInstructionData::spec_bump(instruction_data@),
                    )
                    &&& final(accounts)@[1].key@ == old(accounts)@[1].key@
                    &&& final(accounts)@[1].owner@ == old(accounts)@[1].owner@
                    &&& final(accounts)@[1].is_signer == old(accounts)@[1].is_signer
                    &&& final(accounts)@[1].lamports == old(accounts)@[1].lamports
                    &&& final(accounts)@[1].data@ == spec_set_amount(
                        old(accounts)@[1].data@,
                        (spec_token_amount(old(accounts)@[1].data@)
                            - AddParticipantInstructionData::spec_allocated(
                            instruction_data@,
                        )) as u64,
                    )
                    &&& final(accounts)@[2].key@ == old(accounts)@[2].key@
                    &&& final(accounts)@[2].owner@ == old(accounts)@[2].owner@
                    &&& final(accounts)@[2].is_signer == old(accounts)@[2].is_signer
                    &&& final(accounts)@[2].lamports == old(accounts)@[2].lamports
                    &&& final(accounts)@[2].data@ == spec_set_amount(
                        old(accounts)@[2].data@,
                        (spec_token_amount(old(accounts)@[2].data@)
                            + AddParticipantInstructionData::spec_allocated(
                            instruction_data@,
                        )) as u64,
                    )
                },
                Err(e) => {
                    &&& AddParticipant::spec_error(old(accounts)@, instruction_data@, now, *cfg)
                        == Some(e)
                    &&& final(accounts)@ == old(accounts)@
                },
            },
    {
        if accounts.len() != Self::ACCOUNTS {
            return Err(PinocchioError::NotEnoughAccountKeys);
        }
        if let Err(e) = SignerAccount::check(&accounts[0]) {
            return Err(e);
        }
        if let Err(e) = ProgramAccount::check_system_program(&accounts[7], cfg) {
            return Err(e);
        }
        if let Err(e) = ProgramAccount::check_token_program(&accounts[8], cfg) {
            return Err(e);
        }
        if let Err(e) = ProgramAccount::check(
            &accounts[5],
            cfg,
            VestSchedule::LEN,
            VestSchedule::DISCRIMINATOR,
        ) {
            return Err(e);
        }
        if let Err(e) = Mint::check(&accounts[6], cfg) {
            return Err(e);
        }
        let data = match AddParticipantInstructionData::parse(instruction_data) {
            Ok(d) => d,
            Err(e) => {
                return Err(e);
            },
        };
        let schedule = match VestSchedule::load(&accounts[5].data) {
            Ok(s) => s,
            Err(_) => {
                return Err(PinocchioError::InvalidAccountData);
            },
        };
        if schedule.is_cliff_completed(now) {
            return Err(PinocchioError::AllocationFrozen);
        }
        if !accounts[0].key.eq_key(&schedule.authority) {
            return Err(PinocchioError::UnauthorizedPrincipal);
        }
        if !accounts[6].key.eq_key(&schedule.token_mint) {
            return Err(PinocchioError::InvalidAccountData);
        }
        let seeds = participant_seed_vec(&accounts[3].key, &accounts[5].key);
        if let Err(e) = ProgramAccount::verify(&seeds, &accounts[4], data.participant_bump, cfg) {
            return Err(e);
        }
        if let Err(e) = AssociatedToken::check(
            &accounts[1],
            &accounts[0].key,
            &accounts[6].key,
            cfg,
        ) {
            return Err(e);
        }
        let authority_amount = Token::amount(&accounts[1]);
        if authority_amount < data.allocated_amount {
            return Err(PinocchioError::InsufficientFunds);
        }
        if let Err(e) = AssociatedToken::check(
            &accounts[2],
            &accounts[4].key,
            &accounts[6].key,
            cfg,
        ) {
            return Err(e);
        }
        let mut ps = accounts[4].clone_model();
        if let Err(e) = ProgramAccount::init(&mut ps, cfg, VestParticipant::LEN) {
            return Err(e);
        }
        let vault_amount = Token::amount(&accounts[2]);
        let new_vault_amount = match vault_amount.checked_add(data.allocated_amount) {
            Some(v) => v,
            None => {
                return Err(PinocchioError::InvalidAccountData);
            },
        };
        let record = VestParticipant {
            participant: accounts[3].key.copy_key(),
            schedule: accounts[5].key.copy_key(),
            allocated_amount: data.allocated_amount,
            claimed_amount: 0,
            bump: data.participant_bump,
        };
        ps.data = record.encode();
        let new_authority_ata = Token::with_amount(
            &accounts[1],
            authority_amount - data.allocated_amount,
        );
        let new_vault = Token::with_amount(&accounts[2], new_vault_amount);
        accounts.set(4, ps);
        accounts.set(1, new_authority_ata);
        accounts.set(2, new_vault);
        Ok(())
    }
}

} // verus!

use vstd::prelude::*;

use crate::account::{Account, ProgramConfig};
use crate::codec::spec_u64_of_le;
use crate::error::PinocchioError;
use crate::helpers::{Mint, ProgramAccount, SignerAccount, MINT_LEN};
use crate::pda::{derive_of, schedule_seed_vec, spec_schedule_seeds};
use crate::schedule_state::VestSchedule;

verus! {

/// The parsed payload of an Initialize instruction.
pub struct InitializeInstructionData {
    /// The disambiguating seed for the schedule's address.
    pub seed: u64,
    /// When vesting time begins to count.
    pub start_timestamp: u64,
    /// Seconds after the start during which nothing vests.
    pub cliff_duration: u64,
    /// Seconds after the start at which everything has vested.
    pub total_duration: u64,
    /// Seconds between post-cliff vesting checkpoints.
    pub step_duration: u64,
    /// The claimed derivation nonce for the schedule's address.
    pub bump: u8,
}

impl InitializeInstructionData {
    /// The byte length of the payload: five 64-bit fields and the nonce.
    pub const LEN: usize = 41;

    /// The seed stored in the payload.
    pub open spec fn spec_seed(d: Seq<u8>) -> u64 {
        spec_u64_of_le(d.subrange(0, 8))
    }

    /// The start timestamp stored in the payload.
    pub open spec fn spec_start(d: Seq<u8>) -> u64 {
        spec_u64_of_le(d.subrange(8, 16))
    }

    /// The cliff duration stored in the payload.
    pub open spec fn spec_cliff(d: Seq<u8>) -> u64 {
        spec_u64_of_le(d.subrange(16, 24))
    }

    /// The total duration stored in the payload.
    pub open spec fn spec_total(d: Seq<u8>) -> u64 {
        spec_u64_of_le(d.subrange(24, 32))
    }

    /// The step duration stored in the payload.
    pub open spec fn spec_step(d: Seq<u8>) -> u64 {
        spec_u64_of_le(d.subrange(32, 40))
    }

    /// The claimed nonce stored in the payload.
    pub open spec fn spec_bump(d: Seq<u8>) -> u8
        recommends
            d.len() == InitializeInstructionData::LEN,
    {
        d[40]
    }

    /// The failure a payload parses to at time `now`, or nothing when it is
    /// acceptable: the shape, the seed, the start time, and the duration
    /// invariants are checked in that order.
    pub open spec fn spec_parse_error(d: Seq<u8>, now: u64) -> Option<PinocchioError> {
        if d.len() != InitializeInstructionData::LEN {
            Some(PinocchioError::InvalidInstructionData)
        } else {
            let seed = Self::spec_seed(d);
            let start = Self::spec_start(d);
            let cliff = Self::spec_cliff(d);
            let total = Self::spec_total(d);
            let step = Self::spec_step(d);
            if seed == 0 {
                Some(PinocchioError::InvalidSeed)
            } else if start < now {
                Some(PinocchioError::StartTimestampInPast)
            } else if cliff >= total || step >= total || cliff == 0 || step == 0 {
                Some(PinocchioError::InvalidDurations)
            } else if (total - cliff) % (step as int) != 0 {
                Some(PinocchioError::InvalidStepDuration)
            } else {
                None
            }
        }
    }

    /// Parses and validates a payload against the current time.
    pub fn parse(data: &Vec<u8>, now: u64) -> (r: Result<
        InitializeInstructionData,
        PinocchioError,
    >)
        ensures
            match r {
                Ok(x) => {
                    &&& Self::spec_parse_error(data@, now) is None
                    &&& x.seed == Self::spec_seed(data@)
                    &&& x.start_timestamp == Self::spec_start(data@)
                    &&& x.cliff_duration == Self::spec_cliff(data@)
                    &&& x.total_duration == Self::spec_total(data@)
                    &&& x.step_duration == Self::spec_step(data@)
                    &&& x.bump == Self::spec_bump(data@)
                },
                Err(e) => Self::spec_parse_error(data@, now) == Some(e),
            },
    {
        if data.len() != Self::LEN {
            return Err(PinocchioError::InvalidInstructionData);
        }
        let seed = crate::codec::read_u64_le(data, 0);
        let start_timestamp = crate::codec::read_u64_le(data, 8);
        let cliff_duration = crate::codec::read_u64_le(data, 16);
        let total_duration = crate::codec::read_u64_le(data, 24);
        let step_duration = crate::codec::read_u64_le(data, 32);
        let bump = data[40];
        if seed == 0 {
            return Err(PinocchioError::InvalidSeed);
        }
        if start_timestamp < now {
            return Err(PinocchioError::StartTimestampInPast);
        }
        if cliff_duration >= total_duration || step_duration >= total_duration || cliff_duration
            == 0 || step_duration == 0 {
            return Err(PinocchioError::InvalidDurations);
        }
        if (total_duration - cliff_duration) % step_duration != 0 {
            return Err(PinocchioError::InvalidStepDuration);
        }
        Ok(
            InitializeInstructionData {
                seed,
                start_timestamp,
                cliff_duration,
                total_duration,
                step_duration,
                bump,
            },
        )
    }
}

/// The Initialize operation: creates a vesting schedule.
pub struct Initialize;

impl Initialize {
    /// The opcode tag of the Initialize instruction.
    pub const DISCRIMINATOR: u8 = 0;

    /// The number of accounts Initialize takes: initializer, schedule,
    /// mint, system program, token program.
    pub const ACCOUNTS: usize = 5;

    /// The failure Initialize aborts with on the given world, payload, and
    /// time, or nothing when it succeeds. The checks run in this order:
    /// account count, initializer signature, collaborator identities, the
    /// mint's shape, the payload, the schedule account's derivation, and
    /// that the target is not yet funded.
    pub open spec fn spec_error(
        a: Seq<Account>,
        d: Seq<u8>,
        now: u64,
        cfg: ProgramConfig,
    ) -> Option<PinocchioError> {
        if a.len() != Initialize::ACCOUNTS {
            Some(PinocchioError::NotEnoughAccountKeys)
        } else if !a[0].is_signer {
            Some(PinocchioError::MissingSignature)
        } else if a[3].key@ != cfg.system_program_id@ {
            Some(PinocchioError::InvalidOwner)
        } else if a[4].key@ != cfg.token_program_id@ {
            Some(PinocchioError::InvalidOwner)
        } else if a[2].owner@ != cfg.token_program_id@ {
            Some(PinocchioError::InvalidOwner)
        } else if a[2].data@.len() != MINT_LEN {
            Some(PinocchioError::InvalidAccountData)
        } else if InitializeInstructionData::spec_parse_error(d, now) is Some {
            InitializeInstructionData::spec_parse_error(d, now)
        } else {
            let seeds = spec_schedule_seeds(
                InitializeInstructionData::spec_seed(d),
                a[2].key@,
                a[0].key@,
            );
            match derive_of(seeds, cfg.program_id@) {
                None => Some(PinocchioError::AddressMismatch),
                Some(p) => {
                    if p.0 != a[1].key@ {
                        Some(PinocchioError::AddressMismatch)
                    } else if p.1 != InitializeInstructionData::spec_bump(d) {
                        Some(PinocchioError::NonceMismatch)
                    } else if a[1].lamports > 0 {
                        Some(PinocchioError::AlreadyInitialized)
                    } else {
                        None
                    }
                },
            }
        }
    }

    /// Runs Initialize against the supplied accounts: validates everything
    /// `spec_error` lists, and on success allocates the schedule account
    /// and writes the schedule record into it. A failed run changes
    /// nothing.
    pub fn process(
        accounts: &mut Vec<Account>,
        instruction_data: &Vec<u8>,
        now: u64,
        cfg: &ProgramConfig,
    ) -> (r: Result<(), PinocchioError>)
        requires
            cfg.wf(),
            forall|i: int|
                0 <= i < old(accounts)@.len() ==> (#[trigger] old(accounts)@[i]).wf(),
        ensures
            final(accounts)@.len() == old(accounts)@.len(),
            match r {
                Ok(()) => {
                    &&& Initialize::spec_error(old(accounts)@, instruction_data@, now, *cfg)
                        is None
                    &&& forall|i: int|
                        0 <= i < old(accounts)@.len() && i != 1 ==> final(accounts)@[i] == old(
                            accounts,
                        )@[i]
                    &&& final(accounts)@[1].key@ == old(accounts)@[1].key@
                    &&& final(accounts)@[1].owner@ == cfg.program_id@
                    &&& final(accounts)@[1].is_signer == old(accounts)@[1].is_signer
                    &&& final(accounts)@[1].lamports > 0
                    &&& final(accounts)@[1].data@ == VestSchedule::spec_image(
                        old(accounts)@[2].key@,
                        old(accounts)@[0].key@,
                        InitializeInstructionData::spec_seed(instruction_data@),
                        InitializeInstructionData::spec_start(instruction_data@),
                        InitializeInstructionData::spec_cliff(instruction_data@),
                        InitializeInstructionData::spec_total(instruction_data@),
                        InitializeInstructionData::spec_step(instruction_data@),
                        InitializeInstructionData::spec_bump(instruction_data@),
                    )
                },
                Err(e) => {
                    &&& Initialize::spec_error(old(accounts)@, instruction_data@, now, *cfg)
                        == Some(e)
                    &&& final(accounts)@ == old(accounts)@
                },
            },
    {
        if accounts.len() != Self::ACCOUNTS {
            return Err(PinocchioError::NotEnoughAccountKeys);
        }
        if let Err(e) = SignerAccount::check(&accounts[0]) {
            return Err(e);
        }
        if let Err(e) = ProgramAccount::check_system_program(&accounts[3], cfg) {
            return Err(e);
        }
        if let Err(e) = ProgramAccount::check_token_program(&accounts[4], cfg) {
            return Err(e);
        }
        if let Err(e) = Mint::check(&accounts[2], cfg) {
            return Err(e);
        }
        let data = match InitializeInstructionData::parse(instruction_data, now) {
            Ok(d) => d,
            Err(e) => {
                return Err(e);
            },
        };
        let seeds = schedule_seed_vec(data.seed, &accounts[2].key, &accounts[0].key);
        if let Err(e) = ProgramAccount::verify(&seeds, &accounts[1], data.bump, cfg) {
            return Err(e);
        }
        let mut vs = accounts[1].clone_model();
        if let Err(e) = ProgramAccount::init(&mut vs, cfg, VestSchedule::LEN) {
            return Err(e);
        }
        let schedule = VestSchedule {
            token_mint: accounts[2].key.copy_key(),
            authority: accounts[0].key.copy_key(),
            seed: data.seed,
            start_timestamp: data.start_timestamp,
            cliff_duration: data.cliff_duration,
            total_duration: data.total_duration,
            step_duration: data.step_duration,
            bump: data.bump,
        };
        vs.data = schedule.encode();
        accounts.set(1, vs);
        Ok(())
    }
}

/// Law: once an Initialize has succeeded, a second Initialize aimed at the
/// same derived schedule account fails with `AlreadyInitialized`: the first
/// run leaves the target funded, and a funded target is the one thing the
/// unchanged instruction now trips over.
pub proof fn lemma_second_initialize_rejected(
    a: Seq<Account>,
    b: Seq<Account>,
    d: Seq<u8>,
    now: u64,
    cfg: ProgramConfig,
)
    requires
        Initialize::spec_error(a, d, now, cfg) is None,
        b.len() == a.len(),
        forall|i: int| 0 <= i < a.len() && i != 1 ==> b[i] == a[i],
        b[1].key@ == a[1].key@,
        b[1].lamports > 0,
    ensures
        Initialize::spec_error(b, d, now, cfg) == Some(PinocchioError::AlreadyInitialized),
{
}

} // verus!

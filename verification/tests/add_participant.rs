use vesting::account::{Account, ProgramConfig};
use vesting::add_participant::AddParticipant;
use vesting::error::PinocchioError;
use vesting::helpers::Token;
use vesting::pda;
use vesting::pubkey::Pubkey;
use vesting::schedule_state::VestSchedule;

// January 1, 2025 00:00:00 UTC
const JAN_1_2025: u64 = 1735689600;
const ONE_DAY: u64 = 86_400;

fn key(tag: u8) -> Pubkey {
    Pubkey::new(vec![tag; 32])
}

fn config() -> ProgramConfig {
    ProgramConfig {
        program_id: key(240),
        system_program_id: key(241),
        token_program_id: key(242),
        ata_program_id: key(243),
    }
}

fn signer_account(k: &Pubkey) -> Account {
    Account {
        key: k.copy_key(),
        owner: key(0),
        is_signer: true,
        lamports: 10_000_000_000,
        data: vec![],
    }
}

fn wallet_account(k: &Pubkey) -> Account {
    Account {
        key: k.copy_key(),
        owner: key(0),
        is_signer: false,
        lamports: 1,
        data: vec![],
    }
}

fn system_program_account(cfg: &ProgramConfig) -> Account {
    Account {
        key: cfg.system_program_id.copy_key(),
        owner: key(0),
        is_signer: false,
        lamports: 1,
        data: vec![],
    }
}

fn token_program_account(cfg: &ProgramConfig) -> Account {
    Account {
        key: cfg.token_program_id.copy_key(),
        owner: key(0),
        is_signer: false,
        lamports: 1,
        data: vec![],
    }
}

fn mint_account(k: &Pubkey, cfg: &ProgramConfig) -> Account {
    Account {
        key: k.copy_key(),
        owner: cfg.token_program_id.copy_key(),
        is_signer: false,
        lamports: 10_000_000,
        data: vec![0u8; 82],
    }
}

fn empty_account(k: &Pubkey) -> Account {
    Account {
        key: k.copy_key(),
        owner: key(0),
        is_signer: false,
        lamports: 0,
        data: vec![],
    }
}

fn token_account(k: &Pubkey, amount: u64, cfg: &ProgramConfig) -> Account {
    let mut data = vec![0u8; 165];
    data[64..72].copy_from_slice(&amount.to_le_bytes());
    Account {
        key: k.copy_key(),
        owner: cfg.token_program_id.copy_key(),
        is_signer: false,
        lamports: 10_000_000,
        data,
    }
}

fn derive_ata(wallet: &Pubkey, mint: &Pubkey, cfg: &ProgramConfig) -> Pubkey {
    let seeds = vec![
        wallet.to_bytes(),
        cfg.token_program_id.to_bytes(),
        mint.to_bytes(),
    ];
    pda::derive_address(&seeds, &cfg.ata_program_id)
        .expect("derivation should find an address")
        .0
}

fn derive_vest_schedule_pda(
    seed: u64,
    mint: &Pubkey,
    authority: &Pubkey,
    cfg: &ProgramConfig,
) -> (Pubkey, u8) {
    let seeds = pda::schedule_seed_vec(seed, mint, authority);
    pda::derive_address(&seeds, &cfg.program_id).expect("derivation should find an address")
}

fn derive_participant_pda(
    participant: &Pubkey,
    schedule: &Pubkey,
    cfg: &ProgramConfig,
) -> (Pubkey, u8) {
    let seeds = pda::participant_seed_vec(participant, schedule);
    pda::derive_address(&seeds, &cfg.program_id).expect("derivation should find an address")
}

fn schedule_account(
    authority: &Pubkey,
    mint: &Pubkey,
    seed: u64,
    start_timestamp: u64,
    cfg: &ProgramConfig,
) -> Account {
    let (schedule_pda, bump) = derive_vest_schedule_pda(seed, mint, authority, cfg);
    let record = VestSchedule {
        token_mint: mint.copy_key(),
        authority: authority.copy_key(),
        seed,
        start_timestamp,
        cliff_duration: ONE_DAY,
        total_duration: ONE_DAY * 10,
        step_duration: ONE_DAY,
        bump,
    };
    Account {
        key: schedule_pda.copy_key(),
        owner: cfg.program_id.copy_key(),
        is_signer: false,
        lamports: 10_000_000,
        data: record.encode(),
    }
}

fn create_add_participant_instruction_data(allocated_amount: u64, participant_bump: u8) -> Vec<u8> {
    let mut data = Vec::new();
    data.extend_from_slice(&allocated_amount.to_le_bytes());
    data.push(participant_bump);
    data
}

/// The nine accounts of a well-formed AddParticipant call, with the vault at
/// the canonical holding of the participant record and the authority holding
/// funded with `authority_balance`.
fn add_participant_world(
    authority: &Pubkey,
    participant: &Pubkey,
    mint: &Pubkey,
    seed: u64,
    start_timestamp: u64,
    authority_balance: u64,
    cfg: &ProgramConfig,
) -> (Vec<Account>, u8) {
    let schedule = schedule_account(authority, mint, seed, start_timestamp, cfg);
    let (participant_state, participant_bump) =
        derive_participant_pda(participant, &schedule.key, cfg);
    let authority_ata = derive_ata(authority, mint, cfg);
    let vault = derive_ata(&participant_state, mint, cfg);
    let accounts = vec![
        signer_account(authority),
        token_account(&authority_ata, authority_balance, cfg),
        token_account(&vault, 0, cfg),
        wallet_account(participant),
        empty_account(&participant_state),
        schedule,
        mint_account(mint, cfg),
        system_program_account(cfg),
        token_program_account(cfg),
    ];
    (accounts, participant_bump)
}

#[test]
fn test_add_participant_success() {
    let cfg = config();
    let authority = key(1);
    let participant = key(2);
    let mint = key(3);
    // Schedule starts tomorrow (before cliff)
    let (mut accounts, bump) = add_participant_world(
        &authority,
        &participant,
        &mint,
        12345,
        JAN_1_2025 + ONE_DAY,
        1_000_000,
        &cfg,
    );
    let data = create_add_participant_instruction_data(100_000, bump);

    let result = AddParticipant::process(&mut accounts, &data, JAN_1_2025, &cfg);
    assert!(result.is_ok(), "Transaction should succeed");
    assert!(accounts[4].lamports > 0, "Participant state should exist");
    assert_eq!(accounts[4].owner, cfg.program_id, "Should be owned by program");
    assert_eq!(
        Token::amount(&accounts[2]),
        100_000,
        "Vault should have allocated amount"
    );
    assert_eq!(
        Token::amount(&accounts[1]),
        1_000_000 - 100_000,
        "Authority ATA should have reduced balance"
    );
}

#[test]
fn test_add_participant_after_cliff() {
    let cfg = config();
    let authority = key(1);
    let participant = key(2);
    let mint = key(3);
    // Schedule started 5 days ago, cliff is 1 day (already passed!)
    let (mut accounts, bump) = add_participant_world(
        &authority,
        &participant,
        &mint,
        12345,
        JAN_1_2025 - ONE_DAY * 5,
        1_000_000,
        &cfg,
    );
    let data = create_add_participant_instruction_data(100_000, bump);

    let result = AddParticipant::process(&mut accounts, &data, JAN_1_2025, &cfg);
    assert_eq!(
        result,
        Err(PinocchioError::AllocationFrozen),
        "Should fail - cannot add participants after cliff"
    );
}

#[test]
fn test_add_participant_insufficient_funds() {
    let cfg = config();
    let authority = key(1);
    let participant = key(2);
    let mint = key(3);
    // Only 50k tokens, trying to allocate 100k
    let (mut accounts, bump) = add_participant_world(
        &authority,
        &participant,
        &mint,
        12345,
        JAN_1_2025 + ONE_DAY,
        50_000,
        &cfg,
    );
    let data = create_add_participant_instruction_data(100_000, bump);

    let result = AddParticipant::process(&mut accounts, &data, JAN_1_2025, &cfg);
    assert_eq!(
        result,
        Err(PinocchioError::InsufficientFunds),
        "Should fail with insufficient funds"
    );
}

#[test]
fn test_add_participant_wrong_authority() {
    let cfg = config();
    let authority = key(1);
    let wrong_authority = key(4);
    let participant = key(2);
    let mint = key(3);
    let (mut accounts, bump) = add_participant_world(
        &authority,
        &participant,
        &mint,
        12345,
        JAN_1_2025 + ONE_DAY,
        1_000_000,
        &cfg,
    );
    // The schedule names `authority`, but `wrong_authority` signs and funds.
    accounts[0] = signer_account(&wrong_authority);
    let wrong_authority_ata = derive_ata(&wrong_authority, &mint, &cfg);
    accounts[1] = token_account(&wrong_authority_ata, 1_000_000, &cfg);
    let data = create_add_participant_instruction_data(100_000, bump);

    let result = AddParticipant::process(&mut accounts, &data, JAN_1_2025, &cfg);
    assert_eq!(
        result,
        Err(PinocchioError::UnauthorizedPrincipal),
        "Should fail with wrong authority"
    );
}

#[test]
fn test_add_participant_zero_allocation() {
    let cfg = config();
    let authority = key(1);
    let participant = key(2);
    let mint = key(3);
    let (mut accounts, bump) = add_participant_world(
        &authority,
        &participant,
        &mint,
        12345,
        JAN_1_2025 + ONE_DAY,
        1_000_000,
        &cfg,
    );
    let data = create_add_participant_instruction_data(0, bump);

    let result = AddParticipant::process(&mut accounts, &data, JAN_1_2025, &cfg);
    assert_eq!(
        result,
        Err(PinocchioError::ZeroAllocation),
        "Should fail with zero allocation"
    );
}

#[test]
fn test_add_participant_wrong_token_mint() {
    let cfg = config();
    let authority = key(1);
    let participant = key(2);
    let mint = key(3);
    let wrong_mint = key(5);
    let (mut accounts, bump) = add_participant_world(
        &authority,
        &participant,
        &mint,
        12345,
        JAN_1_2025 + ONE_DAY,
        1_000_000,
        &cfg,
    );
    // The schedule names `mint`, but `wrong_mint` is passed and funded.
    accounts[6] = mint_account(&wrong_mint, &cfg);
    let wrong_ata = derive_ata(&authority, &wrong_mint, &cfg);
    accounts[1] = token_account(&wrong_ata, 1_000_000, &cfg);
    let data = create_add_participant_instruction_data(100_000, bump);

    let result = AddParticipant::process(&mut accounts, &data, JAN_1_2025, &cfg);
    assert_eq!(
        result,
        Err(PinocchioError::InvalidAccountData),
        "Should fail with wrong token mint"
    );
}

#[test]
fn test_add_participant_vault_not_created() {
    let cfg = config();
    let authority = key(1);
    let participant = key(2);
    let mint = key(3);
    let (mut accounts, bump) = add_participant_world(
        &authority,
        &participant,
        &mint,
        12345,
        JAN_1_2025 + ONE_DAY,
        1_000_000,
        &cfg,
    );
    // Derive the vault address but leave the account uncreated.
    let vault_key = accounts[2].key.copy_key();
    accounts[2] = empty_account(&vault_key);
    let data = create_add_participant_instruction_data(100_000, bump);

    let result = AddParticipant::process(&mut accounts, &data, JAN_1_2025, &cfg);
    assert_eq!(
        result,
        Err(PinocchioError::InvalidOwner),
        "Should fail when vault is not created"
    );
}

#[test]
fn test_add_participant_double_initialization() {
    let cfg = config();
    let authority = key(1);
    let participant = key(2);
    let mint = key(3);
    let (mut accounts, bump) = add_participant_world(
        &authority,
        &participant,
        &mint,
        12345,
        JAN_1_2025 + ONE_DAY,
        1_000_000,
        &cfg,
    );
    let data = create_add_participant_instruction_data(100_000, bump);

    let result = AddParticipant::process(&mut accounts, &data, JAN_1_2025, &cfg);
    assert!(result.is_ok(), "First transaction should succeed");

    let result2 = AddParticipant::process(&mut accounts, &data, JAN_1_2025, &cfg);
    assert_eq!(
        result2,
        Err(PinocchioError::AlreadyInitialized),
        "Should prevent double initialization"
    );
}

#[test]
fn test_add_participant_wrong_bump() {
    let cfg = config();
    let authority = key(1);
    let participant = key(2);
    let mint = key(3);
    let (mut accounts, correct_bump) = add_participant_world(
        &authority,
        &participant,
        &mint,
        12345,
        JAN_1_2025 + ONE_DAY,
        1_000_000,
        &cfg,
    );
    let wrong_bump = correct_bump.wrapping_add(1);
    let data = create_add_participant_instruction_data(100_000, wrong_bump);

    let result = AddParticipant::process(&mut accounts, &data, JAN_1_2025, &cfg);
    assert_eq!(
        result,
        Err(PinocchioError::NonceMismatch),
        "Should fail with wrong bump"
    );
}

#[test]
fn test_add_participant_authority_not_signer() {
    let cfg = config();
    let authority = key(1);
    let participant = key(2);
    let mint = key(3);
    let (mut accounts, bump) = add_participant_world(
        &authority,
        &participant,
        &mint,
        12345,
        JAN_1_2025 + ONE_DAY,
        1_000_000,
        &cfg,
    );
    accounts[0].is_signer = false;
    let data = create_add_participant_instruction_data(100_000, bump);

    let result = AddParticipant::process(&mut accounts, &data, JAN_1_2025, &cfg);
    assert_eq!(
        result,
        Err(PinocchioError::MissingSignature),
        "Should fail when authority is not signer"
    );
}

use vesting::account::{Account, ProgramConfig};
use vesting::error::PinocchioError;
use vesting::initialize::Initialize;
use vesting::pda;
use vesting::pubkey::Pubkey;
use vesting::schedule_state::VestSchedule;

// January 1, 2025 00:00:00 UTC
const JAN_1_2025: u64 = 1735689600;
const ONE_DAY: u64 = 86_400;

fn key(tag: u8) -> Pubkey {
    Pubkey::new(vec![tag; 32])
}

fn config() -> ProgramConfig {
    ProgramConfig {
        program_id: key(240),
        system_program_id: key(241),
        token_program_id: key(242),
        ata_program_id: key(243),
    }
}

fn signer_account(k: &Pubkey) -> Account {
    Account {
        key: k.copy_key(),
        owner: key(0),
        is_signer: true,
        lamports: 10_000_000_000,
        data: vec![],
    }
}

fn system_program_account(cfg: &ProgramConfig) -> Account {
    Account {
        key: cfg.system_program_id.copy_key(),
        owner: key(0),
        is_signer: false,
        lamports: 1,
        data: vec![],
    }
}

fn token_program_account(cfg: &ProgramConfig) -> Account {
    Account {
        key: cfg.token_program_id.copy_key(),
        owner: key(0),
        is_signer: false,
        lamports: 1,
        data: vec![],
    }
}

fn mint_account(k: &Pubkey, cfg: &ProgramConfig) -> Account {
    Account {
        key: k.copy_key(),
        owner: cfg.token_program_id.copy_key(),
        is_signer: false,
        lamports: 10_000_000,
        data: vec![0u8; 82],
    }
}

fn empty_account(k: &Pubkey) -> Account {
    Account {
        key: k.copy_key(),
        owner: key(0),
        is_signer: false,
        lamports: 0,
        data: vec![],
    }
}

fn derive_vest_schedule_pda(
    seed: u64,
    mint: &Pubkey,
    initializer: &Pubkey,
    cfg: &ProgramConfig,
) -> (Pubkey, u8) {
    let seeds = pda::schedule_seed_vec(seed, mint, initializer);
    pda::derive_address(&seeds, &cfg.program_id).expect("derivation should find an address")
}

fn create_initialize_instruction_data(
    seed: u64,
    start_timestamp: u64,
    cliff_duration: u64,
    total_duration: u64,
    step_duration: u64,
    bump: u8,
) -> Vec<u8> {
    let mut data = Vec::new();
    data.extend_from_slice(&seed.to_le_bytes());
    data.extend_from_slice(&start_timestamp.to_le_bytes());
    data.extend_from_slice(&cliff_duration.to_le_bytes());
    data.extend_from_slice(&total_duration.to_le_bytes());
    data.extend_from_slice(&step_duration.to_le_bytes());
    data.push(bump);
    data
}

fn initialize_accounts(
    initializer: &Pubkey,
    schedule: &Pubkey,
    mint: &Pubkey,
    cfg: &ProgramConfig,
) -> Vec<Account> {
    vec![
        signer_account(initializer),
        empty_account(schedule),
        mint_account(mint, cfg),
        system_program_account(cfg),
        token_program_account(cfg),
    ]
}

#[test]
fn test_initialize_success() {
    let cfg = config();
    let initializer = key(1);
    let mint = key(2);
    let seed = 12345u64;
    let start_timestamp = JAN_1_2025 + ONE_DAY;
    let (schedule_pda, bump) = derive_vest_schedule_pda(seed, &mint, &initializer, &cfg);
    let mut accounts = initialize_accounts(&initializer, &schedule_pda, &mint, &cfg);
    let data = create_initialize_instruction_data(
        seed,
        start_timestamp,
        ONE_DAY,
        ONE_DAY * 10,
        ONE_DAY,
        bump,
    );

    let result = Initialize::process(&mut accounts, &data, JAN_1_2025, &cfg);
    assert!(result.is_ok(), "Transaction should succeed");
    assert!(accounts[1].lamports > 0, "Vest schedule account should exist");
    assert_eq!(accounts[1].owner, cfg.program_id, "Should be owned by program");
    assert_eq!(
        accounts[1].data.len(),
        VestSchedule::LEN,
        "Should have correct data length"
    );

    let record = VestSchedule::load(&accounts[1].data).expect("stored record should parse");
    assert_eq!(record.seed, seed);
    assert_eq!(record.start_timestamp, start_timestamp);
    assert_eq!(record.cliff_duration, ONE_DAY);
    assert_eq!(record.total_duration, ONE_DAY * 10);
    assert_eq!(record.step_duration, ONE_DAY);
    assert_eq!(record.bump, bump);
    assert_eq!(record.token_mint, mint);
    assert_eq!(record.authority, initializer);
}

#[test]
fn test_initialize_start_timestamp_in_past() {
    let cfg = config();
    let initializer = key(1);
    let mint = key(2);
    let seed = 12345u64;
    let start_timestamp = JAN_1_2025 - ONE_DAY;
    let (schedule_pda, bump) = derive_vest_schedule_pda(seed, &mint, &initializer, &cfg);
    let mut accounts = initialize_accounts(&initializer, &schedule_pda, &mint, &cfg);
    let data = create_initialize_instruction_data(
        seed,
        start_timestamp,
        ONE_DAY,
        ONE_DAY * 10,
        ONE_DAY,
        bump,
    );

    let result = Initialize::process(&mut accounts, &data, JAN_1_2025, &cfg);
    assert_eq!(
        result,
        Err(PinocchioError::StartTimestampInPast),
        "Should fail with start timestamp in past"
    );
}

#[test]
fn test_initialize_cliff_greater_than_total() {
    let cfg = config();
    let initializer = key(1);
    let mint = key(2);
    let seed = 12345u64;
    let (schedule_pda, bump) = derive_vest_schedule_pda(seed, &mint, &initializer, &cfg);
    let mut accounts = initialize_accounts(&initializer, &schedule_pda, &mint, &cfg);
    let data = create_initialize_instruction_data(
        seed,
        JAN_1_2025 + ONE_DAY,
        ONE_DAY * 10,
        ONE_DAY,
        ONE_DAY,
        bump,
    );

    let result = Initialize::process(&mut accounts, &data, JAN_1_2025, &cfg);
    assert_eq!(
        result,
        Err(PinocchioError::InvalidDurations),
        "Should fail with cliff > total duration"
    );
}

#[test]
fn test_initialize_step_exceeds_total() {
    let cfg = config();
    let initializer = key(1);
    let mint = key(2);
    let seed = 12345u64;
    let (schedule_pda, bump) = derive_vest_schedule_pda(seed, &mint, &initializer, &cfg);
    let mut accounts = initialize_accounts(&initializer, &schedule_pda, &mint, &cfg);
    let data = create_initialize_instruction_data(
        seed,
        JAN_1_2025 + ONE_DAY,
        ONE_DAY,
        ONE_DAY * 10,
        ONE_DAY * 20,
        bump,
    );

    let result = Initialize::process(&mut accounts, &data, JAN_1_2025, &cfg);
    assert_eq!(
        result,
        Err(PinocchioError::InvalidDurations),
        "Should fail with step > total duration"
    );
}

#[test]
fn test_initialize_invalid_step_duration() {
    let cfg = config();
    let initializer = key(1);
    let mint = key(2);
    let seed = 12345u64;
    let (schedule_pda, bump) = derive_vest_schedule_pda(seed, &mint, &initializer, &cfg);
    let mut accounts = initialize_accounts(&initializer, &schedule_pda, &mint, &cfg);
    let data = create_initialize_instruction_data(
        seed,
        JAN_1_2025 + ONE_DAY,
        ONE_DAY,
        ONE_DAY * 10,
        77777,
        bump,
    );

    let result = Initialize::process(&mut accounts, &data, JAN_1_2025, &cfg);
    assert_eq!(
        result,
        Err(PinocchioError::InvalidStepDuration),
        "Should fail with invalid step duration"
    );
}

#[test]
fn test_initialize_zero_cliff_duration() {
    let cfg = config();
    let initializer = key(1);
    let mint = key(2);
    let seed = 12345u64;
    let (schedule_pda, bump) = derive_vest_schedule_pda(seed, &mint, &initializer, &cfg);
    let mut accounts = initialize_accounts(&initializer, &schedule_pda, &mint, &cfg);
    let data = create_initialize_instruction_data(
        seed,
        JAN_1_2025 + ONE_DAY,
        0,
        ONE_DAY * 10,
        ONE_DAY,
        bump,
    );

    let result = Initialize::process(&mut accounts, &data, JAN_1_2025, &cfg);
    assert_eq!(
        result,
        Err(PinocchioError::InvalidDurations),
        "Should fail with zero cliff duration"
    );
}

#[test]
fn test_initialize_zero_step_duration() {
    let cfg = config();
    let initializer = key(1);
    let mint = key(2);
    let seed = 12345u64;
    let (schedule_pda, bump) = derive_vest_schedule_pda(seed, &mint, &initializer, &cfg);
    let mut accounts = initialize_accounts(&initializer, &schedule_pda, &mint, &cfg);
    let data = create_initialize_instruction_data(
        seed,
        JAN_1_2025 + ONE_DAY,
        ONE_DAY,
        ONE_DAY * 10,
        0,
        bump,
    );

    let result = Initialize::process(&mut accounts, &data, JAN_1_2025, &cfg);
    assert_eq!(
        result,
        Err(PinocchioError::InvalidDurations),
        "Should fail with zero step duration"
    );
}

#[test]
fn test_initialize_zero_seed() {
    let cfg = config();
    let initializer = key(1);
    let mint = key(2);
    let seed = 0u64;
    let (schedule_pda, bump) = derive_vest_schedule_pda(seed, &mint, &initializer, &cfg);
    let mut accounts = initialize_accounts(&initializer, &schedule_pda, &mint, &cfg);
    let data = create_initialize_instruction_data(
        seed,
        JAN_1_2025 + ONE_DAY,
        ONE_DAY,
        ONE_DAY * 10,
        ONE_DAY,
        bump,
    );

    let result = Initialize::process(&mut accounts, &data, JAN_1_2025, &cfg);
    assert_eq!(
        result,
        Err(PinocchioError::InvalidSeed),
        "Should fail with zero seed"
    );
}

#[test]
fn test_initialize_wrong_bump() {
    let cfg = config();
    let initializer = key(1);
    let mint = key(2);
    let seed = 12345u64;
    let (schedule_pda, correct_bump) = derive_vest_schedule_pda(seed, &mint, &initializer, &cfg);
    let wrong_bump = correct_bump.wrapping_add(1);
    let mut accounts = initialize_accounts(&initializer, &schedule_pda, &mint, &cfg);
    let data = create_initialize_instruction_data(
        seed,
        JAN_1_2025 + ONE_DAY,
        ONE_DAY,
        ONE_DAY * 10,
        ONE_DAY,
        wrong_bump,
    );

    let result = Initialize::process(&mut accounts, &data, JAN_1_2025, &cfg);
    assert_eq!(
        result,
        Err(PinocchioError::NonceMismatch),
        "Should fail with wrong bump"
    );
}

#[test]
fn test_initialize_account_already_initialized() {
    let cfg = config();
    let initializer = key(1);
    let mint = key(2);
    let seed = 12345u64;
    let (schedule_pda, bump) = derive_vest_schedule_pda(seed, &mint, &initializer, &cfg);
    let mut accounts = initialize_accounts(&initializer, &schedule_pda, &mint, &cfg);
    let data = create_initialize_instruction_data(
        seed,
        JAN_1_2025 + ONE_DAY,
        ONE_DAY,
        ONE_DAY * 10,
        ONE_DAY,
        bump,
    );

    let result = Initialize::process(&mut accounts, &data, JAN_1_2025, &cfg);
    assert!(result.is_ok(), "First initialization should succeed");

    let result2 = Initialize::process(&mut accounts, &data, JAN_1_2025, &cfg);
    assert_eq!(
        result2,
        Err(PinocchioError::AlreadyInitialized),
        "Second initialization should fail"
    );
}

#[test]
fn test_initialize_with_different_seeds() {
    let cfg = config();
    let initializer = key(1);
    let mint = key(2);
    let seeds = [12345u64, 67890u64];

    for seed in seeds.iter() {
        let (schedule_pda, bump) = derive_vest_schedule_pda(*seed, &mint, &initializer, &cfg);
        let mut accounts = initialize_accounts(&initializer, &schedule_pda, &mint, &cfg);
        let data = create_initialize_instruction_data(
            *seed,
            JAN_1_2025 + ONE_DAY,
            ONE_DAY,
            ONE_DAY * 10,
            ONE_DAY,
            bump,
        );

        let result = Initialize::process(&mut accounts, &data, JAN_1_2025, &cfg);
        assert!(
            result.is_ok(),
            "Initialization with seed {} should succeed",
            seed
        );
        assert!(
            accounts[1].lamports > 0,
            "Account for seed {} should exist",
            seed
        );
    }
}

#[test]
fn test_initialize_insufficient_accounts() {
    let cfg = config();
    let initializer = key(1);
    let data = create_initialize_instruction_data(
        12345,
        JAN_1_2025 + ONE_DAY,
        ONE_DAY,
        ONE_DAY * 10,
        ONE_DAY,
        255,
    );

    let mut accounts = vec![
        signer_account(&initializer),
        empty_account(&key(9)),
        empty_account(&key(10)),
    ];

    let result = Initialize::process(&mut accounts, &data, JAN_1_2025, &cfg);
    assert_eq!(
        result,
        Err(PinocchioError::NotEnoughAccountKeys),
        "Should fail with insufficient accounts"
    );
}

#[test]
fn test_initialize_initializer_not_signer() {
    let cfg = config();
    let initializer = key(1);
    let mint = key(2);
    let seed = 12345u64;
    let (schedule_pda, bump) = derive_vest_schedule_pda(seed, &mint, &initializer, &cfg);
    let mut accounts = initialize_accounts(&initializer, &schedule_pda, &mint, &cfg);
    accounts[0].is_signer = false;
    let data = create_initialize_instruction_data(
        seed,
        JAN_1_2025 + ONE_DAY,
        ONE_DAY,
        ONE_DAY * 10,
        ONE_DAY,
        bump,
    );

    let result = Initialize::process(&mut accounts, &data, JAN_1_2025, &cfg);
    assert_eq!(
        result,
        Err(PinocchioError::MissingSignature),
        "Should fail when initializer is not signer"
    );
}

#[test]
fn test_initialize_cliff_equals_total() {
    let cfg = config();
    let initializer = key(1);
    let mint = key(2);
    let seed = 12345u64;
    let (schedule_pda, bump) = derive_vest_schedule_pda(seed, &mint, &initializer, &cfg);
    let mut accounts = initialize_accounts(&initializer, &schedule_pda, &mint, &cfg);
    let data = create_initialize_instruction_data(
        seed,
        JAN_1_2025 + ONE_DAY,
        ONE_DAY * 10,
        ONE_DAY * 10,
        ONE_DAY,
        bump,
    );

    let result = Initialize::process(&mut accounts, &data, JAN_1_2025, &cfg);
    assert_eq!(
        result,
        Err(PinocchioError::InvalidDurations),
        "Should fail when cliff equals total duration"
    );
}

use vstd::prelude::*;

verus! {

/// The failure kinds of the vesting ledger. Every operation either completes
/// in full or aborts with exactly one of these; a failed operation leaves no
/// partial effect.
#[derive(Clone, Copy, Debug, PartialEq, Eq, Structural)]
pub enum PinocchioError {
    /// A derived address does not match the address recomputed from its seeds.
    AddressMismatch,
    /// A derivation nonce does not match the canonical nonce for its seeds.
    NonceMismatch,
    /// A required signer flag is absent.
    MissingSignature,
    /// An account is owned by the wrong program.
    InvalidOwner,
    /// An account's bytes do not form the expected record.
    InvalidAccountData,
    /// A record's type tag does not match the expected record kind.
    InvalidDiscriminator,
    /// The acting identity is not the one the record designates.
    UnauthorizedPrincipal,
    /// A schedule seed of zero was supplied.
    InvalidSeed,
    /// A schedule's start timestamp lies before the current time.
    StartTimestampInPast,
    /// Cliff or step duration is zero, or not below the total duration.
    InvalidDurations,
    /// The step duration does not divide the post-cliff span evenly.
    InvalidStepDuration,
    /// Participants can no longer be added once the cliff has ended.
    AllocationFrozen,
    /// A participant cannot be enrolled with a zero allocation.
    ZeroAllocation,
    /// A holding does not carry enough of the asset for the transfer.
    InsufficientFunds,
    /// The target account is already funded or populated.
    AlreadyInitialized,
    /// Nothing has vested beyond what was already claimed.
    NoClaimableAmount,
    /// A claim would push the claimed amount past the allocation.
    ClaimExceedsAllocation,
    /// Fewer accounts were supplied than the instruction needs.
    NotEnoughAccountKeys,
    /// The instruction's byte payload has the wrong shape.
    InvalidInstructionData,
    /// An expected holding account does not exist yet.
    UninitializedAccount,
}

impl PinocchioError {
    /// The numeric code under which the host reports this failure.
    pub open spec fn spec_error_code(&self) -> u32 {
        match self {
            PinocchioError::AddressMismatch => 0,
            PinocchioError::NonceMismatch => 1,
            PinocchioError::MissingSignature => 2,
            PinocchioError::InvalidOwner => 3,
            PinocchioError::InvalidAccountData => 4,
            PinocchioError::InvalidDiscriminator => 5,
            PinocchioError::UnauthorizedPrincipal => 6,
            PinocchioError::InvalidSeed => 7,
            PinocchioError::StartTimestampInPast => 8,
            PinocchioError::InvalidDurations => 9,
            PinocchioError::InvalidStepDuration => 10,
            PinocchioError::AllocationFrozen => 11,
            PinocchioError::ZeroAllocation => 12,
            PinocchioError::InsufficientFunds => 13,
            PinocchioError::AlreadyInitialized => 14,
            PinocchioError::NoClaimableAmount => 15,
            PinocchioError::ClaimExceedsAllocation => 16,
            PinocchioError::NotEnoughAccountKeys => 17,
            PinocchioError::InvalidInstructionData => 18,
            PinocchioError::UninitializedAccount => 19,
        }
    }

    /// The numeric code under which the host reports this failure.
    pub fn error_code(&self) -> (c: u32)
        ensures
            c == self.spec_error_code(),
    {
        match self {
            PinocchioError::AddressMismatch => 0,
            PinocchioError::NonceMismatch => 1,
            PinocchioError::MissingSignature => 2,
            PinocchioError::InvalidOwner => 3,
            PinocchioError::InvalidAccountData => 4,
            PinocchioError::InvalidDiscriminator => 5,
            PinocchioError::UnauthorizedPrincipal => 6,
            PinocchioError::InvalidSeed => 7,
            PinocchioError::StartTimestampInPast => 8,
            PinocchioError::InvalidDurations => 9,
            PinocchioError::InvalidStepDuration => 10,
            PinocchioError::AllocationFrozen => 11,
            PinocchioError::ZeroAllocation => 12,
            PinocchioError::InsufficientFunds => 13,
            PinocchioError::AlreadyInitialized => 14,
            PinocchioError::NoClaimableAmount => 15,
            PinocchioError::ClaimExceedsAllocation => 16,
            PinocchioError::NotEnoughAccountKeys => 17,
            PinocchioError::InvalidInstructionData => 18,
            PinocchioError::UninitializedAccount => 19,
        }
    }
}

} // verus!

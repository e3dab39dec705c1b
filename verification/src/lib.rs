pub mod account;
pub mod add_participant;
pub mod claim;
pub mod codec;
pub mod error;
pub mod helpers;
pub mod initialize;
pub mod participant_state;
pub mod pda;
pub mod pubkey;
pub mod schedule_state;

pub use account::Account;
pub use account::ProgramConfig;
pub use add_participant::AddParticipant;
pub use add_participant::AddParticipantInstructionData;
pub use claim::Claim;
pub use error::PinocchioError;
pub use helpers::AssociatedToken;
pub use helpers::Mint;
pub use helpers::ProgramAccount;
pub use helpers::SignerAccount;
pub use helpers::Token;
pub use initialize::Initialize;
pub use initialize::InitializeInstructionData;
pub use participant_state::VestParticipant;
pub use pubkey::Pubkey;
pub use schedule_state::VestSchedule;
pub use schedule_state::VestStatus;

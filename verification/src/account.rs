use vstd::prelude::*;

use crate::pubkey::Pubkey;

verus! {

/// The ledger's view of one host account: its identity, the program that
/// owns it, whether it signed the current operation, its funding balance,
/// and its stored bytes.
pub struct Account {
    /// The account's address.
    pub key: Pubkey,
    /// The program that owns the account's data.
    pub owner: Pubkey,
    /// Whether the host verified a signature for this account.
    pub is_signer: bool,
    /// The account's funding balance; zero means the account does not exist.
    pub lamports: u64,
    /// The account's stored bytes.
    pub data: Vec<u8>,
}

impl Account {
    /// Both addresses of a well-formed account hold 32 bytes.
    pub open spec fn wf(&self) -> bool {
        &&& self.key.wf()
        &&& self.owner.wf()
    }

    /// A fresh copy of the account carrying the same observable state.
    pub fn clone_model(&self) -> (a: Account)
        ensures
            a.key@ == self.key@,
            a.owner@ == self.owner@,
            a.is_signer == self.is_signer,
            a.lamports == self.lamports,
            a.data@ == self.data@,
    {
        Account {
            key: self.key.copy_key(),
            owner: self.owner.copy_key(),
            is_signer: self.is_signer,
            lamports: self.lamports,
            data: crate::codec::clone_bytes(&self.data),
        }
    }
}

/// The process-wide identities the ledger is configured with: its own
/// program, and the collaborating system, token, and associated-token
/// programs.
pub struct ProgramConfig {
    /// The vesting program's own identity; the namespace of its derivations.
    pub program_id: Pubkey,
    /// The system program that creates accounts.
    pub system_program_id: Pubkey,
    /// The token program that holds asset balances.
    pub token_program_id: Pubkey,
    /// The associated-token program that derives canonical holdings.
    pub ata_program_id: Pubkey,
}

impl ProgramConfig {
    /// Every configured identity holds 32 bytes.
    pub open spec fn wf(&self) -> bool {
        &&& self.program_id.wf()
        &&& self.system_program_id.wf()
        &&& self.token_program_id.wf()
        &&& self.ata_program_id.wf()
    }
}

} // verus!

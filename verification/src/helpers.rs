use vstd::prelude::*;

use crate::account::{Account, ProgramConfig};
use crate::codec::{read_u64_le, spec_u64_le, spec_u64_of_le, write_u64_le, zero_vec};
use crate::error::PinocchioError;
use crate::pda::{derive_address, derive_of};
use crate::pubkey::Pubkey;

verus! {

/// The byte length of a token-holding account's stored record.
pub const TOKEN_ACCOUNT_LEN: usize = 165;

/// The byte length of an asset-mint account's stored record.
pub const MINT_LEN: usize = 82;

/// The offset of the little-endian balance inside a token-holding record.
pub const TOKEN_AMOUNT_OFFSET: usize = 64;

/// The asset balance stored in a token-holding record.
pub open spec fn spec_token_amount(d: Seq<u8>) -> u64
    recommends
        d.len() == TOKEN_ACCOUNT_LEN,
{
    spec_u64_of_le(d.subrange(TOKEN_AMOUNT_OFFSET as int, TOKEN_AMOUNT_OFFSET + 8))
}

/// A token-holding record with its balance overwritten by `v`.
pub open spec fn spec_set_amount(d: Seq<u8>, v: u64) -> Seq<u8>
    recommends
        d.len() == TOKEN_ACCOUNT_LEN,
{
    d.take(TOKEN_AMOUNT_OFFSET as int) + spec_u64_le(v) + d.skip(TOKEN_AMOUNT_OFFSET + 8)
}

/// The seed list from which a wallet's canonical holding for an asset is
/// derived: the wallet, the token program, and the asset.
pub open spec fn spec_ata_seeds(
    wallet: Seq<u8>,
    token_program: Seq<u8>,
    mint: Seq<u8>,
) -> Seq<Seq<u8>> {
    seq![wallet, token_program, mint]
}

/// Signer-flag checks.
pub struct SignerAccount;

impl SignerAccount {
    /// Fails unless the host verified a signature for `account`.
    pub fn check(account: &Account) -> (r: Result<(), PinocchioError>)
        ensures
            r == if account.is_signer {
                Ok::<(), PinocchioError>(())
            } else {
                Err(PinocchioError::MissingSignature)
            },
    {
        if !account.is_signer {
            return Err(PinocchioError::MissingSignature);
        }
        Ok(())
    }
}

/// Identity and record-shape checks on program-owned accounts.
pub struct ProgramAccount;

impl ProgramAccount {
    /// Fails unless `account` is the system program itself.
    pub fn check_system_program(account: &Account, cfg: &ProgramConfig) -> (r: Result<
        (),
        PinocchioError,
    >)
        ensures
            r == if account.key@ == cfg.system_program_id@ {
                Ok::<(), PinocchioError>(())
            } else {
                Err(PinocchioError::InvalidOwner)
            },
    {
        if !account.key.eq_key(&cfg.system_program_id) {
            return Err(PinocchioError::InvalidOwner);
        }
        Ok(())
    }

    /// Fails unless `account` is the token program itself.
    pub fn check_token_program(account: &Account, cfg: &ProgramConfig) -> (r: Result<
        (),
        PinocchioError,
    >)
        ensures
            r == if account.key@ == cfg.token_program_id@ {
                Ok::<(), PinocchioError>(())
            } else {
                Err(PinocchioError::InvalidOwner)
            },
    {
        if !account.key.eq_key(&cfg.token_program_id) {
            return Err(PinocchioError::InvalidOwner);
        }
        Ok(())
    }

    /// Fails unless `account` is the associated-token program itself.
    pub fn check_ata_program(account: &Account, cfg: &ProgramConfig) -> (r: Result<
        (),
        PinocchioError,
    >)
        ensures
            r == if account.key@ == cfg.ata_program_id@ {
                Ok::<(), PinocchioError>(())
            } else {
                Err(PinocchioError::InvalidOwner)
            },
    {
        if !account.key.eq_key(&cfg.ata_program_id) {
            return Err(PinocchioError::InvalidOwner);
        }
        Ok(())
    }

    /// What `check` demands of a program-owned record account: the vesting
    /// program owns it, the byte length matches the record kind, and the
    /// first byte carries the record kind's tag.
    pub open spec fn spec_check_ok(
        account: Account,
        cfg: ProgramConfig,
        expected_len: usize,
        expected_tag: u8,
    ) -> bool {
        &&& account.owner@ == cfg.program_id@
        &&& account.data@.len() == expected_len
        &&& account.data@[0] == expected_tag
    }

    /// The failure `check` reports for an account, or nothing when the
    /// account passes: owner, byte length, and type tag, in that order.
    pub open spec fn spec_check_error(
        account: Account,
        cfg: ProgramConfig,
        expected_len: usize,
        expected_tag: u8,
    ) -> Option<PinocchioError> {
        if account.owner@ != cfg.program_id@ {
            Some(PinocchioError::InvalidOwner)
        } else if account.data@.len() != expected_len {
            Some(PinocchioError::InvalidAccountData)
        } else if account.data@[0] != expected_tag {
            Some(PinocchioError::InvalidDiscriminator)
        } else {
            None
        }
    }

    /// Fails unless `account` is a record of the expected kind owned by the
    /// vesting program: owner, exact byte length, and type tag, checked in
    /// that order before any byte is interpreted.
    pub fn check(account: &Account, cfg: &ProgramConfig, expected_len: usize, expected_tag: u8) -> (
    r: Result<(), PinocchioError>)
        requires
            expected_len > 0,
        ensures
            r == match ProgramAccount::spec_check_error(*account, *cfg, expected_len, expected_tag) {
                None => Ok::<(), PinocchioError>(()),
                Some(e) => Err(e),
            },
            r is Ok <==> ProgramAccount::spec_check_ok(*account, *cfg, expected_len, expected_tag),
    {
        if !account.owner.eq_key(&cfg.program_id) {
            return Err(PinocchioError::InvalidOwner);
        }
        if account.data.len() != expected_len {
            return Err(PinocchioError::InvalidAccountData);
        }
        if account.data[0] != expected_tag {
            return Err(PinocchioError::InvalidDiscriminator);
        }
        Ok(())
    }

    /// Recomputes the derivation for `seeds` and fails unless both the
    /// account's address and the claimed nonce match it exactly.
    pub fn verify(seeds: &Vec<Vec<u8>>, account: &Account, bump: u8, cfg: &ProgramConfig) -> (r:
        Result<(), PinocchioError>)
        requires
            cfg.program_id.wf(),
        ensures
            match r {
                Ok(()) => derive_of(seeds.deep_view(), cfg.program_id@) == Some(
                    (account.key@, bump),
                ),
                Err(e) => match derive_of(seeds.deep_view(), cfg.program_id@) {
                    Some(p) => {
                        &&& (p.0 != account.key@ ==> e == PinocchioError::AddressMismatch)
                        &&& (p.0 == account.key@ && p.1 != bump ==> e
                            == PinocchioError::NonceMismatch)
                        &&& (p.0 != account.key@ || p.1 != bump)
                    },
                    None => e == PinocchioError::AddressMismatch,
                },
            },
    {
        match derive_address(seeds, &cfg.program_id) {
            None => Err(PinocchioError::AddressMismatch),
            Some((expected_key, expected_bump)) => {
                if !expected_key.eq_key(&account.key) {
                    return Err(PinocchioError::AddressMismatch);
                }
                if bump != expected_bump {
                    return Err(PinocchioError::NonceMismatch);
                }
                Ok(())
            },
        }
    }

    /// Allocates a fresh record account: fails if the target is already
    /// funded, and otherwise hands it to the vesting program with `space`
    /// zeroed bytes. The host funds the account; the ledger tracks only
    /// that it is now funded.
    pub fn init(account: &mut Account, cfg: &ProgramConfig, space: usize) -> (r: Result<
        (),
        PinocchioError,
    >)
        ensures
            match r {
                Ok(()) => {
                    &&& old(account).lamports == 0
                    &&& final(account).key@ == old(account).key@
                    &&& final(account).owner@ == cfg.program_id@
                    &&& final(account).is_signer == old(account).is_signer
                    &&& final(account).lamports > 0
                    &&& final(account).data@ == Seq::new(space as nat, |i: int| 0u8)
                },
                Err(e) => {
                    &&& e == PinocchioError::AlreadyInitialized
                    &&& old(account).lamports > 0
                    &&& *final(account) == *old(account)
                },
            },
    {
        if account.lamports > 0 {
            return Err(PinocchioError::AlreadyInitialized);
        }
        account.owner = cfg.program_id.copy_key();
        account.lamports = 1;
        account.data = zero_vec(space);
        Ok(())
    }
}

/// Shape checks on asset-mint accounts.
pub struct Mint;

impl Mint {
    /// The failure `check` reports for an account, or nothing when the
    /// account passes: owner first, then byte length.
    pub open spec fn spec_check_error(account: Account, cfg: ProgramConfig) -> Option<
        PinocchioError,
    > {
        if account.owner@ != cfg.token_program_id@ {
            Some(PinocchioError::InvalidOwner)
        } else if account.data@.len() != MINT_LEN {
            Some(PinocchioError::InvalidAccountData)
        } else {
            None
        }
    }

    /// Fails unless `account` has the owner and byte length of a mint.
    pub fn check(account: &Account, cfg: &ProgramConfig) -> (r: Result<(), PinocchioError>)
        ensures
            r == match Mint::spec_check_error(*account, *cfg) {
                None => Ok::<(), PinocchioError>(()),
                Some(e) => Err(e),
            },
    {
        if !account.owner.eq_key(&cfg.token_program_id) {
            return Err(PinocchioError::InvalidOwner);
        }
        if account.data.len() != MINT_LEN {
            return Err(PinocchioError::InvalidAccountData);
        }
        Ok(())
    }
}

/// Shape checks and balance access on token-holding accounts.
pub struct Token;

impl Token {
    /// The failure `check` reports for an account, or nothing when the
    /// account passes: owner first, then byte length.
    pub open spec fn spec_check_error(account: Account, cfg: ProgramConfig) -> Option<
        PinocchioError,
    > {
        if account.owner@ != cfg.token_program_id@ {
            Some(PinocchioError::InvalidOwner)
        } else if account.data@.len() != TOKEN_ACCOUNT_LEN {
            Some(PinocchioError::InvalidAccountData)
        } else {
            None
        }
    }

    /// Fails unless `account` has the owner and byte length of a holding.
    pub fn check(account: &Account, cfg: &ProgramConfig) -> (r: Result<(), PinocchioError>)
        ensures
            r == match Token::spec_check_error(*account, *cfg) {
                None => Ok::<(), PinocchioError>(()),
                Some(e) => Err(e),
            },
    {
        if !account.owner.eq_key(&cfg.token_program_id) {
            return Err(PinocchioError::InvalidOwner);
        }
        if account.data.len() != TOKEN_ACCOUNT_LEN {
            return Err(PinocchioError::InvalidAccountData);
        }
        Ok(())
    }

    /// The balance a holding account carries.
    pub fn amount(account: &Account) -> (r: u64)
        requires
            account.data@.len() == TOKEN_ACCOUNT_LEN,
        ensures
            r == spec_token_amount(account.data@),
    {
        read_u64_le(&account.data, TOKEN_AMOUNT_OFFSET)
    }

    /// Overwrites the balance a holding account carries; everything else
    /// about the account stays as it was.
    pub fn set_amount(account: &mut Account, v: u64)
        requires
            old(account).data@.len() == TOKEN_ACCOUNT_LEN,
        ensures
            final(account).key@ == old(account).key@,
            final(account).owner@ == old(account).owner@,
            final(account).is_signer == old(account).is_signer,
            final(account).lamports == old(account).lamports,
            final(account).data@ == spec_set_amount(old(account).data@, v),
            final(account).data@.len() == TOKEN_ACCOUNT_LEN,
            spec_token_amount(final(account).data@) == v,
    {
        write_u64_le(&mut account.data, TOKEN_AMOUNT_OFFSET, v);
        proof {
            crate::codec::lemma_u64_le_round_trip(v);
            assert(account.data@ =~= spec_set_amount(old(account).data@, v));
        }
    }

    /// A fresh copy of a holding account with its balance overwritten by
    /// `v`; everything else carries over.
    pub fn with_amount(account: &Account, v: u64) -> (a: Account)
        requires
            account.data@.len() == TOKEN_ACCOUNT_LEN,
        ensures
            a.key@ == account.key@,
            a.owner@ == account.owner@,
            a.is_signer == account.is_signer,
            a.lamports == account.lamports,
            a.data@ == spec_set_amount(account.data@, v),
            a.data@.len() == TOKEN_ACCOUNT_LEN,
            spec_token_amount(a.data@) == v,
    {
        let mut a = account.clone_model();
        Token::set_amount(&mut a, v);
        a
    }
}

/// Canonical-holding checks: a wallet's holding for an asset is the account
/// at the address derived from the wallet, the token program, and the asset.
pub struct AssociatedToken;

impl AssociatedToken {
    /// What `check` demands of a canonical holding for `(wallet, mint)`:
    /// a token holding, at exactly the derived address, already funded.
    pub open spec fn spec_check_ok(
        account: Account,
        wallet: Seq<u8>,
        mint: Seq<u8>,
        cfg: ProgramConfig,
    ) -> bool {
        &&& account.owner@ == cfg.token_program_id@
        &&& account.data@.len() == TOKEN_ACCOUNT_LEN
        &&& derive_of(
            spec_ata_seeds(wallet, cfg.token_program_id@, mint),
            cfg.ata_program_id@,
        ) matches Some(p) && p.0 == account.key@
        &&& account.lamports != 0
    }

    /// The failure `check` reports for an account, or nothing when the
    /// account passes: holding shape, derived address, and funding, in
    /// that order.
    pub open spec fn spec_check_error(
        account: Account,
        wallet: Seq<u8>,
        mint: Seq<u8>,
        cfg: ProgramConfig,
    ) -> Option<PinocchioError> {
        if Token::spec_check_error(account, cfg) is Some {
            Token::spec_check_error(account, cfg)
        } else if !(derive_of(
            spec_ata_seeds(wallet, cfg.token_program_id@, mint),
            cfg.ata_program_id@,
        ) matches Some(p) && p.0 == account.key@) {
            Some(PinocchioError::InvalidAccountData)
        } else if account.lamports == 0 {
            Some(PinocchioError::UninitializedAccount)
        } else {
            None
        }
    }

    /// Fails unless `account` is the funded canonical holding of `wallet`
    /// for `mint`.
    pub fn check(account: &Account, wallet: &Pubkey, mint: &Pubkey, cfg: &ProgramConfig) -> (r:
        Result<(), PinocchioError>)
        requires
            cfg.ata_program_id.wf(),
        ensures
            r is Ok <==> AssociatedToken::spec_check_ok(*account, wallet@, mint@, *cfg),
            r == match AssociatedToken::spec_check_error(*account, wallet@, mint@, *cfg) {
                None => Ok::<(), PinocchioError>(()),
                Some(e) => Err(e),
            },
    {
        if let Err(e) = Token::check(account, cfg) {
            return Err(e);
        }
        let seeds = Self::seed_vec(wallet, mint, cfg);
        match derive_address(&seeds, &cfg.ata_program_id) {
            None => Err(PinocchioError::InvalidAccountData),
            Some((expected_key, _expected_bump)) => {
                if !expected_key.eq_key(&account.key) {
                    return Err(PinocchioError::InvalidAccountData);
                }
                if account.lamports == 0 {
                    return Err(PinocchioError::UninitializedAccount);
                }
                Ok(())
            },
        }
    }

    /// Creates the canonical holding of `wallet` for `mint` in place of an
    /// absent account: fails unless the target sits at the derived address,
    /// and otherwise hands it to the token program, funded, with a zeroed
    /// holding record.
    pub fn init(account: &mut Account, wallet: &Pubkey, mint: &Pubkey, cfg: &ProgramConfig) -> (r:
        Result<(), PinocchioError>)
        requires
            cfg.ata_program_id.wf(),
        ensures
            match r {
                Ok(()) => {
                    &&& derive_of(
                        spec_ata_seeds(wallet@, cfg.token_program_id@, mint@),
                        cfg.ata_program_id@,
                    ) matches Some(p) && p.0 == old(account).key@
                    &&& final(account).key@ == old(account).key@
                    &&& final(account).owner@ == cfg.token_program_id@
                    &&& final(account).is_signer == old(account).is_signer
                    &&& final(account).lamports > 0
                    &&& final(account).data@ == Seq::new(
                        TOKEN_ACCOUNT_LEN as nat,
                        |i: int| 0u8,
                    )
                    &&& spec_token_amount(final(account).data@) == 0
                },
                Err(e) => {
                    &&& e == PinocchioError::InvalidAccountData
                    &&& !(derive_of(
                        spec_ata_seeds(wallet@, cfg.token_program_id@, mint@),
                        cfg.ata_program_id@,
                    ) matches Some(p) && p.0 == old(account).key@)
                    &&& *final(account) == *old(account)
                },
            },
    {
        let seeds = Self::seed_vec(wallet, mint, cfg);
        match derive_address(&seeds, &cfg.ata_program_id) {
            None => Err(PinocchioError::InvalidAccountData),
            Some((expected_key, _expected_bump)) => {
                if !expected_key.eq_key(&account.key) {
                    return Err(PinocchioError::InvalidAccountData);
                }
                account.owner = cfg.token_program_id.copy_key();
                account.lamports = 1;
                account.data = zero_vec(TOKEN_ACCOUNT_LEN);
                proof {
                    lemma_zero_token_amount();
                }
                Ok(())
            },
        }
    }

    /// Accepts an existing canonical holding, or creates it where it does
    /// not exist yet.
    pub fn init_if_needed(
        account: &mut Account,
        wallet: &Pubkey,
        mint: &Pubkey,
        cfg: &ProgramConfig,
    ) -> (r: Result<(), PinocchioError>)
        requires
            cfg.ata_program_id.wf(),
        ensures
            match r {
                Ok(()) => {
                    &&& AssociatedToken::spec_check_ok(
                        *final(account),
                        wallet@,
                        mint@,
                        *cfg,
                    )
                    &&& final(account).key@ == old(account).key@
                    &&& if AssociatedToken::spec_check_ok(*old(account), wallet@, mint@, *cfg) {
                        *final(account) == *old(account)
                    } else {
                        &&& final(account).owner@ == cfg.token_program_id@
                        &&& final(account).is_signer == old(account).is_signer
                        &&& final(account).lamports > 0
                        &&& final(account).data@ == Seq::new(
                            TOKEN_ACCOUNT_LEN as nat,
                            |i: int| 0u8,
                        )
                        &&& spec_token_amount(final(account).data@) == 0
                    }
                },
                Err(e) => {
                    &&& e == PinocchioError::InvalidAccountData
                    &&& !AssociatedToken::spec_check_ok(*old(account), wallet@, mint@, *cfg)
                    &&& !(derive_of(
                        spec_ata_seeds(wallet@, cfg.token_program_id@, mint@),
                        cfg.ata_program_id@,
                    ) matches Some(p) && p.0 == old(account).key@)
                    &&& *final(account) == *old(account)
                },
            },
    {
        match Self::check(account, wallet, mint, cfg) {
            Ok(()) => Ok(()),
            Err(_) => Self::init(account, wallet, mint, cfg),
        }
    }

    /// The executable form of the canonical-holding seed list.
    fn seed_vec(wallet: &Pubkey, mint: &Pubkey, cfg: &ProgramConfig) -> (v: Vec<Vec<u8>>)
        ensures
            v.deep_view() == spec_ata_seeds(wallet@, cfg.token_program_id@, mint@),
    {
        let mut v: Vec<Vec<u8>> = Vec::new();
        v.push(wallet.to_bytes());
        v.push(cfg.token_program_id.to_bytes());
        v.push(mint.to_bytes());
        proof {
            assert(v.deep_view() =~~= spec_ata_seeds(wallet@, cfg.token_program_id@, mint@));
        }
        v
    }
}

/// A zeroed holding record carries a zero balance.
proof fn lemma_zero_token_amount()
    ensures
        spec_token_amount(Seq::new(TOKEN_ACCOUNT_LEN as nat, |i: int| 0u8)) == 0,
{
    let z = Seq::new(TOKEN_ACCOUNT_LEN as nat, |i: int| 0u8);
    let s = z.subrange(TOKEN_AMOUNT_OFFSET as int, TOKEN_AMOUNT_OFFSET + 8);
    assert(spec_u64_of_le(s) == 0) by {
        assert(s[0] == 0 && s[1] == 0 && s[2] == 0 && s[3] == 0 && s[4] == 0 && s[5] == 0 && s[6]
            == 0 && s[7] == 0);
        assert((0u64 | (0u64 << 8) | (0u64 << 16) | (0u64 << 24) | (0u64 << 32) | (0u64 << 40) | (
        0u64 << 48) | (0u64 << 56)) == 0u64) by (bit_vector);
    }
}

} // verus!

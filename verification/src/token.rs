use vstd::prelude::*;
use vstd::bytes::lemma_auto_spec_u64_to_from_le_bytes;
use vstd::bytes::spec_u64_from_le_bytes;
use vstd::bytes::spec_u64_to_le_bytes;
use vstd::bytes::u64_to_le_bytes;
use crate::account::AccountState;
use crate::account::same_but_data;
use crate::account::same_but_lamports;
use crate::address::Authorization;
use crate::byteops::bytes_eq;
use crate::byteops::copy_bytes;
use crate::byteops::read_u64_le;
use crate::byteops::sub_bytes;
use crate::byteops::zeroed_bytes;
use crate::errors::EscrowError;

verus! {

/// Byte length of an asset balance account's stored data.
pub const TOKEN_ACCOUNT_LEN: usize = 165;

/// Byte length of an asset descriptor ("mint") account's stored data.
pub const MINT_LEN: usize = 82;

/// The asset id a balance account's bytes record.
pub open spec fn token_mint(data: Seq<u8>) -> Seq<u8> {
    data.subrange(0, 32)
}

/// The owning identity a balance account's bytes record. This is the wallet
/// the asset-custody program obeys, distinct from the ledger-level account
/// owner field.
pub open spec fn token_owner(data: Seq<u8>) -> Seq<u8> {
    data.subrange(32, 64)
}

/// The balance a balance account's bytes record.
pub open spec fn token_amount(data: Seq<u8>) -> u64 {
    spec_u64_from_le_bytes(data.subrange(64, 72))
}

/// The decimal precision an asset descriptor's bytes record.
pub open spec fn mint_decimals(data: Seq<u8>) -> u8 {
    data[44]
}

/// `data` with its recorded balance replaced by `amount`.
pub open spec fn with_token_amount(data: Seq<u8>, amount: u64) -> Seq<u8> {
    data.subrange(0, 64) + spec_u64_to_le_bytes(amount) + data.subrange(72, data.len() as int)
}

/// Replacing the balance changes nothing else: length, asset id and owning
/// identity stay, and the new balance reads back exactly.
pub proof fn lemma_with_token_amount(data: Seq<u8>, amount: u64)
    requires
        data.len() == TOKEN_ACCOUNT_LEN,
    ensures
        with_token_amount(data, amount).len() == TOKEN_ACCOUNT_LEN,
        token_mint(with_token_amount(data, amount)) == token_mint(data),
        token_owner(with_token_amount(data, amount)) == token_owner(data),
        token_amount(with_token_amount(data, amount)) == amount,
{
    lemma_auto_spec_u64_to_from_le_bytes();
    let w = with_token_amount(data, amount);
    assert(token_mint(w) =~= token_mint(data));
    assert(token_owner(w) =~= token_owner(data));
    assert(w.subrange(64, 72) =~= spec_u64_to_le_bytes(amount));
}

/// The parsed fields of a balance account.
pub struct TokenAccountState {
    /// The asset this balance is denominated in.
    pub mint: Vec<u8>,
    /// The wallet the asset-custody program obeys for this balance.
    pub owner: Vec<u8>,
    /// The balance itself.
    pub amount: u64,
}

/// Reads a balance account's fields out of its stored bytes, after a bounds
/// check on the length.
pub fn read_token_account(data: &Vec<u8>) -> (r: Result<TokenAccountState, EscrowError>)
    ensures
        match r {
            Ok(t) => {
                &&& data@.len() == TOKEN_ACCOUNT_LEN
                &&& t.mint@ == token_mint(data@)
                &&& t.owner@ == token_owner(data@)
                &&& t.amount == token_amount(data@)
            },
            Err(e) => data@.len() != TOKEN_ACCOUNT_LEN && e == EscrowError::InvalidAccountData,
        },
{
    if data.len() != TOKEN_ACCOUNT_LEN {
        return Err(EscrowError::InvalidAccountData);
    }
    let mint = sub_bytes(data, 0, 32);
    let owner = sub_bytes(data, 32, 64);
    let amount = read_u64_le(data, 64);
    Ok(TokenAccountState { mint, owner, amount })
}

/// Reads an asset descriptor's decimal precision, after a bounds check.
pub fn read_mint_decimals(data: &Vec<u8>) -> (r: Result<u8, EscrowError>)
    ensures
        match r {
            Ok(d) => data@.len() == MINT_LEN && d == mint_decimals(data@),
            Err(e) => data@.len() != MINT_LEN && e == EscrowError::InvalidAccountData,
        },
{
    if data.len() != MINT_LEN {
        return Err(EscrowError::InvalidAccountData);
    }
    Ok(data[44])
}

/// The stored bytes of a freshly created balance account: asset `mint`,
/// owning identity `owner`, zero balance, remaining fields zeroed.
pub open spec fn fresh_token_account_data(mint: Seq<u8>, owner: Seq<u8>) -> Seq<u8> {
    mint + owner + spec_u64_to_le_bytes(0u64) + Seq::new(93, |i: int| 0u8)
}

/// Failure, if any, of a checked transfer, in the order the asset-custody
/// collaborator detects them.
pub open spec fn transfer_checks(
    from: AccountState,
    mint: AccountState,
    to: AccountState,
    authority: Authorization,
    amount: u64,
    decimals: u8,
) -> Option<EscrowError> {
    if from.data@.len() != TOKEN_ACCOUNT_LEN {
        Some(EscrowError::InvalidAccountData)
    } else if to.data@.len() != TOKEN_ACCOUNT_LEN {
        Some(EscrowError::InvalidAccountData)
    } else if mint.data@.len() != MINT_LEN {
        Some(EscrowError::InvalidAccountData)
    } else if token_mint(from.data@) != mint.address@ {
        Some(EscrowError::MintMismatch)
    } else if token_mint(to.data@) != mint.address@ {
        Some(EscrowError::MintMismatch)
    } else if decimals != mint_decimals(mint.data@) {
        Some(EscrowError::DecimalsMismatch)
    } else if !authority.spec_is_valid() {
        Some(EscrowError::MissingRequiredSignature)
    } else if token_owner(from.data@) != authority.spec_address() {
        Some(EscrowError::OwnerMismatch)
    } else if token_amount(from.data@) < amount {
        Some(EscrowError::InsufficientFunds)
    } else if token_amount(to.data@) as int + amount as int > u64::MAX as int {
        Some(EscrowError::ArithmeticOverflow)
    } else {
        None
    }
}

/// The generic checked-transfer primitive, consumed as a capability: moves
/// `amount` units of the asset described by `mint` from `from` to `to`, if
/// and only if both balances are denominated in that asset, the presented
/// decimal precision matches the descriptor, and `authority` is a valid
/// authorization for `from`'s owning identity.
pub fn transfer_checked(
    from: AccountState,
    mint: &AccountState,
    to: AccountState,
    authority: &Authorization,
    amount: u64,
    decimals: u8,
) -> (r: Result<(AccountState, AccountState), EscrowError>)
    requires
        authority.wf(),
    ensures
        match r {
            Ok((from2, to2)) => {
                &&& transfer_checks(from, *mint, to, *authority, amount, decimals) is None
                &&& same_but_data(from2, from)
                &&& from2.data@ == with_token_amount(
                    from.data@,
                    (token_amount(from.data@) - amount) as u64,
                )
                &&& same_but_data(to2, to)
                &&& to2.data@ == with_token_amount(
                    to.data@,
                    (token_amount(to.data@) + amount) as u64,
                )
            },
            Err(e) => transfer_checks(from, *mint, to, *authority, amount, decimals) == Some(e),
        },
{
    let from_state = match read_token_account(&from.data) {
        Ok(t) => t,
        Err(e) => { return Err(e); },
    };
    let to_state = match read_token_account(&to.data) {
        Ok(t) => t,
        Err(e) => { return Err(e); },
    };
    let mint_dec = match read_mint_decimals(&mint.data) {
        Ok(d) => d,
        Err(e) => { return Err(e); },
    };
    if !bytes_eq(&from_state.mint, &mint.address) {
        return Err(EscrowError::MintMismatch);
    }
    if !bytes_eq(&to_state.mint, &mint.address) {
        return Err(EscrowError::MintMismatch);
    }
    if decimals != mint_dec {
        return Err(EscrowError::DecimalsMismatch);
    }
    if !authority.is_valid() {
        return Err(EscrowError::MissingRequiredSignature);
    }
    let auth_address = authority.address();
    if !bytes_eq(&from_state.owner, &auth_address) {
        return Err(EscrowError::OwnerMismatch);
    }
    if from_state.amount < amount {
        return Err(EscrowError::InsufficientFunds);
    }
    if to_state.amount > u64::MAX - amount {
        return Err(EscrowError::ArithmeticOverflow);
    }
    let from2 = AccountState {
        data: write_token_amount(&from.data, from_state.amount - amount),
        ..from
    };
    let to2 = AccountState {
        data: write_token_amount(&to.data, to_state.amount + amount),
        ..to
    };
    Ok((from2, to2))
}

/// Rewrites the balance field of a balance account's bytes.
pub fn write_token_amount(data: &Vec<u8>, amount: u64) -> (r: Vec<u8>)
    requires
        data@.len() == TOKEN_ACCOUNT_LEN,
    ensures
        r@ == with_token_amount(data@, amount),
{
    let mut r = sub_bytes(data, 0, 64);
    let mut le = u64_to_le_bytes(amount);
    r.append(&mut le);
    let mut rest = sub_bytes(data, 72, TOKEN_ACCOUNT_LEN);
    r.append(&mut rest);
    proof {
        assert(r@ =~= with_token_amount(data@, amount));
    }
    r
}

/// Failure, if any, of closing a custodial balance account.
pub open spec fn close_account_checks(
    account: AccountState,
    destination: AccountState,
    authority: Authorization,
) -> Option<EscrowError> {
    if account.data@.len() != TOKEN_ACCOUNT_LEN {
        Some(EscrowError::InvalidAccountData)
    } else if !authority.spec_is_valid() {
        Some(EscrowError::MissingRequiredSignature)
    } else if token_owner(account.data@) != authority.spec_address() {
        Some(EscrowError::OwnerMismatch)
    } else if token_amount(account.data@) != 0 {
        Some(EscrowError::NonZeroTokenBalance)
    } else if destination.lamports as int + account.lamports as int > u64::MAX as int {
        Some(EscrowError::ArithmeticOverflow)
    } else {
        None
    }
}

/// The account-close primitive, consumed as a capability: returns the
/// emptied account's minimum-balance deposit to `destination` and releases
/// the slot. A zero-balance, zero-lamport account is reclaimed by the ledger
/// runtime at the end of the transaction: its bytes are discarded and its
/// ownership returns to the system program.
pub fn close_account(
    account: AccountState,
    destination: AccountState,
    authority: &Authorization,
    system_program_id: &Vec<u8>,
) -> (r: Result<(AccountState, AccountState), EscrowError>)
    requires
        authority.wf(),
    ensures
        match r {
            Ok((account2, destination2)) => {
                &&& close_account_checks(account, destination, *authority) is None
                &&& account2.address@ == account.address@
                &&& account2.is_signer == account.is_signer
                &&& account2.owner@ == system_program_id@
                &&& account2.lamports == 0
                &&& account2.data@.len() == 0
                &&& same_but_lamports(destination2, destination)
                &&& destination2.lamports == destination.lamports + account.lamports
            },
            Err(e) => close_account_checks(account, destination, *authority) == Some(e),
        },
{
    let state = match read_token_account(&account.data) {
        Ok(t) => t,
        Err(e) => { return Err(e); },
    };
    if !authority.is_valid() {
        return Err(EscrowError::MissingRequiredSignature);
    }
    let auth_address = authority.address();
    if !bytes_eq(&state.owner, &auth_address) {
        return Err(EscrowError::OwnerMismatch);
    }
    if state.amount != 0 {
        return Err(EscrowError::NonZeroTokenBalance);
    }
    if destination.lamports > u64::MAX - account.lamports {
        return Err(EscrowError::ArithmeticOverflow);
    }
    let account2 = AccountState {
        owner: copy_bytes(system_program_id),
        lamports: 0,
        data: Vec::new(),
        ..account
    };
    let destination2 = AccountState {
        lamports: destination.lamports + account.lamports,
        ..destination
    };
    Ok((account2, destination2))
}

/// Failure, if any, of creating the custodial balance account.
pub open spec fn create_token_account_checks(
    funder: AccountState,
    target: AccountState,
    rent: u64,
    system_program_id: Seq<u8>,
) -> Option<EscrowError> {
    if !funder.is_signer {
        Some(EscrowError::MissingRequiredSignature)
    } else if !(target.owner@ == system_program_id && target.lamports == 0 && target.data@.len()
        == 0) {
        Some(EscrowError::AccountAlreadyInUse)
    } else if funder.lamports < rent {
        Some(EscrowError::InsufficientLamports)
    } else {
        None
    }
}

/// The asset-account-creation primitive, consumed as a capability: turns the
/// unused slot `target` into a zero-balance account for the asset described
/// by `mint`, whose owning identity is `wallet`, funded by `funder`. Binding
/// the slot's address to `(wallet, mint)` is this collaborator's own concern
/// and is not re-stated here.
pub fn create_token_account(
    funder: AccountState,
    target: AccountState,
    wallet: &Vec<u8>,
    mint: &AccountState,
    rent: u64,
    token_program_id: &Vec<u8>,
    system_program_id: &Vec<u8>,
) -> (r: Result<(AccountState, AccountState), EscrowError>)
    requires
        wallet@.len() == 32,
        mint.address@.len() == 32,
    ensures
        match r {
            Ok((funder2, target2)) => {
                &&& create_token_account_checks(funder, target, rent, system_program_id@) is None
                &&& same_but_lamports(funder2, funder)
                &&& funder2.lamports == funder.lamports - rent
                &&& target2.address@ == target.address@
                &&& target2.is_signer == target.is_signer
                &&& target2.owner@ == token_program_id@
                &&& target2.lamports == rent
                &&& target2.data@ == fresh_token_account_data(mint.address@, wallet@)
                &&& target2.data@.len() == TOKEN_ACCOUNT_LEN
                &&& token_mint(target2.data@) == mint.address@
                &&& token_owner(target2.data@) == wallet@
                &&& token_amount(target2.data@) == 0
            },
            Err(e) => create_token_account_checks(funder, target, rent, system_program_id@)
                == Some(e),
        },
{
    if !funder.is_signer {
        return Err(EscrowError::MissingRequiredSignature);
    }
    if !(bytes_eq(&target.owner, system_program_id) && target.lamports == 0 && target.data.len()
        == 0) {
        return Err(EscrowError::AccountAlreadyInUse);
    }
    if funder.lamports < rent {
        return Err(EscrowError::InsufficientLamports);
    }
    let mut data = copy_bytes(&mint.address);
    let mut owner_bytes = copy_bytes(wallet);
    data.append(&mut owner_bytes);
    let mut le = u64_to_le_bytes(0u64);
    data.append(&mut le);
    let mut rest = zeroed_bytes(93);
    data.append(&mut rest);
    proof {
        assert(data@ =~= fresh_token_account_data(mint.address@, wallet@));
        lemma_auto_spec_u64_to_from_le_bytes();
        assert(token_mint(data@) =~= mint.address@);
        assert(token_owner(data@) =~= wallet@);
        assert(data@.subrange(64, 72) =~= spec_u64_to_le_bytes(0u64));
    }
    let funder2 = AccountState {
        lamports: funder.lamports - rent,
        ..funder
    };
    let target2 = AccountState {
        owner: copy_bytes(token_program_id),
        lamports: rent,
        data,
        ..target
    };
    Ok((funder2, target2))
}

} // verus!

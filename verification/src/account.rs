use vstd::prelude::*;
use crate::byteops::copy_bytes;
use crate::errors::EscrowError;

verus! {

/// One ledger account as an instruction sees it: a flat, untyped cell. The
/// handlers reconstruct all trust (ownership, linkage, derived-address
/// authenticity) from these raw fields; nothing about an account is believed
/// merely because of the position it was supplied in.
///
/// Each value stands for a distinct ledger cell; the host locks every
/// referenced account for the whole transaction, so no cell changes under an
/// instruction's feet.
pub struct AccountState {
    /// The account's 32-byte address.
    pub address: Vec<u8>,
    /// The program that owns the account; only it may mutate the account.
    pub owner: Vec<u8>,
    /// The account's value balance; an account with zero balance and no
    /// owner-held data is an unused slot.
    pub lamports: u64,
    /// The account's stored bytes.
    pub data: Vec<u8>,
    /// Whether this account's key signed the transaction.
    pub is_signer: bool,
}

impl AccountState {
    /// Address and owning program are 32-byte identities.
    pub open spec fn wf(&self) -> bool {
        &&& self.address@.len() == 32
        &&& self.owner@.len() == 32
    }
}

/// The two accounts hold the same address, owner, balance, bytes and
/// signer flag.
pub open spec fn acct_eq(a: AccountState, b: AccountState) -> bool {
    &&& a.address@ == b.address@
    &&& a.owner@ == b.owner@
    &&& a.lamports == b.lamports
    &&& a.data@ == b.data@
    &&& a.is_signer == b.is_signer
}

/// Everything but the balance agrees.
pub open spec fn same_but_lamports(a: AccountState, b: AccountState) -> bool {
    &&& a.address@ == b.address@
    &&& a.owner@ == b.owner@
    &&& a.data@ == b.data@
    &&& a.is_signer == b.is_signer
}

/// Everything but the stored bytes agrees.
pub open spec fn same_but_data(a: AccountState, b: AccountState) -> bool {
    &&& a.address@ == b.address@
    &&& a.owner@ == b.owner@
    &&& a.lamports == b.lamports
    &&& a.is_signer == b.is_signer
}

/// Failure, if any, of the account-creation collaborator: the slot must be
/// entirely unused (system-owned, empty, zero balance), the funder must have
/// signed, and the funder must be able to pay the deposit.
pub open spec fn create_account_checks(
    funder: AccountState,
    target: AccountState,
    lamports: u64,
    system_program_id: Seq<u8>,
) -> Option<EscrowError> {
    if !funder.is_signer {
        Some(EscrowError::MissingRequiredSignature)
    } else if !(target.owner@ == system_program_id && target.lamports == 0 && target.data@.len()
        == 0) {
        Some(EscrowError::AccountAlreadyInUse)
    } else if funder.lamports < lamports {
        Some(EscrowError::InsufficientLamports)
    } else {
        None
    }
}

/// The generic ledger account-creation primitive, consumed as a capability:
/// moves the minimum-balance deposit from `funder` into a fresh zero-filled
/// account of `space` bytes at `target`, owned by `new_owner`.
pub fn create_account(
    funder: AccountState,
    target: AccountState,
    lamports: u64,
    space: usize,
    new_owner: &Vec<u8>,
    system_program_id: &Vec<u8>,
) -> (r: Result<(AccountState, AccountState), EscrowError>)
    ensures
        match r {
            Ok((funder2, target2)) => {
                &&& create_account_checks(funder, target, lamports, system_program_id@) is None
                &&& same_but_lamports(funder2, funder)
                &&& funder2.lamports == funder.lamports - lamports
                &&& target2.address@ == target.address@
                &&& target2.is_signer == target.is_signer
                &&& target2.owner@ == new_owner@
                &&& target2.lamports == lamports
                &&& target2.data@ == Seq::new(space as nat, |i: int| 0u8)
            },
            Err(e) => create_account_checks(funder, target, lamports, system_program_id@)
                == Some(e),
        },
{
    if !funder.is_signer {
        return Err(EscrowError::MissingRequiredSignature);
    }
    if !(crate::byteops::bytes_eq(&target.owner, system_program_id) && target.lamports == 0
        && target.data.len() == 0) {
        return Err(EscrowError::AccountAlreadyInUse);
    }
    if funder.lamports < lamports {
        return Err(EscrowError::InsufficientLamports);
    }
    let funder2 = AccountState {
        lamports: funder.lamports - lamports,
        ..funder
    };
    let target2 = AccountState {
        owner: copy_bytes(new_owner),
        lamports,
        data: crate::byteops::zeroed_bytes(space),
        ..target
    };
    Ok((funder2, target2))
}

} // verus!

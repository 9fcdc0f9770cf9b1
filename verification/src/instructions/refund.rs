use vstd::prelude::*;
use crate::account::AccountState;
use crate::account::acct_eq;
use crate::account::same_but_data;
use crate::account::same_but_lamports;
use crate::address::Authorization;
use crate::address::escrow_address;
use crate::address::escrow_address_of;
use crate::byteops::bytes_eq;
use crate::byteops::copy_bytes;
use crate::errors::EscrowError;
use crate::state::Escrow;
use crate::state::ESCROW_RECORD_LEN;
use crate::token::close_account;
use crate::token::lemma_with_token_amount;
use crate::token::read_mint_decimals;
use crate::token::read_token_account;
use crate::token::token_amount;
use crate::token::token_mint;
use crate::token::token_owner;
use crate::token::transfer_checked;
use crate::token::with_token_amount;
use crate::token::MINT_LEN;
use crate::token::TOKEN_ACCOUNT_LEN;
use crate::ProgramEnv;

verus! {

/// Failure, if any, of the Cancel handler, in detection order. The
/// positional account list is: maker, asset-A descriptor, asset-B
/// descriptor, maker's asset-A balance, custodial account, record account,
/// then the two infrastructure handles.
pub open spec fn refund_checks(env: ProgramEnv, accounts: Seq<AccountState>) -> Option<
    EscrowError,
> {
    if accounts.len() < 8 {
        Some(EscrowError::NotEnoughAccountKeys)
    } else {
        let maker = accounts[0];
        let mint_a = accounts[1];
        let mint_b = accounts[2];
        let maker_ata = accounts[3];
        let vault = accounts[4];
        let escrow = accounts[5];
        if !maker.is_signer {
            Some(EscrowError::InvalidAccountOwner)
        } else if !(mint_a.owner@ == env.token_program_id@ && mint_b.owner@
            == env.token_program_id@) {
            Some(EscrowError::InvalidAccountOwner)
        } else if !(maker_ata.owner@ == env.token_program_id@ && vault.owner@
            == env.token_program_id@) {
            Some(EscrowError::InvalidAccountOwner)
        } else if maker_ata.data@.len() != TOKEN_ACCOUNT_LEN {
            Some(EscrowError::InvalidAccountData)
        } else if token_owner(maker_ata.data@) != maker.address@ {
            Some(EscrowError::InvalidAccountData)
        } else if token_mint(maker_ata.data@) != mint_a.address@ {
            Some(EscrowError::InvalidAccountData)
        } else if vault.data@.len() != TOKEN_ACCOUNT_LEN {
            Some(EscrowError::InvalidAccountData)
        } else if token_owner(vault.data@) != escrow.address@ {
            Some(EscrowError::InvalidAccountData)
        } else if token_mint(vault.data@) != mint_a.address@ {
            Some(EscrowError::InvalidAccountData)
        } else if escrow.data@.len() != ESCROW_RECORD_LEN {
            Some(EscrowError::InvalidAccountData)
        } else if escrow.address@ != escrow_address_of(
            maker.address@,
            escrow.data@[40],
            escrow.data@[41],
            env.program_id@,
        ) {
            Some(EscrowError::InvalidAccountOwner)
        } else if mint_b.address@ != escrow.data@.subrange(0, 32) {
            Some(EscrowError::InvalidAccountData)
        } else if mint_a.data@.len() != MINT_LEN {
            Some(EscrowError::InvalidAccountData)
        } else if token_amount(maker_ata.data@) as int + token_amount(vault.data@) as int
            > u64::MAX as int {
            Some(EscrowError::ArithmeticOverflow)
        } else if maker.lamports as int + vault.lamports as int > u64::MAX as int {
            Some(EscrowError::ArithmeticOverflow)
        } else if maker.lamports as int + vault.lamports as int + escrow.lamports as int
            > u64::MAX as int {
            Some(EscrowError::ArithmeticOverflow)
        } else {
            None
        }
    }
}

/// The account list after a successful Cancel: the maker got the whole
/// custodial asset-A balance back together with both deposits, the
/// custodial account is closed and the record's balance zeroed. No asset-B
/// balance moves. Every other account is untouched.
pub open spec fn refund_applied(
    env: ProgramEnv,
    accounts: Seq<AccountState>,
    out: Seq<AccountState>,
) -> bool {
    let maker = accounts[0];
    let mint_a = accounts[1];
    let mint_b = accounts[2];
    let maker_ata = accounts[3];
    let vault = accounts[4];
    let escrow = accounts[5];
    let custody = token_amount(vault.data@);
    &&& out.len() == accounts.len()
    &&& same_but_lamports(out[0], maker)
    &&& out[0].lamports == maker.lamports + vault.lamports + escrow.lamports
    &&& acct_eq(out[1], mint_a)
    &&& acct_eq(out[2], mint_b)
    &&& same_but_data(out[3], maker_ata)
    &&& out[3].data@ == with_token_amount(
        maker_ata.data@,
        (token_amount(maker_ata.data@) + custody) as u64,
    )
    &&& out[4].address@ == vault.address@
    &&& out[4].is_signer == vault.is_signer
    &&& out[4].owner@ == env.system_program_id@
    &&& out[4].lamports == 0
    &&& out[4].data@.len() == 0
    &&& same_but_lamports(out[5], escrow)
    &&& out[5].lamports == 0
    &&& forall|i: int| 6 <= i < accounts.len() ==> acct_eq(#[trigger] out[i], accounts[i])
}

/// The whole contract of the Cancel handler.
pub open spec fn refund_post(
    env: ProgramEnv,
    accounts: Seq<AccountState>,
    r: Result<Vec<AccountState>, EscrowError>,
) -> bool {
    match r {
        Ok(out) => refund_checks(env, accounts) is None && refund_applied(env, accounts, out@),
        Err(e) => refund_checks(env, accounts) == Some(e),
    }
}

/// The Cancel ("refund") handler: validates the maker's accounts and the
/// record's re-derived address, returns the whole custodial asset-A balance
/// to the maker, closes the custodial account, and zeroes the record's
/// balance. Available to the maker at any time before Settle lands.
pub fn refund(env: &ProgramEnv, accounts: Vec<AccountState>, _instruction_data: &Vec<u8>) -> (r:
    Result<Vec<AccountState>, EscrowError>)
    requires
        env.wf(),
        forall|i: int| 0 <= i < accounts@.len() ==> (#[trigger] accounts@[i]).wf(),
    ensures
        refund_post(*env, accounts@, r),
{
    let ghost orig = accounts@;
    let mut accounts = accounts;
    if accounts.len() < 8 {
        return Err(EscrowError::NotEnoughAccountKeys);
    }
    let maker = accounts.remove(0);
    let mint_a = accounts.remove(0);
    let mint_b = accounts.remove(0);
    let maker_ata = accounts.remove(0);
    let vault = accounts.remove(0);
    let escrow = accounts.remove(0);
    let system_program = accounts.remove(0);
    let token_program = accounts.remove(0);
    proof {
        assert(accounts@ =~= orig.subrange(8, orig.len() as int));
    }

    if !maker.is_signer {
        return Err(EscrowError::InvalidAccountOwner);
    }
    if !(bytes_eq(&mint_a.owner, &env.token_program_id) && bytes_eq(
        &mint_b.owner,
        &env.token_program_id,
    )) {
        return Err(EscrowError::InvalidAccountOwner);
    }
    if !(bytes_eq(&maker_ata.owner, &env.token_program_id) && bytes_eq(
        &vault.owner,
        &env.token_program_id,
    )) {
        return Err(EscrowError::InvalidAccountOwner);
    }

    // Linkage of the maker's balance account and the custodial account.
    let ata = match read_token_account(&maker_ata.data) {
        Ok(t) => t,
        Err(e) => { return Err(e); },
    };
    if !bytes_eq(&ata.owner, &maker.address) {
        return Err(EscrowError::InvalidAccountData);
    }
    if !bytes_eq(&ata.mint, &mint_a.address) {
        return Err(EscrowError::InvalidAccountData);
    }
    let vlt = match read_token_account(&vault.data) {
        Ok(t) => t,
        Err(e) => { return Err(e); },
    };
    if !bytes_eq(&vlt.owner, &escrow.address) {
        return Err(EscrowError::InvalidAccountData);
    }
    if !bytes_eq(&vlt.mint, &mint_a.address) {
        return Err(EscrowError::InvalidAccountData);
    }

    // Re-derive the record address from validated data; never trust the
    // caller-supplied one.
    let record = match Escrow::from_account_data(&escrow.data) {
        Ok(rec) => rec,
        Err(e) => { return Err(e); },
    };
    let expected = escrow_address(&maker.address, record.seed, record.bump, &env.program_id);
    if !bytes_eq(&expected, &escrow.address) {
        return Err(EscrowError::InvalidAccountOwner);
    }
    if !bytes_eq(&mint_b.address, &record.mint_b) {
        return Err(EscrowError::InvalidAccountData);
    }

    // The whole current custodial balance returns to the maker, authorized
    // by the signing capability for exactly this record's seeds.
    let decimals_a = match read_mint_decimals(&mint_a.data) {
        Ok(d) => d,
        Err(e) => { return Err(e); },
    };
    let derived_authority = Authorization::Derived {
        maker: copy_bytes(&maker.address),
        seed: record.seed,
        bump: record.bump,
        program_id: copy_bytes(&env.program_id),
    };
    let custody = vlt.amount;
    let ghost vault_before = vault;
    let (vault, maker_ata) = match transfer_checked(
        vault,
        &mint_a,
        maker_ata,
        &derived_authority,
        custody,
        decimals_a,
    ) {
        Ok(p) => p,
        Err(e) => { return Err(e); },
    };

    // Close the custodial account; its deposit goes back to the maker.
    proof {
        lemma_with_token_amount(vault_before.data@, (custody - custody) as u64);
    }
    let (vault, maker) = match close_account(vault, maker, &derived_authority,
        &env.system_program_id) {
        Ok(p) => p,
        Err(e) => { return Err(e); },
    };

    // Zero the record's balance: the logical close.
    if maker.lamports > u64::MAX - escrow.lamports {
        return Err(EscrowError::ArithmeticOverflow);
    }
    let maker = AccountState { lamports: maker.lamports + escrow.lamports, ..maker };
    let escrow = AccountState { lamports: 0, ..escrow };

    let mut out: Vec<AccountState> = Vec::new();
    out.push(maker);
    out.push(mint_a);
    out.push(mint_b);
    out.push(maker_ata);
    out.push(vault);
    out.push(escrow);
    out.push(system_program);
    out.push(token_program);
    out.append(&mut accounts);
    proof {
        assert forall|i: int| 6 <= i < orig.len() implies acct_eq(#[trigger] out@[i], orig[i]) by {
            if i >= 8 {
                assert(out@[i] == orig.subrange(8, orig.len() as int)[i - 8]);
            }
        }
    }
    Ok(out)
}

} // verus!

use vstd::prelude::*;
use vstd::bytes::spec_u64_from_le_bytes;
use crate::account::AccountState;
use crate::account::acct_eq;
use crate::account::same_but_data;
use crate::account::same_but_lamports;
use crate::address::Authorization;
use crate::address::escrow_address;
use crate::address::escrow_address_of;
use crate::byteops::bytes_eq;
use crate::byteops::copy_bytes;
use crate::errors::EscrowError;
use crate::state::Escrow;
use crate::state::ESCROW_RECORD_LEN;
use crate::token::close_account;
use crate::token::lemma_with_token_amount;
use crate::token::read_mint_decimals;
use crate::token::read_token_account;
use crate::token::token_amount;
use crate::token::token_mint;
use crate::token::token_owner;
use crate::token::transfer_checked;
use crate::token::with_token_amount;
use crate::token::MINT_LEN;
use crate::token::TOKEN_ACCOUNT_LEN;
use crate::ProgramEnv;

verus! {

/// The amount of asset B an open record asks for, read out of the record
/// account's stored bytes.
pub open spec fn record_amount(record_data: Seq<u8>) -> u64 {
    spec_u64_from_le_bytes(record_data.subrange(32, 40))
}

/// Failure, if any, of the Settle handler, in detection order. The
/// positional account list is: taker, maker, asset-A descriptor, asset-B
/// descriptor, taker's asset-A balance, taker's asset-B balance, custodial
/// account, maker's asset-B balance, record account, then the two
/// infrastructure handles.
pub open spec fn take_checks(env: ProgramEnv, accounts: Seq<AccountState>) -> Option<EscrowError> {
    if accounts.len() < 11 {
        Some(EscrowError::NotEnoughAccountKeys)
    } else {
        let taker = accounts[0];
        let maker = accounts[1];
        let mint_a = accounts[2];
        let mint_b = accounts[3];
        let taker_ata_a = accounts[4];
        let taker_ata_b = accounts[5];
        let vault = accounts[6];
        let maker_ata_b = accounts[7];
        let escrow = accounts[8];
        if !taker.is_signer {
            Some(EscrowError::InvalidAccountOwner)
        } else if !(mint_a.owner@ == env.token_program_id@ && mint_b.owner@
            == env.token_program_id@) {
            Some(EscrowError::InvalidAccountOwner)
        } else if !(taker_ata_a.owner@ == env.token_program_id@ && taker_ata_b.owner@
            == env.token_program_id@ && vault.owner@ == env.token_program_id@
            && maker_ata_b.owner@ == env.token_program_id@) {
            Some(EscrowError::InvalidAccountOwner)
        } else if taker_ata_a.data@.len() != TOKEN_ACCOUNT_LEN {
            Some(EscrowError::InvalidAccountData)
        } else if token_owner(taker_ata_a.data@) != taker.address@ {
            Some(EscrowError::InvalidAccountData)
        } else if token_mint(taker_ata_a.data@) != mint_a.address@ {
            Some(EscrowError::InvalidAccountData)
        } else if taker_ata_b.data@.len() != TOKEN_ACCOUNT_LEN {
            Some(EscrowError::InvalidAccountData)
        } else if token_owner(taker_ata_b.data@) != taker.address@ {
            Some(EscrowError::InvalidAccountData)
        } else if token_mint(taker_ata_b.data@) != mint_b.address@ {
            Some(EscrowError::InvalidAccountData)
        } else if vault.data@.len() != TOKEN_ACCOUNT_LEN {
            Some(EscrowError::InvalidAccountData)
        } else if token_owner(vault.data@) != escrow.address@ {
            Some(EscrowError::InvalidAccountData)
        } else if token_mint(vault.data@) != mint_a.address@ {
            Some(EscrowError::InvalidAccountData)
        } else if maker_ata_b.data@.len() != TOKEN_ACCOUNT_LEN {
            Some(EscrowError::InvalidAccountData)
        } else if token_owner(maker_ata_b.data@) != maker.address@ {
            Some(EscrowError::InvalidAccountData)
        } else if token_mint(maker_ata_b.data@) != mint_b.address@ {
            Some(EscrowError::InvalidAccountData)
        } else if escrow.data@.len() != ESCROW_RECORD_LEN {
            Some(EscrowError::InvalidAccountData)
        } else if escrow.address@ != escrow_address_of(
            maker.address@,
            escrow.data@[40],
            escrow.data@[41],
            env.program_id@,
        ) {
            Some(EscrowError::InvalidAccountOwner)
        } else if mint_b.address@ != escrow.data@.subrange(0, 32) {
            Some(EscrowError::InvalidAccountData)
        } else if mint_b.data@.len() != MINT_LEN {
            Some(EscrowError::InvalidAccountData)
        } else if token_amount(taker_ata_b.data@) < record_amount(escrow.data@) {
            Some(EscrowError::InsufficientFunds)
        } else if token_amount(maker_ata_b.data@) as int + record_amount(escrow.data@) as int
            > u64::MAX as int {
            Some(EscrowError::ArithmeticOverflow)
        } else if mint_a.data@.len() != MINT_LEN {
            Some(EscrowError::InvalidAccountData)
        } else if token_amount(taker_ata_a.data@) as int + token_amount(vault.data@) as int
            > u64::MAX as int {
            Some(EscrowError::ArithmeticOverflow)
        } else if maker.lamports as int + vault.lamports as int > u64::MAX as int {
            Some(EscrowError::ArithmeticOverflow)
        } else if maker.lamports as int + vault.lamports as int + escrow.lamports as int
            > u64::MAX as int {
            Some(EscrowError::ArithmeticOverflow)
        } else {
            None
        }
    }
}

/// The account list after a successful Settle: the taker paid the wanted
/// amount of asset B to the maker, received the entire custodial asset-A
/// balance, and the custodial and record accounts are closed with their
/// deposits returned to the maker. Every other account is untouched.
pub open spec fn take_applied(
    env: ProgramEnv,
    accounts: Seq<AccountState>,
    out: Seq<AccountState>,
) -> bool {
    let taker = accounts[0];
    let maker = accounts[1];
    let mint_a = accounts[2];
    let mint_b = accounts[3];
    let taker_ata_a = accounts[4];
    let taker_ata_b = accounts[5];
    let vault = accounts[6];
    let maker_ata_b = accounts[7];
    let escrow = accounts[8];
    let wanted = record_amount(escrow.data@);
    let custody = token_amount(vault.data@);
    &&& out.len() == accounts.len()
    &&& acct_eq(out[0], taker)
    &&& same_but_lamports(out[1], maker)
    &&& out[1].lamports == maker.lamports + vault.lamports + escrow.lamports
    &&& acct_eq(out[2], mint_a)
    &&& acct_eq(out[3], mint_b)
    &&& same_but_data(out[4], taker_ata_a)
    &&& out[4].data@ == with_token_amount(
        taker_ata_a.data@,
        (token_amount(taker_ata_a.data@) + custody) as u64,
    )
    &&& same_but_data(out[5], taker_ata_b)
    &&& out[5].data@ == with_token_amount(
        taker_ata_b.data@,
        (token_amount(taker_ata_b.data@) - wanted) as u64,
    )
    &&& out[6].address@ == vault.address@
    &&& out[6].is_signer == vault.is_signer
    &&& out[6].owner@ == env.system_program_id@
    &&& out[6].lamports == 0
    &&& out[6].data@.len() == 0
    &&& same_but_data(out[7], maker_ata_b)
    &&& out[7].data@ == with_token_amount(
        maker_ata_b.data@,
        (token_amount(maker_ata_b.data@) + wanted) as u64,
    )
    &&& same_but_lamports(out[8], escrow)
    &&& out[8].lamports == 0
    &&& forall|i: int| 9 <= i < accounts.len() ==> acct_eq(#[trigger] out[i], accounts[i])
}

/// The whole contract of the Settle handler.
pub open spec fn take_post(
    env: ProgramEnv,
    accounts: Seq<AccountState>,
    r: Result<Vec<AccountState>, EscrowError>,
) -> bool {
    match r {
        Ok(out) => take_checks(env, accounts) is None && take_applied(env, accounts, out@),
        Err(e) => take_checks(env, accounts) == Some(e),
    }
}

/// The Settle ("take") handler: validates every account linkage and the
/// record's re-derived address, then atomically swaps the wanted amount of
/// asset B from taker to maker and the whole custodial asset-A balance to
/// the taker, closes the custodial account, and zeroes the record's balance.
pub fn take(env: &ProgramEnv, accounts: Vec<AccountState>, _instruction_data: &Vec<u8>) -> (r:
    Result<Vec<AccountState>, EscrowError>)
    requires
        env.wf(),
        forall|i: int| 0 <= i < accounts@.len() ==> (#[trigger] accounts@[i]).wf(),
    ensures
        take_post(*env, accounts@, r),
{
    let ghost orig = accounts@;
    let mut accounts = accounts;
    if accounts.len() < 11 {
        return Err(EscrowError::NotEnoughAccountKeys);
    }
    let taker = accounts.remove(0);
    let maker = accounts.remove(0);
    let mint_a = accounts.remove(0);
    let mint_b = accounts.remove(0);
    let taker_ata_a = accounts.remove(0);
    let taker_ata_b = accounts.remove(0);
    let vault = accounts.remove(0);
    let maker_ata_b = accounts.remove(0);
    let escrow = accounts.remove(0);
    let system_program = accounts.remove(0);
    let token_program = accounts.remove(0);
    proof {
        assert(accounts@ =~= orig.subrange(11, orig.len() as int));
    }

    if !taker.is_signer {
        return Err(EscrowError::InvalidAccountOwner);
    }
    if !(bytes_eq(&mint_a.owner, &env.token_program_id) && bytes_eq(
        &mint_b.owner,
        &env.token_program_id,
    )) {
        return Err(EscrowError::InvalidAccountOwner);
    }
    if !(bytes_eq(&taker_ata_a.owner, &env.token_program_id) && bytes_eq(
        &taker_ata_b.owner,
        &env.token_program_id,
    ) && bytes_eq(&vault.owner, &env.token_program_id) && bytes_eq(
        &maker_ata_b.owner,
        &env.token_program_id,
    )) {
        return Err(EscrowError::InvalidAccountOwner);
    }

    // Linkage of every balance account: recorded owner and asset id.
    let taa = match read_token_account(&taker_ata_a.data) {
        Ok(t) => t,
        Err(e) => { return Err(e); },
    };
    if !bytes_eq(&taa.owner, &taker.address) {
        return Err(EscrowError::InvalidAccountData);
    }
    if !bytes_eq(&taa.mint, &mint_a.address) {
        return Err(EscrowError::InvalidAccountData);
    }
    let tab = match read_token_account(&taker_ata_b.data) {
        Ok(t) => t,
        Err(e) => { return Err(e); },
    };
    if !bytes_eq(&tab.owner, &taker.address) {
        return Err(EscrowError::InvalidAccountData);
    }
    if !bytes_eq(&tab.mint, &mint_b.address) {
        return Err(EscrowError::InvalidAccountData);
    }
    let vlt = match read_token_account(&vault.data) {
        Ok(t) => t,
        Err(e) => { return Err(e); },
    };
    if !bytes_eq(&vlt.owner, &escrow.address) {
        return Err(EscrowError::InvalidAccountData);
    }
    if !bytes_eq(&vlt.mint, &mint_a.address) {
        return Err(EscrowError::InvalidAccountData);
    }
    let mab = match read_token_account(&maker_ata_b.data) {
        Ok(t) => t,
        Err(e) => { return Err(e); },
    };
    if !bytes_eq(&mab.owner, &maker.address) {
        return Err(EscrowError::InvalidAccountData);
    }
    if !bytes_eq(&mab.mint, &mint_b.address) {
        return Err(EscrowError::InvalidAccountData);
    }

    // Re-derive the record address from validated data; never trust the
    // caller-supplied one.
    let record = match Escrow::from_account_data(&escrow.data) {
        Ok(rec) => rec,
        Err(e) => { return Err(e); },
    };
    let expected = escrow_address(&maker.address, record.seed, record.bump, &env.program_id);
    if !bytes_eq(&expected, &escrow.address) {
        return Err(EscrowError::InvalidAccountOwner);
    }
    if !bytes_eq(&mint_b.address, &record.mint_b) {
        return Err(EscrowError::InvalidAccountData);
    }

    // Asset B: taker pays the maker the wanted amount, taker-authorized.
    let decimals_b = match read_mint_decimals(&mint_b.data) {
        Ok(d) => d,
        Err(e) => { return Err(e); },
    };
    let taker_authority = Authorization::Signature {
        address: copy_bytes(&taker.address),
        signed: taker.is_signer,
    };
    let (taker_ata_b, maker_ata_b) = match transfer_checked(
        taker_ata_b,
        &mint_b,
        maker_ata_b,
        &taker_authority,
        record.amount_b,
        decimals_b,
    ) {
        Ok(p) => p,
        Err(e) => { return Err(e); },
    };

    // Asset A: the whole current custodial balance goes to the taker,
    // authorized by the signing capability for exactly this record's seeds.
    let decimals_a = match read_mint_decimals(&mint_a.data) {
        Ok(d) => d,
        Err(e) => { return Err(e); },
    };
    let derived_authority = Authorization::Derived {
        maker: copy_bytes(&maker.address),
        seed: record.seed,
        bump: record.bump,
        program_id: copy_bytes(&env.program_id),
    };
    let custody = vlt.amount;
    let ghost vault_before = vault;
    let (vault, taker_ata_a) = match transfer_checked(
        vault,
        &mint_a,
        taker_ata_a,
        &derived_authority,
        custody,
        decimals_a,
    ) {
        Ok(p) => p,
        Err(e) => { return Err(e); },
    };

    // Close the custodial account; its deposit goes back to the maker.
    proof {
        lemma_with_token_amount(vault_before.data@, (custody - custody) as u64);
    }
    let (vault, maker) = match close_account(vault, maker, &derived_authority,
        &env.system_program_id) {
        Ok(p) => p,
        Err(e) => { return Err(e); },
    };

    // Zero the record's balance: the logical close. The deposit returns to
    // the maker; the record bytes are not scrubbed, but a zero-balance
    // account can no longer be referenced as if open.
    if maker.lamports > u64::MAX - escrow.lamports {
        return Err(EscrowError::ArithmeticOverflow);
    }
    let maker = AccountState { lamports: maker.lamports + escrow.lamports, ..maker };
    let escrow = AccountState { lamports: 0, ..escrow };

    let mut out: Vec<AccountState> = Vec::new();
    out.push(taker);
    out.push(maker);
    out.push(mint_a);
    out.push(mint_b);
    out.push(taker_ata_a);
    out.push(taker_ata_b);
    out.push(vault);
    out.push(maker_ata_b);
    out.push(escrow);
    out.push(system_program);
    out.push(token_program);
    out.append(&mut accounts);
    proof {
        assert forall|i: int| 9 <= i < orig.len() implies acct_eq(#[trigger] out@[i], orig[i]) by {
            if i >= 11 {
                assert(out@[i] == orig.subrange(11, orig.len() as int)[i - 11]);
            }
        }
    }
    Ok(out)
}

} // verus!

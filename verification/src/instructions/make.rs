use vstd::prelude::*;
use vstd::bytes::spec_u64_from_le_bytes;
use vstd::bytes::spec_u64_to_le_bytes;
use crate::account::AccountState;
use crate::account::acct_eq;
use crate::account::create_account;
use crate::account::same_but_data;
use crate::account::same_but_lamports;
use crate::address::Authorization;
use crate::address::escrow_address;
use crate::address::escrow_address_of;
use crate::byteops::bytes_eq;
use crate::byteops::copy_bytes;
use crate::byteops::read_u64_le;
use crate::byteops::zeroed_bytes;
use crate::errors::EscrowError;
use crate::state::Escrow;
use crate::state::ESCROW_RECORD_LEN;
use crate::token::create_token_account;
use crate::token::fresh_token_account_data;
use crate::token::read_mint_decimals;
use crate::token::token_amount;
use crate::token::token_mint;
use crate::token::token_owner;
use crate::token::transfer_checked;
use crate::token::with_token_amount;
use crate::token::MINT_LEN;
use crate::token::TOKEN_ACCOUNT_LEN;
use crate::ProgramEnv;

verus! {

/// Byte length of the Open payload: amount A (8) ‖ amount B (8) ‖ nonce (1) ‖
/// derivation check byte (1).
pub const MAKE_PAYLOAD_LEN: usize = 18;

/// The amount of asset A the Open payload asks to lock in custody.
pub open spec fn ix_amount_a(data: Seq<u8>) -> u64 {
    spec_u64_from_le_bytes(data.subrange(0, 8))
}

/// The amount of asset B the Open payload asks for in return.
pub open spec fn ix_amount_b(data: Seq<u8>) -> u64 {
    spec_u64_from_le_bytes(data.subrange(8, 16))
}

/// The maker-chosen nonce in the Open payload.
pub open spec fn ix_seed(data: Seq<u8>) -> u8 {
    data[16]
}

/// The derivation check byte in the Open payload.
pub open spec fn ix_bump(data: Seq<u8>) -> u8 {
    data[17]
}

/// Failure, if any, of the Open handler, in detection order. The positional
/// account list is: maker, asset-A descriptor, asset-B descriptor, maker's
/// asset-A balance, custodial slot, record slot, then the three
/// infrastructure handles.
pub open spec fn make_checks(env: ProgramEnv, accounts: Seq<AccountState>, data: Seq<u8>) -> Option<
    EscrowError,
> {
    if accounts.len() < 9 {
        Some(EscrowError::NotEnoughAccountKeys)
    } else {
        let maker = accounts[0];
        let mint_a = accounts[1];
        let mint_b = accounts[2];
        let maker_ata = accounts[3];
        let vault = accounts[4];
        let escrow = accounts[5];
        if !maker.is_signer {
            Some(EscrowError::InvalidAccountOwner)
        } else if !(mint_a.owner@ == env.token_program_id@ && mint_b.owner@
            == env.token_program_id@) {
            Some(EscrowError::InvalidAccountOwner)
        } else if maker_ata.owner@ != env.token_program_id@ {
            Some(EscrowError::InvalidAccountOwner)
        } else if !(escrow.owner@ == env.system_program_id@ && vault.owner@
            == env.system_program_id@) {
            Some(EscrowError::InvalidAccountOwner)
        } else if data.len() != MAKE_PAYLOAD_LEN {
            Some(EscrowError::InvalidInstructionData)
        } else if ix_amount_a(data) == 0 || ix_amount_b(data) == 0 {
            Some(EscrowError::InvalidInstructionData)
        } else if escrow.address@ != escrow_address_of(
            maker.address@,
            ix_seed(data),
            ix_bump(data),
            env.program_id@,
        ) {
            Some(EscrowError::InvalidAccountOwner)
        } else if !(escrow.lamports == 0 && escrow.data@.len() == 0) {
            Some(EscrowError::AccountAlreadyInUse)
        } else if maker.lamports < env.record_rent {
            Some(EscrowError::InsufficientLamports)
        } else if !(vault.lamports == 0 && vault.data@.len() == 0) {
            Some(EscrowError::AccountAlreadyInUse)
        } else if maker.lamports - env.record_rent < env.token_account_rent {
            Some(EscrowError::InsufficientLamports)
        } else if mint_a.data@.len() != MINT_LEN {
            Some(EscrowError::InvalidAccountData)
        } else if maker_ata.data@.len() != TOKEN_ACCOUNT_LEN {
            Some(EscrowError::InvalidAccountData)
        } else if token_mint(maker_ata.data@) != mint_a.address@ {
            Some(EscrowError::MintMismatch)
        } else if token_owner(maker_ata.data@) != maker.address@ {
            Some(EscrowError::OwnerMismatch)
        } else if token_amount(maker_ata.data@) < ix_amount_a(data) {
            Some(EscrowError::InsufficientFunds)
        } else {
            None
        }
    }
}

/// The account list after a successful Open: the maker paid both
/// minimum-balance deposits, the maker's asset-A balance dropped by the
/// locked amount, the custodial account exists and holds it, the record
/// account is owned by the protocol and carries the populated record, and
/// every other account is untouched.
pub open spec fn make_applied(
    env: ProgramEnv,
    accounts: Seq<AccountState>,
    data: Seq<u8>,
    out: Seq<AccountState>,
) -> bool {
    let maker = accounts[0];
    let mint_a = accounts[1];
    let mint_b = accounts[2];
    let maker_ata = accounts[3];
    let vault = accounts[4];
    let escrow = accounts[5];
    let amount_a = ix_amount_a(data);
    let amount_b = ix_amount_b(data);
    &&& out.len() == accounts.len()
    &&& same_but_lamports(out[0], maker)
    &&& out[0].lamports == maker.lamports - env.record_rent - env.token_account_rent
    &&& acct_eq(out[1], mint_a)
    &&& acct_eq(out[2], mint_b)
    &&& same_but_data(out[3], maker_ata)
    &&& out[3].data@ == with_token_amount(
        maker_ata.data@,
        (token_amount(maker_ata.data@) - amount_a) as u64,
    )
    &&& out[4].address@ == vault.address@
    &&& out[4].is_signer == vault.is_signer
    &&& out[4].owner@ == env.token_program_id@
    &&& out[4].lamports == env.token_account_rent
    &&& out[4].data@ == with_token_amount(
        fresh_token_account_data(mint_a.address@, escrow.address@),
        amount_a,
    )
    &&& out[5].address@ == escrow.address@
    &&& out[5].is_signer == escrow.is_signer
    &&& out[5].owner@ == env.program_id@
    &&& out[5].lamports == env.record_rent
    &&& out[5].data@ == mint_b.address@ + spec_u64_to_le_bytes(amount_b) + seq![
        ix_seed(data),
        ix_bump(data),
    ]
    &&& forall|i: int| 6 <= i < accounts.len() ==> acct_eq(#[trigger] out[i], accounts[i])
}

/// The whole contract of the Open handler: it succeeds exactly when every
/// precondition holds, reporting the first violated one otherwise, and on
/// success the account list is transformed as [`make_applied`] says.
pub open spec fn make_post(
    env: ProgramEnv,
    accounts: Seq<AccountState>,
    data: Seq<u8>,
    r: Result<Vec<AccountState>, EscrowError>,
) -> bool {
    match r {
        Ok(out) => make_checks(env, accounts, data) is None && make_applied(
            env,
            accounts,
            data,
            out@,
        ),
        Err(e) => make_checks(env, accounts, data) == Some(e),
    }
}

/// The Open ("make") handler: validates the caller-supplied accounts and
/// payload, creates the escrow record and the custodial holding account, and
/// moves the offered amount of asset A from the maker into custody.
pub fn make(env: &ProgramEnv, accounts: Vec<AccountState>, instruction_data: &Vec<u8>) -> (r:
    Result<Vec<AccountState>, EscrowError>)
    requires
        env.wf(),
        forall|i: int| 0 <= i < accounts@.len() ==> (#[trigger] accounts@[i]).wf(),
    ensures
        make_post(*env, accounts@, instruction_data@, r),
{
    let ghost orig = accounts@;
    let mut accounts = accounts;
    if accounts.len() < 9 {
        return Err(EscrowError::NotEnoughAccountKeys);
    }
    let maker = accounts.remove(0);
    let mint_a = accounts.remove(0);
    let mint_b = accounts.remove(0);
    let maker_ata = accounts.remove(0);
    let vault = accounts.remove(0);
    let escrow = accounts.remove(0);
    let system_program = accounts.remove(0);
    let token_program = accounts.remove(0);
    let ata_program = accounts.remove(0);
    proof {
        assert(accounts@ =~= orig.subrange(9, orig.len() as int));
    }

    if !maker.is_signer {
        return Err(EscrowError::InvalidAccountOwner);
    }
    if !(bytes_eq(&mint_a.owner, &env.token_program_id) && bytes_eq(
        &mint_b.owner,
        &env.token_program_id,
    )) {
        return Err(EscrowError::InvalidAccountOwner);
    }
    if !bytes_eq(&maker_ata.owner, &env.token_program_id) {
        return Err(EscrowError::InvalidAccountOwner);
    }
    if !(bytes_eq(&escrow.owner, &env.system_program_id) && bytes_eq(
        &vault.owner,
        &env.system_program_id,
    )) {
        return Err(EscrowError::InvalidAccountOwner);
    }

    if instruction_data.len() != MAKE_PAYLOAD_LEN {
        return Err(EscrowError::InvalidInstructionData);
    }
    let amount_a = read_u64_le(instruction_data, 0);
    let amount_b = read_u64_le(instruction_data, 8);
    let seed = instruction_data[16];
    let bump = instruction_data[17];
    if amount_a == 0 || amount_b == 0 {
        return Err(EscrowError::InvalidInstructionData);
    }

    let expected = escrow_address(&maker.address, seed, bump, &env.program_id);
    if !bytes_eq(&expected, &escrow.address) {
        return Err(EscrowError::InvalidAccountOwner);
    }

    // Create the record account, funded by the maker and owned by the protocol.
    let (maker, escrow) = match create_account(
        maker,
        escrow,
        env.record_rent,
        ESCROW_RECORD_LEN,
        &env.program_id,
        &env.system_program_id,
    ) {
        Ok(p) => p,
        Err(e) => { return Err(e); },
    };

    // Populate the zero-initialized record space in one step.
    let mut record = Escrow { mint_b: zeroed_bytes(32), amount_b: 0, seed: 0, bump: 0 };
    record.set_inner(copy_bytes(&mint_b.address), amount_b, seed, bump);
    let escrow = AccountState { data: record.encode(), ..escrow };

    // Create the custodial holding account under the record's authority.
    let (maker, vault) = match create_token_account(
        maker,
        vault,
        &escrow.address,
        &mint_a,
        env.token_account_rent,
        &env.token_program_id,
        &env.system_program_id,
    ) {
        Ok(p) => p,
        Err(e) => { return Err(e); },
    };

    // Move the offered amount of asset A into custody, maker-authorized.
    let decimals = match read_mint_decimals(&mint_a.data) {
        Ok(d) => d,
        Err(e) => { return Err(e); },
    };
    let authority = Authorization::Signature {
        address: copy_bytes(&maker.address),
        signed: maker.is_signer,
    };
    let (maker_ata, vault) = match transfer_checked(
        maker_ata,
        &mint_a,
        vault,
        &authority,
        amount_a,
        decimals,
    ) {
        Ok(p) => p,
        Err(e) => { return Err(e); },
    };

    let mut out: Vec<AccountState> = Vec::new();
    out.push(maker);
    out.push(mint_a);
    out.push(mint_b);
    out.push(maker_ata);
    out.push(vault);
    out.push(escrow);
    out.push(system_program);
    out.push(token_program);
    out.push(ata_program);
    out.append(&mut accounts);
    proof {
        assert forall|i: int| 6 <= i < orig.len() implies acct_eq(#[trigger] out@[i], orig[i]) by {
            if i >= 9 {
                assert(out@[i] == orig.subrange(9, orig.len() as int)[i - 9]);
            }
        }
    }
    Ok(out)
}

} // verus!

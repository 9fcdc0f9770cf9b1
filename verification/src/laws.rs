use vstd::prelude::*;
use crate::account::AccountState;
use crate::account::acct_eq;
use crate::address::escrow_address_of;
use crate::instructions::make::ix_amount_a;
use crate::instructions::make::ix_amount_b;
use crate::instructions::make::make_applied;
use crate::instructions::make::make_checks;
use crate::instructions::refund::refund_applied;
use crate::instructions::refund::refund_checks;
use crate::instructions::take::record_amount;
use crate::instructions::take::take_applied;
use crate::instructions::take::take_checks;
use crate::token::lemma_with_token_amount;
use crate::token::token_amount;
use crate::ProgramEnv;

verus! {

/// Uniqueness: for a valid (maker, nonce) pair, Open succeeds at most once.
/// A successful Open leaves the record slot owned by the protocol, so any
/// second Open that is handed that same slot — as every Open for the same
/// (maker, nonce, check byte) must be, since the slot's address re-derives
/// from them — fails: the slot is no longer unowned, whatever the rest of
/// the second call's inputs are.
pub proof fn lemma_open_at_most_once(
    env: ProgramEnv,
    accounts1: Seq<AccountState>,
    data1: Seq<u8>,
    out1: Seq<AccountState>,
    accounts2: Seq<AccountState>,
    data2: Seq<u8>,
)
    requires
        env.wf(),
        make_checks(env, accounts1, data1) is None,
        make_applied(env, accounts1, data1, out1),
        accounts2.len() > 5,
        acct_eq(accounts2[5], out1[5]),
    ensures
        make_checks(env, accounts2, data2) is Some,
{
    assert(accounts2[5].owner@ == env.program_id@);
}

/// Mutual exclusion, first half: after a successful Settle the custodial
/// account is released to the system program, so a Cancel handed that
/// account fails — with an ownership error, never a silent no-op.
pub proof fn lemma_no_cancel_after_settle(
    env: ProgramEnv,
    accounts1: Seq<AccountState>,
    out1: Seq<AccountState>,
    accounts2: Seq<AccountState>,
)
    requires
        env.wf(),
        take_checks(env, accounts1) is None,
        take_applied(env, accounts1, out1),
        accounts2.len() > 4,
        acct_eq(accounts2[4], out1[6]),
    ensures
        refund_checks(env, accounts2) is Some,
{
    assert(accounts2[4].owner@ == env.system_program_id@);
}

/// Mutual exclusion, second half: after a successful Cancel the custodial
/// account is released to the system program, so a Settle handed that
/// account fails — with an ownership error, never a silent no-op.
pub proof fn lemma_no_settle_after_cancel(
    env: ProgramEnv,
    accounts1: Seq<AccountState>,
    out1: Seq<AccountState>,
    accounts2: Seq<AccountState>,
)
    requires
        env.wf(),
        refund_checks(env, accounts1) is None,
        refund_applied(env, accounts1, out1),
        accounts2.len() > 6,
        acct_eq(accounts2[6], out1[4]),
    ensures
        take_checks(env, accounts2) is Some,
{
    assert(accounts2[6].owner@ == env.system_program_id@);
}

/// A Settle can also not land twice on one record: the first one closed the
/// custodial account.
pub proof fn lemma_settle_at_most_once(
    env: ProgramEnv,
    accounts1: Seq<AccountState>,
    out1: Seq<AccountState>,
    accounts2: Seq<AccountState>,
)
    requires
        env.wf(),
        take_checks(env, accounts1) is None,
        take_applied(env, accounts1, out1),
        accounts2.len() > 6,
        acct_eq(accounts2[6], out1[6]),
    ensures
        take_checks(env, accounts2) is Some,
{
    assert(accounts2[6].owner@ == env.system_program_id@);
}

/// Nor can a Cancel land twice on one record.
pub proof fn lemma_cancel_at_most_once(
    env: ProgramEnv,
    accounts1: Seq<AccountState>,
    out1: Seq<AccountState>,
    accounts2: Seq<AccountState>,
)
    requires
        env.wf(),
        refund_checks(env, accounts1) is None,
        refund_applied(env, accounts1, out1),
        accounts2.len() > 4,
        acct_eq(accounts2[4], out1[4]),
    ensures
        refund_checks(env, accounts2) is Some,
{
    assert(accounts2[4].owner@ == env.system_program_id@);
}

/// Address binding for Settle: if the supplied record account's address is
/// not the value re-derived from the maker identity and the record's own
/// nonce and check byte under the program identity, Settle rejects.
pub proof fn lemma_settle_address_binding(env: ProgramEnv, accounts: Seq<AccountState>)
    requires
        accounts.len() > 8,
        accounts[8].address@ != escrow_address_of(
            accounts[1].address@,
            accounts[8].data@[40],
            accounts[8].data@[41],
            env.program_id@,
        ),
    ensures
        take_checks(env, accounts) is Some,
{
}

/// Address binding for Cancel, exactly as for Settle.
pub proof fn lemma_cancel_address_binding(env: ProgramEnv, accounts: Seq<AccountState>)
    requires
        accounts.len() > 5,
        accounts[5].address@ != escrow_address_of(
            accounts[0].address@,
            accounts[5].data@[40],
            accounts[5].data@[41],
            env.program_id@,
        ),
    ensures
        refund_checks(env, accounts) is Some,
{
}

/// Zero-amount rejection: an Open whose payload asks to lock nothing, or to
/// want nothing in return, always fails, whatever the accounts are.
pub proof fn lemma_zero_amount_rejected(
    env: ProgramEnv,
    accounts: Seq<AccountState>,
    data: Seq<u8>,
)
    requires
        ix_amount_a(data) == 0 || ix_amount_b(data) == 0,
    ensures
        make_checks(env, accounts, data) is Some,
{
}

/// Conservation: a successful Settle moves value and creates none. The
/// taker's asset-A balance grows by exactly the custodial balance that
/// existed immediately before settlement, the maker's asset-B balance grows
/// by exactly the record's wanted amount, the taker pays exactly that
/// amount, and the summed supply of each asset over the accounts involved
/// is unchanged (the custodial account ends empty and closed).
pub proof fn lemma_settle_conserves_value(
    env: ProgramEnv,
    accounts: Seq<AccountState>,
    out: Seq<AccountState>,
)
    requires
        take_checks(env, accounts) is None,
        take_applied(env, accounts, out),
    ensures
        token_amount(out[4].data@) == token_amount(accounts[4].data@) + token_amount(
            accounts[6].data@,
        ),
        token_amount(out[7].data@) == token_amount(accounts[7].data@) + record_amount(
            accounts[8].data@,
        ),
        token_amount(out[5].data@) == token_amount(accounts[5].data@) - record_amount(
            accounts[8].data@,
        ),
        out[6].data@.len() == 0,
        token_amount(out[5].data@) + token_amount(out[7].data@) == token_amount(
            accounts[5].data@,
        ) + token_amount(accounts[7].data@),
{
    assert(accounts.len() >= 11);
    let custody = token_amount(accounts[6].data@);
    let wanted = record_amount(accounts[8].data@);
    lemma_with_token_amount(
        accounts[4].data@,
        (token_amount(accounts[4].data@) + custody) as u64,
    );
    lemma_with_token_amount(
        accounts[5].data@,
        (token_amount(accounts[5].data@) - wanted) as u64,
    );
    lemma_with_token_amount(
        accounts[7].data@,
        (token_amount(accounts[7].data@) + wanted) as u64,
    );
}

/// Restoration: a successful Cancel returns the whole custodial asset-A
/// balance to the maker's balance account, and the custodial account ends
/// empty and closed.
pub proof fn lemma_cancel_restores_value(
    env: ProgramEnv,
    accounts: Seq<AccountState>,
    out: Seq<AccountState>,
)
    requires
        refund_checks(env, accounts) is None,
        refund_applied(env, accounts, out),
    ensures
        token_amount(out[3].data@) == token_amount(accounts[3].data@) + token_amount(
            accounts[4].data@,
        ),
        out[4].data@.len() == 0,
{
    lemma_with_token_amount(
        accounts[3].data@,
        (token_amount(accounts[3].data@) + token_amount(accounts[4].data@)) as u64,
    );
}

} // verus!


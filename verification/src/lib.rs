use vstd::prelude::*;

pub mod account;
pub mod address;
pub mod byteops;
pub mod errors;
pub mod instructions;
pub mod laws;
pub mod state;
pub mod token;

use crate::account::AccountState;
use crate::byteops::sub_bytes;
use crate::errors::EscrowError;
use crate::instructions::EscrowInstructions;
use crate::instructions::make::make;
use crate::instructions::make::make_post;
use crate::instructions::refund::refund;
use crate::instructions::refund::refund_post;
use crate::instructions::take::take;
use crate::instructions::take::take_post;

verus! {

/// The fixed identities and deposit requirements the ledger runtime hands the
/// protocol: its own program identity, the identities of the system and
/// asset-custody programs, and the minimum-balance deposits for the two
/// accounts the Open handler creates.
pub struct ProgramEnv {
    /// This protocol's program identity.
    pub program_id: Vec<u8>,
    /// The asset-custody ("token") program identity.
    pub token_program_id: Vec<u8>,
    /// The system program identity; unowned account slots carry it.
    pub system_program_id: Vec<u8>,
    /// Minimum-balance deposit for the 42-byte escrow record account.
    pub record_rent: u64,
    /// Minimum-balance deposit for a custodial asset balance account.
    pub token_account_rent: u64,
}

impl ProgramEnv {
    /// Identities are 32-byte addresses, and the three programs are distinct.
    pub open spec fn wf(&self) -> bool {
        &&& self.program_id@.len() == 32
        &&& self.token_program_id@.len() == 32
        &&& self.system_program_id@.len() == 32
        &&& self.program_id@ != self.system_program_id@
        &&& self.token_program_id@ != self.system_program_id@
        &&& self.program_id@ != self.token_program_id@
    }
}

/// The instruction boundary: splits the one-byte operation selector off the
/// payload, converts it fallibly into the operation tag, and hands the rest
/// to that operation's handler. An empty payload or an unknown selector is
/// rejected before any state mutation.
pub fn process_instruction(
    env: &ProgramEnv,
    accounts: Vec<AccountState>,
    instruction_data: &Vec<u8>,
) -> (r: Result<Vec<AccountState>, EscrowError>)
    requires
        env.wf(),
        forall|i: int| 0 <= i < accounts@.len() ==> (#[trigger] accounts@[i]).wf(),
    ensures
        instruction_data@.len() == 0 ==> r == Result::<Vec<AccountState>, EscrowError>::Err(
            EscrowError::InvalidInstructionData,
        ),
        instruction_data@.len() > 0 ==> {
            let rest = instruction_data@.subrange(1, instruction_data@.len() as int);
            &&& instruction_data@[0] == 0 ==> make_post(*env, accounts@, rest, r)
            &&& instruction_data@[0] == 1 ==> take_post(*env, accounts@, r)
            &&& instruction_data@[0] == 2 ==> refund_post(*env, accounts@, r)
            &&& instruction_data@[0] > 2 ==> r == Result::<Vec<AccountState>, EscrowError>::Err(
                EscrowError::InvalidInstructionData,
            )
        },
{
    if instruction_data.len() == 0 {
        return Err(EscrowError::InvalidInstructionData);
    }
    let discriminator = instruction_data[0];
    let data = sub_bytes(instruction_data, 1, instruction_data.len());
    match EscrowInstructions::try_from(&discriminator) {
        Ok(EscrowInstructions::MAKE) => make(env, accounts, &data),
        Ok(EscrowInstructions::TAKE) => take(env, accounts, &data),
        Ok(EscrowInstructions::REFUND) => refund(env, accounts, &data),
        Err(e) => Err(e),
    }
}

} // verus!

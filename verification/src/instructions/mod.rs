use vstd::prelude::*;
use crate::errors::EscrowError;

pub mod make;
pub mod refund;
pub mod take;

verus! {

/// The three operations of the protocol, dispatched from the one-byte
/// selector that leads every instruction payload.
#[derive(Clone, Copy, Debug, PartialEq, Eq, Structural)]
pub enum EscrowInstructions {
    /// Open an exchange offer: create the record and the custodial holding
    /// account, and move asset A into custody.
    MAKE,
    /// Settle the exchange: swap asset B to the maker and custodial asset A
    /// to the taker, then close the record.
    TAKE,
    /// Cancel the offer: return custodial asset A to the maker, then close
    /// the record.
    REFUND,
}

impl EscrowInstructions {
    /// Explicit fallible conversion from the selector byte; every unknown
    /// value is rejected, with no default branch.
    pub fn try_from(discriminator: &u8) -> (r: Result<EscrowInstructions, EscrowError>)
        ensures
            match r {
                Ok(ix) => {
                    &&& *discriminator == 0 ==> ix == EscrowInstructions::MAKE
                    &&& *discriminator == 1 ==> ix == EscrowInstructions::TAKE
                    &&& *discriminator == 2 ==> ix == EscrowInstructions::REFUND
                    &&& *discriminator <= 2
                },
                Err(e) => *discriminator > 2 && e == EscrowError::InvalidInstructionData,
            },
    {
        match discriminator {
            0u8 => Ok(EscrowInstructions::MAKE),
            1u8 => Ok(EscrowInstructions::TAKE),
            2u8 => Ok(EscrowInstructions::REFUND),
            _ => Err(EscrowError::InvalidInstructionData),
        }
    }
}

} // verus!

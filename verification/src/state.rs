use vstd::prelude::*;
use vstd::bytes::lemma_auto_spec_u64_to_from_le_bytes;
use vstd::bytes::spec_u64_from_le_bytes;
use vstd::bytes::spec_u64_to_le_bytes;
use vstd::bytes::u64_to_le_bytes;
use crate::byteops::copy_bytes;
use crate::byteops::read_u64_le;
use crate::byteops::sub_bytes;
use crate::errors::EscrowError;

verus! {

/// Byte length of the persisted escrow record:
/// wanted asset id (32) ‖ wanted amount (8, little endian) ‖ nonce (1) ‖
/// derivation check byte (1).
pub const ESCROW_RECORD_LEN: usize = 42;

/// The escrow record: the one persisted entity, describing a single open
/// exchange offer. It exists exactly while the offer is open; it is populated
/// once by the Open handler and never mutated afterwards.
pub struct Escrow {
    /// 32-byte identifier of the asset the maker wants in return.
    pub mint_b: Vec<u8>,
    /// How much of that asset the maker wants; positive for every open record.
    pub amount_b: u64,
    /// Maker-chosen nonce that makes the derived record address unique per maker.
    pub seed: u8,
    /// The derivation check byte for the record's own address.
    pub bump: u8,
}

impl Escrow {
    /// The wanted asset id is a 32-byte address.
    pub open spec fn wf(&self) -> bool {
        self.mint_b@.len() == 32
    }

    /// The record's fixed 42-byte layout.
    pub open spec fn spec_encode(&self) -> Seq<u8> {
        self.mint_b@ + spec_u64_to_le_bytes(self.amount_b) + seq![self.seed, self.bump]
    }

    /// `data` holds exactly the encoding of record `e`.
    pub open spec fn decodes_to(data: Seq<u8>, e: Escrow) -> bool {
        &&& data.len() == ESCROW_RECORD_LEN
        &&& e.mint_b@ == data.subrange(0, 32)
        &&& e.amount_b == spec_u64_from_le_bytes(data.subrange(32, 40))
        &&& e.seed == data[40]
        &&& e.bump == data[41]
    }

    /// Serializes the record into its 42-byte persisted layout.
    pub fn encode(&self) -> (r: Vec<u8>)
        requires
            self.wf(),
        ensures
            r@ == self.spec_encode(),
            r@.len() == ESCROW_RECORD_LEN,
            Escrow::decodes_to(r@, *self),
    {
        let mut r = copy_bytes(&self.mint_b);
        let mut amount = u64_to_le_bytes(self.amount_b);
        r.append(&mut amount);
        r.push(self.seed);
        r.push(self.bump);
        proof {
            lemma_auto_spec_u64_to_from_le_bytes();
            assert(r@ =~= self.spec_encode());
            assert(r@.subrange(0, 32) =~= self.mint_b@);
            assert(r@.subrange(32, 40) =~= spec_u64_to_le_bytes(self.amount_b));
        }
        r
    }

    /// Reads a record back from an account's stored bytes, after a bounds
    /// check on the length; raw storage is never aliased as a typed value.
    pub fn from_account_data(data: &Vec<u8>) -> (r: Result<Escrow, EscrowError>)
        ensures
            match r {
                Ok(e) => Escrow::decodes_to(data@, e) && e.wf(),
                Err(e) => data@.len() != ESCROW_RECORD_LEN && e == EscrowError::InvalidAccountData,
            },
    {
        if data.len() != ESCROW_RECORD_LEN {
            return Err(EscrowError::InvalidAccountData);
        }
        let mint_b = sub_bytes(data, 0, 32);
        let amount_b = read_u64_le(data, 32);
        let seed = data[40];
        let bump = data[41];
        Ok(Escrow { mint_b, amount_b, seed, bump })
    }

    /// Populates the record in one step; creation-time initialization.
    pub fn set_inner(&mut self, mint_b: Vec<u8>, amount_b: u64, seed: u8, bump: u8)
        requires
            mint_b@.len() == 32,
        ensures
            final(self).mint_b@ == mint_b@,
            final(self).amount_b == amount_b,
            final(self).seed == seed,
            final(self).bump == bump,
            final(self).wf(),
    {
        self.mint_b = mint_b;
        self.amount_b = amount_b;
        self.seed = seed;
        self.bump = bump;
    }

    /// Round trip: decoding an encoded record yields the record itself, so
    /// the persisted layout loses nothing.
    pub proof fn lemma_encode_decode(e: Escrow, d: Escrow)
        requires
            e.wf(),
            Escrow::decodes_to(e.spec_encode(), d),
        ensures
            d.mint_b@ == e.mint_b@,
            d.amount_b == e.amount_b,
            d.seed == e.seed,
            d.bump == e.bump,
    {
        lemma_auto_spec_u64_to_from_le_bytes();
        assert(e.spec_encode().subrange(0, 32) =~= e.mint_b@);
        assert(e.spec_encode().subrange(32, 40) =~= spec_u64_to_le_bytes(e.amount_b));
    }
}

} // verus!

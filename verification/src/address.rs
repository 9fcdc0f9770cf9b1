use vstd::prelude::*;
use crate::byteops::copy_bytes;

verus! {

/// The address that the ledger derives from the seed tuple
/// `(tag, base, seed, bump)` under `program_id`: a digest of the seeds, the
/// program identity and the ledger's derivation marker. It depends on those
/// arguments alone.
pub uninterp spec fn derived_address_of(
    tag: Seq<u8>,
    base: Seq<u8>,
    seed: u8,
    bump: u8,
    program_id: Seq<u8>,
) -> Seq<u8>;

/// Relies on `pinocchio_pubkey::derive_address_const`: the derived address is
/// a SHA-256 digest of the seeds, the program identity and the derivation
/// marker, so it is a pure function of the arguments and is 32 bytes long.
#[verifier::external_body]
fn derive_address_raw(tag: &Vec<u8>, base: &Vec<u8>, seed: u8, bump: u8, program_id: &Vec<u8>) -> (r: Vec<u8>)
    requires
        program_id@.len() == 32,
    ensures
        r@ == derived_address_of(tag@, base@, seed, bump, program_id@),
        r@.len() == 32,
{
    let pid: [u8; 32] = program_id.as_slice().try_into().unwrap();
    let seed_bytes = [seed];
    let bump_bytes = [bump];
    let seeds: [&[u8]; 4] = [tag.as_slice(), base.as_slice(), &seed_bytes, &bump_bytes];
    pinocchio_pubkey::derive_address_const(&seeds, None, &pid).to_vec()
}

/// The seed prefix that scopes every escrow record derivation.
pub open spec fn escrow_tag() -> Seq<u8> {
    seq![101u8, 115u8, 99u8, 114u8, 111u8, 119u8]
}

/// The bytes of [`escrow_tag`], spelling "escrow".
pub fn escrow_tag_bytes() -> (r: Vec<u8>)
    ensures
        r@ == escrow_tag(),
{
    let mut r: Vec<u8> = Vec::new();
    r.push(101u8);
    r.push(115u8);
    r.push(99u8);
    r.push(114u8);
    r.push(111u8);
    r.push(119u8);
    proof {
        assert(r@ =~= escrow_tag());
    }
    r
}

/// The custodial address of the escrow record opened by `maker` with nonce
/// `seed` and derivation check byte `bump`, under `program_id`.
pub open spec fn escrow_address_of(maker: Seq<u8>, seed: u8, bump: u8, program_id: Seq<u8>) -> Seq<u8> {
    derived_address_of(escrow_tag(), maker, seed, bump, program_id)
}

/// Recomputes the escrow record address for the given seed tuple. Every
/// handler compares this value byte-for-byte against the record account the
/// caller supplied; a caller-supplied address is never trusted.
pub fn escrow_address(maker: &Vec<u8>, seed: u8, bump: u8, program_id: &Vec<u8>) -> (r: Vec<u8>)
    requires
        program_id@.len() == 32,
    ensures
        r@ == escrow_address_of(maker@, seed, bump, program_id@),
        r@.len() == 32,
{
    let tag = escrow_tag_bytes();
    derive_address_raw(&tag, maker, seed, bump, program_id)
}

/// The authority presented to the value-transfer collaborator: either a
/// caller's signature proof, or the protocol's signing capability, scoped to
/// exactly one derived seed tuple. The source of authorization is always an
/// explicit value, never ambient state.
pub enum Authorization {
    /// A user key: valid only if that key actually signed the transaction.
    Signature { address: Vec<u8>, signed: bool },
    /// The protocol's derived signing capability. It authorizes transfers out
    /// of accounts owned by the address derived from exactly this seed tuple,
    /// and no other.
    Derived { maker: Vec<u8>, seed: u8, bump: u8, program_id: Vec<u8> },
}

impl Authorization {
    /// The program identity of a derived capability is a 32-byte address.
    pub open spec fn wf(&self) -> bool {
        match self {
            Authorization::Signature { .. } => true,
            Authorization::Derived { program_id, .. } => program_id@.len() == 32,
        }
    }

    /// The address this authority can move value out of.
    pub open spec fn spec_address(&self) -> Seq<u8> {
        match self {
            Authorization::Signature { address, .. } => address@,
            Authorization::Derived { maker, seed, bump, program_id } =>
                escrow_address_of(maker@, *seed, *bump, program_id@),
        }
    }

    /// Whether the authority actually carries authorization: a signature must
    /// have been given; a derived capability is always valid for its own
    /// address, because only the program identity can produce it.
    pub open spec fn spec_is_valid(&self) -> bool {
        match self {
            Authorization::Signature { signed, .. } => *signed,
            Authorization::Derived { .. } => true,
        }
    }

    /// Computes the authorized address.
    pub fn address(&self) -> (r: Vec<u8>)
        requires
            self.wf(),
        ensures
            r@ == self.spec_address(),
    {
        match self {
            Authorization::Signature { address, .. } => copy_bytes(address),
            Authorization::Derived { maker, seed, bump, program_id } =>
                escrow_address(maker, *seed, *bump, program_id),
        }
    }

    /// Tests whether the authority carries authorization.
    pub fn is_valid(&self) -> (r: bool)
        ensures
            r == self.spec_is_valid(),
    {
        match self {
            Authorization::Signature { signed, .. } => *signed,
            Authorization::Derived { .. } => true,
        }
    }
}

} // verus!

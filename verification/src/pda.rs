//! Deterministic address derivation: (owner, name) -> (account address, seed
//! fingerprint).
//!
//! The fingerprint is one fixed cryptographic hash over a domain-separated
//! concatenation of the owner's address bytes and the name's bytes; the
//! account address is the canonical program-derived address over the same
//! seeds.  Both are pure functions of the exact owner and name bytes.

use vstd::prelude::*;
use vstd::string::StringSliceAdditionalSpecFns;

use crate::codec::push_all;
use crate::error::WorldError;

verus! {

/// Upper bound on the byte length of an account name: each derivation seed
/// may hold at most 32 bytes.
pub const MAX_NAME_LEN: usize = 32;

/// Domain-separation tag placed before the owner and name bytes, both in the
/// fingerprint preimage and as the first derivation seed ("world" in ASCII).
pub const WORLD_TAG: [u8; 5] = [119, 111, 114, 108, 100];

/// Address of the on-ledger world program that owns every derived state
/// account ("mojo world program" in ASCII, zero padded).
pub const WORLD_PROGRAM_ID: [u8; 32] = [
    109, 111, 106, 111, 32, 119, 111, 114, 108, 100, 32, 112, 114, 111, 103, 114, 97, 109, 0, 0,
    0, 0, 0, 0, 0, 0, 0, 0, 0, 0, 0, 0,
];

/// The domain-separated byte string that the fingerprint hashes: the fixed
/// tag, then the 32 owner bytes, then the name bytes.
pub open spec fn seed_preimage(owner: Seq<u8>, name: Seq<u8>) -> Seq<u8> {
    WORLD_TAG@ + owner + name
}

/// The SHA-256 digest of a byte string, named but not defined here.
pub uninterp spec fn sha256_of(data: Seq<u8>) -> Seq<u8>;

/// Relies on solana_sha256_hasher::hash: the SHA-256 digest of the input, a
/// pure function of the input bytes alone, 32 bytes long.
#[verifier::external_body]
fn sha256(data: &[u8]) -> (r: [u8; 32])
    ensures
        r@ == sha256_of(data@),
{
    solana_sha256_hasher::hash(data).to_bytes()
}

/// The seed fingerprint of (owner, name): the fixed hash of the
/// domain-separated preimage.
pub open spec fn fingerprint_of(owner: Seq<u8>, name: Seq<u8>) -> Seq<u8> {
    sha256_of(seed_preimage(owner, name))
}

/// What the canonical derivation scheme returns for a list of three seeds and
/// a program id: the derived address and its bump, or nothing when no viable
/// address exists or a seed is over the scheme's bound.  A pure function of
/// its arguments, named but not defined here.
pub uninterp spec fn pda_of(seeds: Seq<Seq<u8>>, program_id: Seq<u8>) -> Option<(Seq<u8>, u8)>;

/// The view of an executable derivation result, for stating `pda_of`.
pub open spec fn pda_view(r: Option<([u8; 32], u8)>) -> Option<(Seq<u8>, u8)> {
    match r {
        Some((addr, bump)) => Some((addr@, bump)),
        None => None,
    }
}

/// Relies on solana_pubkey::Pubkey::derive_program_address: the canonical
/// program-derived-address search over the given seeds and program id, a pure
/// function of its arguments; it returns None (it does not panic) when a seed
/// is over the scheme's bound or no viable address exists.
#[verifier::external_body]
fn find_pda(
    seed_a: &[u8],
    seed_b: &[u8],
    seed_c: &[u8],
    program_id: &[u8; 32],
) -> (r: Option<([u8; 32], u8)>)
    ensures
        pda_view(r) == pda_of(seq![seed_a@, seed_b@, seed_c@], program_id@),
{
    let pid = solana_pubkey::Pubkey::new_from_array(*program_id);
    let found = solana_pubkey::Pubkey::derive_program_address(&[seed_a, seed_b, seed_c], &pid);
    found.map(|pair: (solana_pubkey::Pubkey, u8)| (pair.0.to_bytes(), pair.1))
}

/// The three derivation seeds of (owner, name): the fixed tag, the owner
/// bytes, the name bytes.
pub open spec fn world_seeds(owner: Seq<u8>, name: Seq<u8>) -> Seq<Seq<u8>> {
    seq![WORLD_TAG@, owner, name]
}

/// The derived account address of (owner, name), when the scheme finds one.
pub open spec fn world_address_of(owner: Seq<u8>, name: Seq<u8>) -> Option<Seq<u8>> {
    match pda_of(world_seeds(owner, name), WORLD_PROGRAM_ID@) {
        Some((addr, _)) => Some(addr),
        None => None,
    }
}

/// The seed fingerprint of (owner, name): hashes the domain-separated
/// concatenation of the owner bytes and the name bytes.
pub fn world_seed_hash(owner: &[u8; 32], name: &str) -> (r: [u8; 32])
    ensures
        r@ == fingerprint_of(owner@, name.spec_bytes()),
{
    let mut preimage: Vec<u8> = Vec::new();
    push_all(&mut preimage, WORLD_TAG.as_slice());
    push_all(&mut preimage, owner.as_slice());
    push_all(&mut preimage, name.as_bytes());
    proof {
        assert(preimage@ =~= seed_preimage(owner@, name.spec_bytes()));
    }
    sha256(preimage.as_slice())
}

/// Derives the account address of (owner, name) together with its bump seed.
///
/// Fails with `InvalidNameLength` exactly when the name's encoded length
/// exceeds the derivation bound, and with `DerivationFailure` exactly when
/// the scheme finds no viable address for an admissible name.
pub fn find_world_pda(owner: &[u8; 32], name: &str) -> (r: Result<([u8; 32], u8), WorldError>)
    ensures
        name.spec_bytes().len() > MAX_NAME_LEN ==> r == Err::<([u8; 32], u8), WorldError>(
            WorldError::InvalidNameLength(name.spec_bytes().len() as usize, MAX_NAME_LEN),
        ),
        name.spec_bytes().len() <= MAX_NAME_LEN ==> match pda_of(
            world_seeds(owner@, name.spec_bytes()),
            WORLD_PROGRAM_ID@,
        ) {
            Some((addr, bump)) => r matches Ok(p) && p.0@ == addr && p.1 == bump,
            None => r == Err::<([u8; 32], u8), WorldError>(WorldError::DerivationFailure),
        },
{
    let name_bytes = name.as_bytes();
    if name_bytes.len() > MAX_NAME_LEN {
        return Err(WorldError::InvalidNameLength(name_bytes.len(), MAX_NAME_LEN));
    }
    match find_pda(WORLD_TAG.as_slice(), owner.as_slice(), name_bytes, &WORLD_PROGRAM_ID) {
        Some(pair) => Ok(pair),
        None => Err(WorldError::DerivationFailure),
    }
}

/// Derives the (address, fingerprint) pair of (owner, name).
///
/// Deterministic: the result is a pure function of the exact owner bytes and
/// name bytes.  Fails with `InvalidNameLength` exactly when the name's
/// encoded length exceeds the derivation bound.
pub fn derive(owner: &[u8; 32], name: &str) -> (r: Result<([u8; 32], [u8; 32]), WorldError>)
    ensures
        name.spec_bytes().len() > MAX_NAME_LEN ==> r == Err::<([u8; 32], [u8; 32]), WorldError>(
            WorldError::InvalidNameLength(name.spec_bytes().len() as usize, MAX_NAME_LEN),
        ),
        name.spec_bytes().len() <= MAX_NAME_LEN ==> match world_address_of(
            owner@,
            name.spec_bytes(),
        ) {
            Some(addr) => r matches Ok(p) && p.0@ == addr && p.1@ == fingerprint_of(
                owner@,
                name.spec_bytes(),
            ),
            None => r == Err::<([u8; 32], [u8; 32]), WorldError>(WorldError::DerivationFailure),
        },
{
    let (addr, _bump) = match find_world_pda(owner, name) {
        Ok(p) => p,
        Err(e) => {
            return Err(e);
        },
    };
    let seed = world_seed_hash(owner, name);
    Ok((addr, seed))
}

/// Law: derivation is deterministic.  Any two results that satisfy the
/// derivation contract for the same (owner, name) are identical, address and
/// fingerprint both.
pub proof fn lemma_derive_deterministic(
    owner: Seq<u8>,
    name: Seq<u8>,
    addr1: Seq<u8>,
    fp1: Seq<u8>,
    addr2: Seq<u8>,
    fp2: Seq<u8>,
)
    requires
        world_address_of(owner, name) == Some(addr1),
        fp1 == fingerprint_of(owner, name),
        world_address_of(owner, name) == Some(addr2),
        fp2 == fingerprint_of(owner, name),
    ensures
        addr1 == addr2,
        fp1 == fp2,
{
}

/// Law: the fingerprint preimage is injective.  Distinct (owner, name) pairs
/// are always hashed from distinct byte strings, so the domain-separated
/// framing itself never makes a cross-owner or cross-name collision; only the
/// hash could, with overwhelming improbability.
pub proof fn lemma_seed_preimage_injective(o1: Seq<u8>, n1: Seq<u8>, o2: Seq<u8>, n2: Seq<u8>)
    requires
        o1.len() == 32,
        o2.len() == 32,
        o1 != o2 || n1 != n2,
    ensures
        seed_preimage(o1, n1) != seed_preimage(o2, n2),
{
    let p1 = seed_preimage(o1, n1);
    let p2 = seed_preimage(o2, n2);
    if p1 == p2 {
        assert(p1.len() == 37 + n1.len());
        assert(p2.len() == 37 + n2.len());
        assert(o1 =~= p1.subrange(5, 37));
        assert(o2 =~= p2.subrange(5, 37));
        assert(n1 =~= p1.subrange(37, p1.len() as int));
        assert(n2 =~= p2.subrange(37, p2.len() as int));
        assert(false);
    }
}

} // verus!

use vstd::prelude::*;
use crate::address::Key;
use crate::address::keys_equal;
use crate::error::PayStreamError;

verus! {

/// A committed hash-lock escrow.
#[derive(Debug, Clone, Copy)]
pub struct BountyPool {
    /// The identity that funded the pool and keys its derived address.
    pub authority: Key,
    /// The commitment a claimer must open.
    pub target_hash: [u8; 32],
    /// Salt of the pool's derived address.
    pub bump: u8,
}

/// The SHA-256 digest of a byte string.
pub uninterp spec fn sha256_of(data: Seq<u8>) -> Seq<u8>;

/// Relies on `solana_program::hash::hash`: the SHA-256 digest of the bytes,
/// which depends on them alone.
#[verifier::external_body]
pub(crate) fn hash_bytes(data: &Vec<u8>) -> (r: [u8; 32])
    ensures
        r@ == sha256_of(data@),
{
    anchor_lang::solana_program::hash::hash(data.as_slice()).to_bytes()
}

/// The record left behind and the payout of a claim that reveals a preimage
/// with digest `digest`, against a custody balance of `vault_balance`.
pub open spec fn claim_outcome(pool: Option<BountyPool>, digest: Seq<u8>, vault_balance: u64) -> (
    Option<BountyPool>,
    Result<u64, PayStreamError>,
) {
    match pool {
        None => (pool, Err(PayStreamError::AccountNotInitialized)),
        Some(p) => if digest == p.target_hash@ {
            (None, Ok(vault_balance))
        } else {
            (pool, Err(PayStreamError::InvalidSecret))
        },
    }
}

/// Opens the hash-lock with a digest: where it equals the commitment, the
/// whole custodied balance goes to the claimer and the record is erased.
pub fn release_bounty(pool: &mut Option<BountyPool>, digest: &[u8; 32], vault_balance: u64) -> (r:
    Result<u64, PayStreamError>)
    ensures
        (*final(pool), r) == claim_outcome(*old(pool), digest@, vault_balance),
        *old(pool) is None ==> r == Err::<u64, PayStreamError>(
            PayStreamError::AccountNotInitialized,
        ),
        *old(pool) matches Some(p) ==> (r is Ok <==> digest@ == p.target_hash@),
        *old(pool) is Some && r is Err ==> r == Err::<u64, PayStreamError>(
            PayStreamError::InvalidSecret,
        ),
        r matches Ok(amount) ==> amount == vault_balance && *final(pool) is None,
{
    match pool {
        None => Err(PayStreamError::AccountNotInitialized),
        Some(p) => {
            if keys_equal(digest, &p.target_hash) {
                *pool = None;
                Ok(vault_balance)
            } else {
                Err(PayStreamError::InvalidSecret)
            }
        },
    }
}

/// Hashes the revealed secret and opens the hash-lock with its digest.
pub fn reveal_secret(pool: &mut Option<BountyPool>, secret: &Vec<u8>, vault_balance: u64) -> (r:
    Result<u64, PayStreamError>)
    ensures
        (*final(pool), r) == claim_outcome(*old(pool), sha256_of(secret@), vault_balance),
        *old(pool) matches Some(p) ==> (r is Ok <==> sha256_of(secret@) == p.target_hash@),
{
    let digest = hash_bytes(secret);
    release_bounty(pool, &digest, vault_balance)
}

/// A pool pays out at most once: after a successful claim, every later claim
/// fails, whatever it reveals.
pub proof fn lemma_claimed_at_most_once(
    pool: Option<BountyPool>,
    first: Seq<u8>,
    first_balance: u64,
    second: Seq<u8>,
    second_balance: u64,
)
    ensures
        claim_outcome(pool, first, first_balance).1 is Ok ==> claim_outcome(
            claim_outcome(pool, first, first_balance).0,
            second,
            second_balance,
        ).1 == Err::<u64, PayStreamError>(PayStreamError::AccountNotInitialized),
{
}

/// A claim on an open pool succeeds exactly when the digest matches the
/// commitment, and fails with `InvalidSecret` otherwise, leaving the pool open.
pub proof fn lemma_claim_iff_digest_matches(p: BountyPool, digest: Seq<u8>, vault_balance: u64)
    ensures
        claim_outcome(Some(p), digest, vault_balance).1 is Ok <==> digest == p.target_hash@,
        digest != p.target_hash@ ==> claim_outcome(Some(p), digest, vault_balance) == (
            Some(p),
            Err::<u64, PayStreamError>(PayStreamError::InvalidSecret),
        ),
{
}

} // verus!

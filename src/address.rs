use vstd::prelude::*;
use vstd::slice::slice_to_vec;
use anchor_lang::solana_program::pubkey::Pubkey;
use crate::error::PayStreamError;

verus! {

/// A 32-byte identity key or derived address.
pub type Key = [u8; 32];

/// Label of the seed layout of a stream session: `session_v1`.
pub open spec fn session_label() -> Seq<u8> {
    seq![115u8, 101, 115, 115, 105, 111, 110, 95, 118, 49]
}

/// Returns the bytes of `session_label()`.
pub fn session_label_bytes() -> (r: Vec<u8>)
    ensures
        r@ == session_label(),
{
    let r = slice_to_vec(&[115u8, 101, 115, 115, 105, 111, 110, 95, 118, 49]);
    assert(r@ =~= session_label());
    r
}

/// Label of a session's custody account: `vault`.
pub open spec fn vault_label() -> Seq<u8> {
    seq![118u8, 97, 117, 108, 116]
}

/// Label of a bounty pool: `bounty`.
pub open spec fn bounty_label() -> Seq<u8> {
    seq![98u8, 111, 117, 110, 116, 121]
}

/// Label of a bounty's custody account: `bounty_vault`.
pub open spec fn bounty_vault_label() -> Seq<u8> {
    seq![98u8, 111, 117, 110, 116, 121, 95, 118, 97, 117, 108, 116]
}

/// Seeds of a stream session, without the salt.
pub open spec fn session_seed_list(payer: Seq<u8>, host: Seq<u8>) -> Seq<Seq<u8>> {
    seq![session_label(), payer, host]
}

/// Seeds of a session's custody account, without the salt.
pub open spec fn vault_seed_list(session: Seq<u8>) -> Seq<Seq<u8>> {
    seq![vault_label(), session]
}

/// Seeds of a bounty pool, without the salt.
pub open spec fn bounty_seed_list(authority: Seq<u8>) -> Seq<Seq<u8>> {
    seq![bounty_label(), authority]
}

/// Seeds of a bounty's custody account, without the salt.
pub open spec fn bounty_vault_seed_list(bounty: Seq<u8>) -> Seq<Seq<u8>> {
    seq![bounty_vault_label(), bounty]
}

/// Builds the seeds of a stream session.
pub fn session_seeds(payer: &Key, host: &Key) -> (r: Vec<Vec<u8>>)
    ensures
        seeds_view(r@) == session_seed_list(payer@, host@),
{
    let mut r: Vec<Vec<u8>> = Vec::new();
    r.push(session_label_bytes());
    r.push(slice_to_vec(payer));
    r.push(slice_to_vec(host));
    assert(seeds_view(r@) =~= session_seed_list(payer@, host@));
    r
}

/// Builds the seeds of a session's custody account.
pub fn vault_seeds(session: &Key) -> (r: Vec<Vec<u8>>)
    ensures
        seeds_view(r@) == vault_seed_list(session@),
{
    let label = slice_to_vec(&[118u8, 97, 117, 108, 116]);
    assert(label@ =~= vault_label());
    let mut r: Vec<Vec<u8>> = Vec::new();
    r.push(label);
    r.push(slice_to_vec(session));
    assert(seeds_view(r@) =~= vault_seed_list(session@));
    r
}

/// Builds the seeds of a bounty pool.
pub fn bounty_seeds(authority: &Key) -> (r: Vec<Vec<u8>>)
    ensures
        seeds_view(r@) == bounty_seed_list(authority@),
{
    let label = slice_to_vec(&[98u8, 111, 117, 110, 116, 121]);
    assert(label@ =~= bounty_label());
    let mut r: Vec<Vec<u8>> = Vec::new();
    r.push(label);
    r.push(slice_to_vec(authority));
    assert(seeds_view(r@) =~= bounty_seed_list(authority@));
    r
}

/// Builds the seeds of a bounty's custody account.
pub fn bounty_vault_seeds(bounty: &Key) -> (r: Vec<Vec<u8>>)
    ensures
        seeds_view(r@) == bounty_vault_seed_list(bounty@),
{
    let label = slice_to_vec(&[98u8, 111, 117, 110, 116, 121, 95, 118, 97, 117, 108, 116]);
    assert(label@ =~= bounty_vault_label());
    let mut r: Vec<Vec<u8>> = Vec::new();
    r.push(label);
    r.push(slice_to_vec(bounty));
    assert(seeds_view(r@) =~= bounty_vault_seed_list(bounty@));
    r
}

/// Compares two keys byte by byte.
pub fn keys_equal(a: &Key, b: &Key) -> (r: bool)
    ensures
        r == (a@ == b@),
{
    let mut i: usize = 0;
    while i < 32
        invariant
            0 <= i <= 32,
            a@.len() == 32,
            b@.len() == 32,
            forall|j: int| 0 <= j < i ==> a@[j] == b@[j],
        decreases 32 - i,
    {
        if a[i] != b[i] {
            return false;
        }
        i = i + 1;
    }
    assert(a@ =~= b@);
    true
}


/// The address that the ledger derives for a program from a list of seeds,
/// or `None` where the seeds are refused or the derived point lies on the curve.
pub uninterp spec fn program_address(seeds: Seq<Seq<u8>>, program_id: Seq<u8>) -> Option<Seq<u8>>;

/// What a list of seed buffers holds.
pub open spec fn seeds_view(seeds: Seq<Vec<u8>>) -> Seq<Seq<u8>> {
    seeds.map_values(|s: Vec<u8>| s@)
}

/// A seed list extended with the one-byte salt (the bump).
pub open spec fn with_bump(seeds: Seq<Seq<u8>>, bump: u8) -> Seq<Seq<u8>> {
    seeds.push(seq![bump])
}

/// Relies on `Pubkey::create_program_address`: the address derived from the
/// seeds and the program id, `None` for every error it reports.
#[verifier::external_body]
fn create_program_address(seeds: &Vec<Vec<u8>>, program_id: &Key) -> (r: Option<Key>)
    ensures
        match program_address(seeds_view(seeds@), program_id@) {
            Some(a) => r matches Some(k) && k@ == a,
            None => r is None,
        },
{
    let slices: Vec<&[u8]> = seeds.iter().map(|s| s.as_slice()).collect();
    Pubkey::create_program_address(&slices, &Pubkey::new_from_array(*program_id)).ok().map(
        |k| k.to_bytes(),
    )
}

/// Relies on `Pubkey::try_find_program_address`: it tries the salts from 255
/// down to 1 and returns the first one for which `create_program_address`
/// succeeds, with the address; `None` when none does.
#[verifier::external_body]
fn try_find_program_address(seeds: &Vec<Vec<u8>>, program_id: &Key) -> (r: Option<(Key, u8)>)
    ensures
        match r {
            Some((k, bump)) => {
                &&& 1 <= bump
                &&& program_address(with_bump(seeds_view(seeds@), bump), program_id@) == Some(k@)
                &&& forall|b: u8|
                    bump < b ==> (#[trigger] program_address(
                        with_bump(seeds_view(seeds@), b),
                        program_id@,
                    )) is None
            },
            None => forall|b: u8|
                1 <= b ==> (#[trigger] program_address(
                    with_bump(seeds_view(seeds@), b),
                    program_id@,
                )) is None,
        },
{
    let slices: Vec<&[u8]> = seeds.iter().map(|s| s.as_slice()).collect();
    Pubkey::try_find_program_address(&slices, &Pubkey::new_from_array(*program_id)).map(
        |(k, bump)| (k.to_bytes(), bump),
    )
}

/// Whether `bump` is the canonical salt of `seeds`: the largest one that
/// derives an address.
pub open spec fn canonical_bump(seeds: Seq<Seq<u8>>, program_id: Seq<u8>, bump: u8) -> bool {
    &&& 1 <= bump
    &&& program_address(with_bump(seeds, bump), program_id) is Some
    &&& forall|b: u8| bump < b ==> (#[trigger] program_address(with_bump(seeds, b), program_id)) is None
}

/// Derives the address of `seeds` with their canonical salt, and that salt;
/// `None` where no salt from 255 down to 1 derives an address.
pub fn derive_address(seeds: &Vec<Vec<u8>>, program_id: &Key) -> (r: Option<(Key, u8)>)
    ensures
        r matches Some((k, bump)) ==> canonical_bump(seeds_view(seeds@), program_id@, bump)
            && derives(seeds_view(seeds@), bump, program_id@, k@),
        r is None ==> forall|b: u8|
            1 <= b ==> (#[trigger] program_address(with_bump(seeds_view(seeds@), b), program_id@))
                is None,
{
    try_find_program_address(seeds, program_id)
}

/// Whether the seeds with the salt reproduce `expected` for the program.
pub open spec fn derives(seeds: Seq<Seq<u8>>, bump: u8, program_id: Seq<u8>, expected: Seq<u8>) -> bool {
    program_address(with_bump(seeds, bump), program_id) == Some(expected)
}

/// Re-deriving is deterministic: the same seeds and salt reproduce one
/// address and no other, and the same seeds have at most one canonical salt.
pub proof fn lemma_rederivation_stable(
    seeds: Seq<Seq<u8>>,
    program_id: Seq<u8>,
    bump: u8,
    other_bump: u8,
    a: Seq<u8>,
    b: Seq<u8>,
)
    ensures
        derives(seeds, bump, program_id, a) && derives(seeds, bump, program_id, b) ==> a == b,
        program_address(with_bump(seeds, bump), program_id) == Some(a) ==> derives(
            seeds,
            bump,
            program_id,
            a,
        ),
        canonical_bump(seeds, program_id, bump) && canonical_bump(seeds, program_id, other_bump)
            ==> bump == other_bump,
{
    if canonical_bump(seeds, program_id, bump) && canonical_bump(seeds, program_id, other_bump) {
        if bump < other_bump {
            assert(program_address(with_bump(seeds, other_bump), program_id) is None);
        } else if other_bump < bump {
            assert(program_address(with_bump(seeds, bump), program_id) is None);
        }
    }
}

/// Compares a derived address, if any, with the expected one.
pub fn check_address(derived: Option<Key>, expected: &Key) -> (r: Result<(), PayStreamError>)
    ensures
        r is Ok <==> (derived matches Some(k) && k@ == expected@),
        r is Err ==> r == Err::<(), PayStreamError>(PayStreamError::AddressMismatch),
{
    match derived {
        Some(k) => {
            if keys_equal(&k, expected) {
                Ok(())
            } else {
                Err(PayStreamError::AddressMismatch)
            }
        },
        None => Err(PayStreamError::AddressMismatch),
    }
}

/// Appends the salt to a copy of the seeds.
pub fn seeds_with_bump(seeds: &Vec<Vec<u8>>, bump: u8) -> (r: Vec<Vec<u8>>)
    ensures
        seeds_view(r@) == with_bump(seeds_view(seeds@), bump),
{
    let mut r = seeds.clone();
    let mut b: Vec<u8> = Vec::new();
    b.push(bump);
    r.push(b);
    proof {
        assert(seeds_view(r@) =~= with_bump(seeds_view(seeds@), bump));
    }
    r
}

/// Re-derives an address from the seeds and the salt, and accepts it only
/// where it equals `expected`.
pub fn verify_derivation(seeds: &Vec<Vec<u8>>, bump: u8, expected: &Key, program_id: &Key) -> (r:
    Result<(), PayStreamError>)
    ensures
        r is Ok <==> derives(seeds_view(seeds@), bump, program_id@, expected@),
        r is Err ==> r == Err::<(), PayStreamError>(PayStreamError::AddressMismatch),
{
    let full = seeds_with_bump(seeds, bump);
    let derived = create_program_address(&full, program_id);
    check_address(derived, expected)
}

/// Finds the canonical salt of `seeds` and accepts it only where the address
/// it derives equals `expected`.
pub fn find_derivation(seeds: &Vec<Vec<u8>>, expected: &Key, program_id: &Key) -> (r: Result<
    u8,
    PayStreamError,
>)
    ensures
        match r {
            Ok(bump) => canonical_bump(seeds_view(seeds@), program_id@, bump) && derives(
                seeds_view(seeds@),
                bump,
                program_id@,
                expected@,
            ),
            Err(e) => e == PayStreamError::AddressMismatch && forall|b: u8|
                #[trigger] canonical_bump(seeds_view(seeds@), program_id@, b) ==> !derives(
                    seeds_view(seeds@),
                    b,
                    program_id@,
                    expected@,
                ),
        },
{
    match try_find_program_address(seeds, program_id) {
        Some((k, bump)) => {
            if keys_equal(&k, expected) {
                Ok(bump)
            } else {
                proof {
                    assert forall|b: u8|
                        #[trigger] canonical_bump(seeds_view(seeds@), program_id@, b) implies !derives(
                            seeds_view(seeds@),
                            b,
                            program_id@,
                            expected@,
                        ) by {
                        if b != bump {
                            if b < bump {
                                assert(program_address(with_bump(seeds_view(seeds@), bump), program_id@) is None);
                            } else {
                                assert(program_address(with_bump(seeds_view(seeds@), b), program_id@) is None);
                            }
                        }
                    }
                }
                Err(PayStreamError::AddressMismatch)
            }
        },
        None => {
            proof {
                assert forall|b: u8|
                    #[trigger] canonical_bump(seeds_view(seeds@), program_id@, b) implies !derives(
                        seeds_view(seeds@),
                        b,
                        program_id@,
                        expected@,
                    ) by {
                    assert(program_address(with_bump(seeds_view(seeds@), b), program_id@) is None);
                }
            }
            Err(PayStreamError::AddressMismatch)
        },
    }
}


/// The capability to authorise a transfer out of a custody account as its
/// derived address. It is made only by `authorize_custody`, after the seeds and
/// the salt have reproduced that address.
pub struct CustodySigner {
    seeds: Vec<Vec<u8>>,
    address: Key,
}

impl CustodySigner {
    /// The seeds, salt included, that the ledger re-derives the address from.
    pub closed spec fn signer_seeds(&self) -> Seq<Seq<u8>> {
        seeds_view(self.seeds@)
    }

    /// The derived address that this capability signs as.
    pub closed spec fn signer_address(&self) -> Seq<u8> {
        self.address@
    }

    /// Returns the seeds, salt included.
    pub fn seeds(&self) -> (r: &Vec<Vec<u8>>)
        ensures
            seeds_view(r@) == self.signer_seeds(),
    {
        &self.seeds
    }

    /// Returns the derived address.
    pub fn address(&self) -> (r: Key)
        ensures
            r@ == self.signer_address(),
    {
        self.address
    }
}

/// Grants the capability to sign as `expected` where the seeds and the salt
/// reproduce it for the program; fails with `AddressMismatch` otherwise.
pub fn authorize_custody(seeds: &Vec<Vec<u8>>, bump: u8, expected: &Key, program_id: &Key) -> (r:
    Result<CustodySigner, PayStreamError>)
    ensures
        r is Ok <==> derives(seeds_view(seeds@), bump, program_id@, expected@),
        r matches Ok(s) ==> s.signer_seeds() == with_bump(seeds_view(seeds@), bump)
            && s.signer_address() == expected@,
        r matches Err(e) ==> e == PayStreamError::AddressMismatch,
{
    verify_derivation(seeds, bump, expected, program_id)?;
    Ok(CustodySigner { seeds: seeds_with_bump(seeds, bump), address: *expected })
}

} // verus!

use vstd::prelude::*;
use crate::address::{
    Key, CustodySigner, authorize_custody, canonical_bump, derives, find_derivation, seeds_view,
    bounty_seed_list, bounty_seeds, bounty_vault_seed_list, bounty_vault_seeds,
    session_seed_list, session_seeds, vault_seed_list, vault_seeds, verify_derivation, with_bump,
};
use crate::bounty::{BountyPool, claim_outcome, reveal_secret, sha256_of};
use crate::error::PayStreamError;
use crate::session::{Settlement, StreamSession, record_tick, settle};

verus! {

/// An order to the token ledger to move `amount` between two token accounts.
#[derive(Debug, Clone, Copy)]
pub struct TokenTransfer {
    pub from: Key,
    pub to: Key,
    pub amount: u64,
}

/// Accounts that `initialize_stream` names.
#[derive(Debug, Clone, Copy)]
pub struct InitializeStream {
    pub program_id: Key,
    /// Address of the session record to create.
    pub session: Key,
    /// Address of the custody account to create.
    pub vault: Key,
    /// The signer who funds the session.
    pub payer: Key,
    pub host: Key,
    /// The payer's token account and its balance.
    pub payer_token: Key,
    pub payer_balance: u64,
}

/// Accounts that `tick` names.
#[derive(Debug, Clone, Copy)]
pub struct Tick {
    pub program_id: Key,
    pub session: Key,
}

/// Accounts that `close_stream` names.
#[derive(Debug, Clone, Copy)]
pub struct CloseStream {
    pub program_id: Key,
    pub session: Key,
    /// The session's custody account and its live balance.
    pub vault: Key,
    pub vault_balance: u64,
    pub host_token: Key,
    /// The signer, who must be the session's payer.
    pub payer: Key,
    pub payer_token: Key,
}

/// Accounts that `initialize_bounty` names.
#[derive(Debug, Clone, Copy)]
pub struct InitializeBounty {
    pub program_id: Key,
    /// Address of the pool record to create.
    pub bounty: Key,
    /// Address of the custody account to create.
    pub bounty_vault: Key,
    /// The signer who funds the pool.
    pub authority: Key,
    /// The authority's token account and its balance.
    pub authority_token: Key,
    pub authority_balance: u64,
}

/// Accounts that `claim_bounty` names.
#[derive(Debug, Clone, Copy)]
pub struct ClaimBounty {
    pub program_id: Key,
    pub bounty: Key,
    /// The pool's custody account and its live balance.
    pub bounty_vault: Key,
    pub vault_balance: u64,
    /// Where the payout goes.
    pub claimer_token: Key,
}

/// Accounts that `delegate` names.
#[derive(Debug, Clone, Copy)]
pub struct DelegateInput {
    pub program_id: Key,
    /// The signer, who must be the session's payer.
    pub payer: Key,
    /// Address of the session record to hand off.
    pub pda: Key,
    pub host: Key,
}

/// Whether `addr` is the address that `seeds` derive with their canonical salt.
pub open spec fn located(seeds: Seq<Seq<u8>>, program_id: Seq<u8>, addr: Seq<u8>) -> bool {
    exists|b: u8| #[trigger] canonical_bump(seeds, program_id, b) && derives(seeds, b, program_id, addr)
}

/// Finds the canonical salt under which `seeds` derive `addr`.
fn locate(seeds: &Vec<Vec<u8>>, addr: &Key, program_id: &Key) -> (r: Result<u8, PayStreamError>)
    ensures
        r is Ok <==> located(seeds_view(seeds@), program_id@, addr@),
        r matches Ok(b) ==> canonical_bump(seeds_view(seeds@), program_id@, b) && derives(
            seeds_view(seeds@),
            b,
            program_id@,
            addr@,
        ),
        r is Err ==> r == Err::<u8, PayStreamError>(PayStreamError::AddressMismatch),
{
    find_derivation(seeds, addr, program_id)
}

/// Creates a session at its derived address with the whole amount deposited
/// and nothing accrued, and orders the deposit from the payer into custody.
pub fn initialize_stream(
    ctx: &InitializeStream,
    slot: &mut Option<StreamSession>,
    rate: u64,
    amount: u64,
) -> (r: Result<TokenTransfer, PayStreamError>)
    ensures
        ({
            let seeds = session_seed_list(ctx.payer@, ctx.host@);
            let pid = ctx.program_id@;
            &&& r is Ok <==> located(seeds, pid, ctx.session@) && located(
                vault_seed_list(ctx.session@),
                pid,
                ctx.vault@,
            ) && *old(slot) is None && amount <= ctx.payer_balance
            &&& !located(seeds, pid, ctx.session@) ==> r == Err::<TokenTransfer, PayStreamError>(
                PayStreamError::AddressMismatch,
            )
            &&& !located(vault_seed_list(ctx.session@), pid, ctx.vault@) ==> r == Err::<
                TokenTransfer,
                PayStreamError,
            >(PayStreamError::AddressMismatch)
            &&& located(seeds, pid, ctx.session@) && located(vault_seed_list(ctx.session@), pid, ctx.vault@)
                && *old(slot) is Some ==> r == Err::<TokenTransfer, PayStreamError>(
                PayStreamError::AccountAlreadyInUse,
            )
            &&& located(seeds, pid, ctx.session@) && located(vault_seed_list(ctx.session@), pid, ctx.vault@)
                && *old(slot) is None && ctx.payer_balance < amount ==> r == Err::<
                TokenTransfer,
                PayStreamError,
            >(PayStreamError::InsufficientBalance)
            &&& r is Ok ==> r->Ok_0 == (TokenTransfer { from: ctx.payer_token, to: ctx.vault, amount })
                && *final(slot) is Some
            &&& r is Ok ==> ({
                let s = final(slot)->0;
                &&& s == StreamSession::fresh(ctx.payer, ctx.host, rate, amount, s.bump)
                &&& canonical_bump(seeds, pid, s.bump)
                &&& derives(seeds, s.bump, pid, ctx.session@)
            })
            &&& r is Err ==> *final(slot) == *old(slot)
        }),
{
    let seeds = session_seeds(&ctx.payer, &ctx.host);
    let bump = locate(&seeds, &ctx.session, &ctx.program_id)?;
    let vault_seeds = vault_seeds(&ctx.session);
    locate(&vault_seeds, &ctx.vault, &ctx.program_id)?;
    if slot.is_some() {
        return Err(PayStreamError::AccountAlreadyInUse);
    }
    if ctx.payer_balance < amount {
        return Err(PayStreamError::InsufficientBalance);
    }
    *slot = Some(StreamSession::new(ctx.payer, ctx.host, rate, amount, bump));
    Ok(TokenTransfer { from: ctx.payer_token, to: ctx.vault, amount })
}

/// Whether the session's own parties and salt re-derive `addr`.
pub open spec fn session_at(s: StreamSession, program_id: Seq<u8>, addr: Seq<u8>) -> bool {
    derives(session_seed_list(s.payer@, s.host@), s.bump, program_id, addr)
}

/// Accrues one rate to the host of the session stored at the named address.
pub fn tick(ctx: &Tick, slot: &mut Option<StreamSession>) -> (r: Result<(), PayStreamError>)
    ensures
        *old(slot) is None ==> r == Err::<(), PayStreamError>(PayStreamError::AccountNotInitialized),
        *old(slot) matches Some(s) && !session_at(s, ctx.program_id@, ctx.session@) ==> r == Err::<
            (),
            PayStreamError,
        >(PayStreamError::AddressMismatch),
        *old(slot) matches Some(s) && session_at(s, ctx.program_id@, ctx.session@) && !s.is_active
            ==> r == Err::<(), PayStreamError>(PayStreamError::StreamInactive),
        *old(slot) matches Some(s) && session_at(s, ctx.program_id@, ctx.session@) && s.is_active
            && !s.can_tick() ==> r == Err::<(), PayStreamError>(PayStreamError::InsufficientFunds),
        r is Ok <==> (*old(slot) matches Some(s) && session_at(s, ctx.program_id@, ctx.session@)
            && s.can_tick()),
        r is Ok ==> *final(slot) == Some(old(slot)->0.ticked()),
        r is Err ==> *final(slot) == *old(slot),
{
    match slot {
        None => Err(PayStreamError::AccountNotInitialized),
        Some(s) => {
            let seeds = session_seeds(&s.payer, &s.host);
            verify_derivation(&seeds, s.bump, &ctx.session, &ctx.program_id)?;
            record_tick(s)
        },
    }
}

/// The orders that pay out a settlement from a custody account: nothing is
/// ordered for a zero amount.
pub open spec fn payout_orders(vault: Key, host_token: Key, payer_token: Key, p: Settlement) -> Seq<
    TokenTransfer,
> {
    let to_host = if p.to_host > 0 {
        seq![TokenTransfer { from: vault, to: host_token, amount: p.to_host }]
    } else {
        Seq::empty()
    };
    let to_payer = if p.to_payer > 0 {
        seq![TokenTransfer { from: vault, to: payer_token, amount: p.to_payer }]
    } else {
        Seq::empty()
    };
    to_host + to_payer
}

/// Settles and erases the session stored at the named address: the host is
/// paid what accrued, the payer the rest of the custodied balance, both out of
/// custody under the session's derived address.
pub fn close_stream(ctx: &CloseStream, slot: &mut Option<StreamSession>) -> (r: Result<
    (Vec<TokenTransfer>, CustodySigner),
    PayStreamError,
>)
    ensures
        *old(slot) is None ==> (r is Err && r->Err_0 == PayStreamError::AccountNotInitialized),
        *old(slot) matches Some(s) && !derives(
            session_seed_list(ctx.payer@, s.host@),
            s.bump,
            ctx.program_id@,
            ctx.session@,
        ) ==> (r is Err && r->Err_0 == PayStreamError::AddressMismatch),
        *old(slot) is Some && !located(vault_seed_list(ctx.session@), ctx.program_id@, ctx.vault@)
            ==> (r is Err && r->Err_0 == PayStreamError::AddressMismatch),
        *old(slot) is Some ==> ({
            let s = old(slot)->0;
            let accounts_ok = derives(
                session_seed_list(ctx.payer@, s.host@),
                s.bump,
                ctx.program_id@,
                ctx.session@,
            ) && located(vault_seed_list(ctx.session@), ctx.program_id@, ctx.vault@);
            &&& accounts_ok && !s.is_active ==> (r is Err && r->Err_0
                == PayStreamError::StreamInactive)
            &&& accounts_ok && s.is_active && ctx.vault_balance < s.accumulated_amount ==> (r is Err
                && r->Err_0 == PayStreamError::InsufficientBalance)
        }),
        r is Ok <==> (*old(slot) matches Some(s) && derives(
            session_seed_list(ctx.payer@, s.host@),
            s.bump,
            ctx.program_id@,
            ctx.session@,
        ) && located(vault_seed_list(ctx.session@), ctx.program_id@, ctx.vault@) && s.is_active
            && s.accumulated_amount <= ctx.vault_balance),
        r is Ok ==> ({
            let s = old(slot)->0;
            let (orders, signer) = r->Ok_0;
            let p = Settlement {
                to_host: s.accumulated_amount,
                to_payer: (ctx.vault_balance - s.accumulated_amount) as u64,
            };
            &&& *final(slot) is None
            &&& orders@ == payout_orders(ctx.vault, ctx.host_token, ctx.payer_token, p)
            &&& p.to_host + p.to_payer == ctx.vault_balance
            &&& signer.signer_seeds() == with_bump(session_seed_list(ctx.payer@, s.host@), s.bump)
            &&& signer.signer_address() == ctx.session@
        }),
        r is Err ==> *final(slot) == *old(slot),
{
    match slot {
        None => Err(PayStreamError::AccountNotInitialized),
        Some(s) => {
            let seeds = session_seeds(&ctx.payer, &s.host);
            let signer = authorize_custody(&seeds, s.bump, &ctx.session, &ctx.program_id)?;
            let vault_seeds = vault_seeds(&ctx.session);
            locate(&vault_seeds, &ctx.vault, &ctx.program_id)?;
            let p = settle(s, ctx.vault_balance)?;
            let mut orders: Vec<TokenTransfer> = Vec::new();
            if p.to_host > 0 {
                orders.push(TokenTransfer { from: ctx.vault, to: ctx.host_token, amount: p.to_host });
            }
            if p.to_payer > 0 {
                orders.push(
                    TokenTransfer { from: ctx.vault, to: ctx.payer_token, amount: p.to_payer },
                );
            }
            assert(orders@ =~= payout_orders(ctx.vault, ctx.host_token, ctx.payer_token, p));
            *slot = None;
            Ok((orders, signer))
        },
    }
}

/// Creates a bounty pool at its derived address with an immutable commitment,
/// and orders the deposit from the authority into custody.
pub fn initialize_bounty(
    ctx: &InitializeBounty,
    slot: &mut Option<BountyPool>,
    target_hash: [u8; 32],
    amount: u64,
) -> (r: Result<TokenTransfer, PayStreamError>)
    ensures
        ({
            let seeds = bounty_seed_list(ctx.authority@);
            let vseeds = bounty_vault_seed_list(ctx.bounty@);
            let pid = ctx.program_id@;
            &&& r is Ok <==> located(seeds, pid, ctx.bounty@) && located(vseeds, pid, ctx.bounty_vault@)
                && *old(slot) is None && amount <= ctx.authority_balance
            &&& !located(seeds, pid, ctx.bounty@) ==> r == Err::<TokenTransfer, PayStreamError>(
                PayStreamError::AddressMismatch,
            )
            &&& !located(vseeds, pid, ctx.bounty_vault@) ==> r == Err::<TokenTransfer, PayStreamError>(
                PayStreamError::AddressMismatch,
            )
            &&& located(seeds, pid, ctx.bounty@) && located(vseeds, pid, ctx.bounty_vault@)
                && *old(slot) is Some ==> r == Err::<TokenTransfer, PayStreamError>(
                PayStreamError::AccountAlreadyInUse,
            )
            &&& located(seeds, pid, ctx.bounty@) && located(vseeds, pid, ctx.bounty_vault@)
                && *old(slot) is None && ctx.authority_balance < amount ==> r == Err::<
                TokenTransfer,
                PayStreamError,
            >(PayStreamError::InsufficientBalance)
            &&& r is Ok ==> r->Ok_0 == (TokenTransfer {
                from: ctx.authority_token,
                to: ctx.bounty_vault,
                amount,
            }) && *final(slot) is Some
            &&& r is Ok ==> ({
                let p = final(slot)->0;
                &&& p.authority == ctx.authority
                &&& p.target_hash == target_hash
                &&& canonical_bump(seeds, pid, p.bump)
                &&& derives(seeds, p.bump, pid, ctx.bounty@)
            })
            &&& r is Err ==> *final(slot) == *old(slot)
        }),
{
    let seeds = bounty_seeds(&ctx.authority);
    let bump = locate(&seeds, &ctx.bounty, &ctx.program_id)?;
    let vault_seeds = bounty_vault_seeds(&ctx.bounty);
    locate(&vault_seeds, &ctx.bounty_vault, &ctx.program_id)?;
    if slot.is_some() {
        return Err(PayStreamError::AccountAlreadyInUse);
    }
    if ctx.authority_balance < amount {
        return Err(PayStreamError::InsufficientBalance);
    }
    *slot = Some(BountyPool { authority: ctx.authority, target_hash, bump });
    Ok(TokenTransfer { from: ctx.authority_token, to: ctx.bounty_vault, amount })
}

/// Whether the pool's own authority and salt re-derive `addr`.
pub open spec fn pool_at(p: BountyPool, program_id: Seq<u8>, addr: Seq<u8>) -> bool {
    derives(bounty_seed_list(p.authority@), p.bump, program_id, addr)
}

/// The amount that a claim's transfer order moves, or its error.
pub open spec fn paid_amount(r: Result<(TokenTransfer, CustodySigner), PayStreamError>) -> Result<
    u64,
    PayStreamError,
> {
    match r {
        Ok(o) => Ok(o.0.amount),
        Err(e) => Err(e),
    }
}

/// Pays the whole custodied balance of the pool stored at the named address
/// to the claimer, and erases the pool, where the secret hashes to its
/// commitment.
pub fn claim_bounty(ctx: &ClaimBounty, slot: &mut Option<BountyPool>, secret: &Vec<u8>) -> (r:
    Result<(TokenTransfer, CustodySigner), PayStreamError>)
    ensures
        *old(slot) is None ==> (r is Err && r->Err_0 == PayStreamError::AccountNotInitialized),
        *old(slot) matches Some(p) && !pool_at(p, ctx.program_id@, ctx.bounty@) ==> (r is Err
            && r->Err_0 == PayStreamError::AddressMismatch),
        *old(slot) is Some && !located(
            bounty_vault_seed_list(ctx.bounty@),
            ctx.program_id@,
            ctx.bounty_vault@,
        ) ==> (r is Err && r->Err_0 == PayStreamError::AddressMismatch),
        *old(slot) matches Some(p) && pool_at(p, ctx.program_id@, ctx.bounty@) && located(
            bounty_vault_seed_list(ctx.bounty@),
            ctx.program_id@,
            ctx.bounty_vault@,
        ) ==> ((*final(slot), paid_amount(r)) == claim_outcome(
            *old(slot),
            sha256_of(secret@),
            ctx.vault_balance,
        )),
        r is Ok <==> (*old(slot) matches Some(p) && pool_at(p, ctx.program_id@, ctx.bounty@)
            && located(bounty_vault_seed_list(ctx.bounty@), ctx.program_id@, ctx.bounty_vault@)
            && sha256_of(secret@) == p.target_hash@),
        r is Ok ==> ({
            let p = old(slot)->0;
            let (order, signer) = r->Ok_0;
            &&& *final(slot) is None
            &&& order == (TokenTransfer {
                from: ctx.bounty_vault,
                to: ctx.claimer_token,
                amount: ctx.vault_balance,
            })
            &&& signer.signer_seeds() == with_bump(bounty_seed_list(p.authority@), p.bump)
            &&& signer.signer_address() == ctx.bounty@
        }),
        r is Err ==> *final(slot) == *old(slot),
{
    let (seeds, bump) = match slot {
        None => {
            return Err(PayStreamError::AccountNotInitialized);
        },
        Some(p) => (bounty_seeds(&p.authority), p.bump),
    };
    let signer = authorize_custody(&seeds, bump, &ctx.bounty, &ctx.program_id)?;
    let vault_seeds = bounty_vault_seeds(&ctx.bounty);
    locate(&vault_seeds, &ctx.bounty_vault, &ctx.program_id)?;
    let amount = reveal_secret(slot, secret, ctx.vault_balance)?;
    Ok((TokenTransfer { from: ctx.bounty_vault, to: ctx.claimer_token, amount }, signer))
}

/// Hands the session's update authority to the secondary execution context:
/// returns the base seeds, without the salt, under which that context
/// re-derives the session's address. No funds move.
pub fn delegate(ctx: &DelegateInput, slot: &Option<StreamSession>) -> (r: Result<
    Vec<Vec<u8>>,
    PayStreamError,
>)
    ensures
        *slot is None ==> (r is Err && r->Err_0 == PayStreamError::AccountNotInitialized),
        r is Ok <==> (*slot matches Some(s) && derives(
            session_seed_list(ctx.payer@, ctx.host@),
            s.bump,
            ctx.program_id@,
            ctx.pda@,
        )),
        *slot is Some && r is Err ==> r->Err_0 == PayStreamError::AddressMismatch,
        r matches Ok(seeds) ==> seeds_view(seeds@) == session_seed_list(ctx.payer@, ctx.host@),
{
    match slot {
        None => Err(PayStreamError::AccountNotInitialized),
        Some(s) => {
            let seeds = session_seeds(&ctx.payer, &ctx.host);
            verify_derivation(&seeds, s.bump, &ctx.pda, &ctx.program_id)?;
            Ok(seeds)
        },
    }
}

} // verus!

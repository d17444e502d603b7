use vstd::prelude::*;
use crate::address::Key;
use crate::error::PayStreamError;

verus! {

/// One payer-to-host streaming relationship, in its accounted form.
#[derive(Debug, Clone, Copy)]
pub struct StreamSession {
    pub payer: Key,
    pub host: Key,
    /// Amount accrued to the host on each tick.
    pub rate: u64,
    /// Once false, no further tick succeeds.
    pub is_active: bool,
    /// Salt of the session's derived address.
    pub bump: u8,
    /// Amount the payer moved into custody.
    pub total_deposited: u64,
    /// Amount accrued to the host so far.
    pub accumulated_amount: u64,
}

/// The two payouts that close a session.
#[derive(Debug, Clone, Copy, PartialEq, Eq, Structural)]
pub struct Settlement {
    pub to_host: u64,
    pub to_payer: u64,
}

impl StreamSession {
    /// The accounting invariant: the host is never owed more than was deposited.
    pub open spec fn wf(self) -> bool {
        self.accumulated_amount <= self.total_deposited
    }

    /// Whether one more tick fits under the deposit.
    pub open spec fn can_tick(self) -> bool {
        self.is_active && self.accumulated_amount + self.rate <= self.total_deposited
    }

    /// The session after one tick.
    pub open spec fn ticked(self) -> StreamSession {
        StreamSession { accumulated_amount: (self.accumulated_amount + self.rate) as u64, ..self }
    }

    /// A freshly created session.
    pub open spec fn fresh(payer: Key, host: Key, rate: u64, amount: u64, bump: u8) -> StreamSession {
        StreamSession {
            payer,
            host,
            rate,
            is_active: true,
            bump,
            total_deposited: amount,
            accumulated_amount: 0,
        }
    }

    /// Creates an active session with the whole deposit still unaccrued.
    pub fn new(payer: Key, host: Key, rate: u64, amount: u64, bump: u8) -> (r: StreamSession)
        ensures
            r == StreamSession::fresh(payer, host, rate, amount, bump),
            r.wf(),
    {
        StreamSession {
            payer,
            host,
            rate,
            is_active: true,
            bump,
            total_deposited: amount,
            accumulated_amount: 0,
        }
    }
}

/// The session after `n` ticks, or `None` where one of them fails.
pub open spec fn run_ticks(s: StreamSession, n: nat) -> Option<StreamSession>
    decreases n,
{
    if n == 0 {
        Some(s)
    } else {
        match run_ticks(s, (n - 1) as nat) {
            Some(t) => if t.can_tick() {
                Some(t.ticked())
            } else {
                None
            },
            None => None,
        }
    }
}

/// Accrues one rate to the host, in the accounting only: no funds move.
pub fn record_tick(session: &mut StreamSession) -> (r: Result<(), PayStreamError>)
    ensures
        !old(session).is_active ==> r == Err::<(), PayStreamError>(PayStreamError::StreamInactive),
        old(session).is_active && !old(session).can_tick() ==> r == Err::<(), PayStreamError>(
            PayStreamError::InsufficientFunds,
        ),
        r is Ok <==> old(session).can_tick(),
        r is Ok ==> *final(session) == old(session).ticked(),
        r is Err ==> *final(session) == *old(session),
        r is Ok ==> final(session).wf(),
{
    if !session.is_active {
        return Err(PayStreamError::StreamInactive);
    }
    if session.accumulated_amount > session.total_deposited || session.rate
        > session.total_deposited - session.accumulated_amount {
        return Err(PayStreamError::InsufficientFunds);
    }
    session.accumulated_amount = session.accumulated_amount + session.rate;
    Ok(())
}

/// Splits the custodied balance between host and payer: the host gets what
/// accrued, the payer the rest.
pub fn settle(session: &StreamSession, vault_balance: u64) -> (r: Result<Settlement, PayStreamError>)
    ensures
        !session.is_active ==> r == Err::<Settlement, PayStreamError>(
            PayStreamError::StreamInactive,
        ),
        session.is_active && vault_balance < session.accumulated_amount ==> r == Err::<
            Settlement,
            PayStreamError,
        >(PayStreamError::InsufficientBalance),
        r is Ok <==> session.is_active && session.accumulated_amount <= vault_balance,
        r matches Ok(p) ==> p.to_host == session.accumulated_amount && p.to_payer == vault_balance
            - session.accumulated_amount && p.to_host + p.to_payer == vault_balance,
{
    if !session.is_active {
        return Err(PayStreamError::StreamInactive);
    }
    if vault_balance < session.accumulated_amount {
        return Err(PayStreamError::InsufficientBalance);
    }
    Ok(
        Settlement {
            to_host: session.accumulated_amount,
            to_payer: vault_balance - session.accumulated_amount,
        },
    )
}

/// Every sequence of successful ticks keeps the accrued amount within the
/// deposit, and leaves the deposit, rate and parties as they were.
pub proof fn lemma_ticks_keep_within_deposit(s: StreamSession, n: nat)
    requires
        s.wf(),
    ensures
        run_ticks(s, n) matches Some(t) ==> t.wf() && t.total_deposited == s.total_deposited
            && t.rate == s.rate && t.payer == s.payer && t.host == s.host,
    decreases n,
{
    if n > 0 {
        lemma_ticks_keep_within_deposit(s, (n - 1) as nat);
    }
}

/// A session with `rate` and deposit `k * rate` takes exactly `k` ticks and
/// refuses the next one.
pub proof fn lemma_ticks_exhaust_deposit(s: StreamSession, k: nat, n: nat)
    requires
        s.is_active,
        s.accumulated_amount == 0,
        s.rate > 0,
        s.total_deposited == k * s.rate,
        n <= k,
    ensures
        run_ticks(s, n) matches Some(t) && t.accumulated_amount == n * s.rate && t.is_active
            && t.rate == s.rate && t.total_deposited == s.total_deposited,
        n == k ==> !run_ticks(s, n)->0.can_tick(),
    decreases n,
{
    if n > 0 {
        lemma_ticks_exhaust_deposit(s, k, (n - 1) as nat);
        assert((n - 1) * s.rate + s.rate == n * s.rate) by (nonlinear_arith);
        assert(n * s.rate <= k * s.rate) by (nonlinear_arith)
            requires n <= k;
    }
    if n == k {
        assert(k * s.rate + s.rate > k * s.rate);
    }
}

} // verus!

use anchor_lang::solana_program::hash::hash;
use anchor_lang::solana_program::pubkey::Pubkey;
use paystream::address::{
    check_address, derive_address, keys_equal, session_seeds, verify_derivation,
};
use paystream::bounty::{release_bounty, reveal_secret, BountyPool};
use paystream::error::PayStreamError;
use paystream::instructions::{
    claim_bounty, close_stream, delegate, initialize_bounty, initialize_stream, tick, ClaimBounty,
    CloseStream, DelegateInput, InitializeBounty, InitializeStream, Tick,
};
use paystream::session::{record_tick, settle, Settlement, StreamSession};

fn key(b: u8) -> [u8; 32] {
    [b; 32]
}

fn program() -> [u8; 32] {
    key(7)
}

fn pda(seeds: &[&[u8]]) -> ([u8; 32], u8) {
    let (k, bump) = Pubkey::find_program_address(seeds, &Pubkey::new_from_array(program()));
    (k.to_bytes(), bump)
}

fn stream_ctx(payer: [u8; 32], host: [u8; 32], balance: u64) -> InitializeStream {
    let (session, _) = pda(&[b"session_v1", &payer, &host]);
    let (vault, _) = pda(&[b"vault", &session]);
    InitializeStream {
        program_id: program(),
        session,
        vault,
        payer,
        host,
        payer_token: key(30),
        payer_balance: balance,
    }
}

fn close_ctx(init: &InitializeStream, vault_balance: u64) -> CloseStream {
    CloseStream {
        program_id: program(),
        session: init.session,
        vault: init.vault,
        vault_balance,
        host_token: key(40),
        payer: init.payer,
        payer_token: init.payer_token,
    }
}

fn bounty_ctx(authority: [u8; 32], balance: u64) -> InitializeBounty {
    let (bounty, _) = pda(&[b"bounty", &authority]);
    let (bounty_vault, _) = pda(&[b"bounty_vault", &bounty]);
    InitializeBounty {
        program_id: program(),
        bounty,
        bounty_vault,
        authority,
        authority_token: key(50),
        authority_balance: balance,
    }
}

fn claim_ctx(init: &InitializeBounty, vault_balance: u64) -> ClaimBounty {
    ClaimBounty {
        program_id: program(),
        bounty: init.bounty,
        bounty_vault: init.bounty_vault,
        vault_balance,
        claimer_token: key(60),
    }
}

#[test]
fn ten_ticks_exhaust_a_deposit_of_ten_rates() {
    let mut s = StreamSession::new(key(1), key(2), 10, 100, 255);
    for _ in 0..10 {
        assert_eq!(record_tick(&mut s), Ok(()));
    }
    assert_eq!(s.accumulated_amount, 100);
    assert_eq!(record_tick(&mut s), Err(PayStreamError::InsufficientFunds));
    assert_eq!(s.accumulated_amount, 100);
}

#[test]
fn ticks_through_the_instruction_stop_at_the_deposit() {
    let ctx = stream_ctx(key(1), key(2), 1_000);
    let mut slot = None;
    assert!(initialize_stream(&ctx, &mut slot, 10, 100).is_ok());
    let t = Tick { program_id: program(), session: ctx.session };
    for _ in 0..10 {
        assert_eq!(tick(&t, &mut slot), Ok(()));
    }
    assert_eq!(slot.unwrap().accumulated_amount, 100);
    assert_eq!(tick(&t, &mut slot), Err(PayStreamError::InsufficientFunds));
}

#[test]
fn accumulated_never_passes_deposit() {
    let mut s = StreamSession::new(key(1), key(2), 7, 30, 255);
    for _ in 0..10 {
        let _ = record_tick(&mut s);
        assert!(s.accumulated_amount <= s.total_deposited);
    }
    assert_eq!(s.accumulated_amount, 28);
}

#[test]
fn tick_overflow_is_insufficient_funds() {
    let mut s = StreamSession::new(key(1), key(2), u64::MAX, u64::MAX, 255);
    assert_eq!(record_tick(&mut s), Ok(()));
    assert_eq!(record_tick(&mut s), Err(PayStreamError::InsufficientFunds));
    let mut z = StreamSession::new(key(1), key(2), 0, 0, 255);
    assert_eq!(record_tick(&mut z), Ok(()));
    assert_eq!(z.accumulated_amount, 0);
}

#[test]
fn inactive_session_refuses_tick_and_settle() {
    let mut s = StreamSession::new(key(1), key(2), 10, 100, 255);
    s.is_active = false;
    assert_eq!(record_tick(&mut s), Err(PayStreamError::StreamInactive));
    assert_eq!(settle(&s, 100), Err(PayStreamError::StreamInactive));
}

#[test]
fn settle_splits_the_vault() {
    let mut s = StreamSession::new(key(1), key(2), 10, 100, 255);
    for _ in 0..3 {
        record_tick(&mut s).unwrap();
    }
    assert_eq!(settle(&s, 100), Ok(Settlement { to_host: 30, to_payer: 70 }));
    assert_eq!(settle(&s, 30), Ok(Settlement { to_host: 30, to_payer: 0 }));
    assert_eq!(settle(&s, 29), Err(PayStreamError::InsufficientBalance));
}

#[test]
fn immediate_close_refunds_everything() {
    let ctx = stream_ctx(key(3), key(4), 50);
    let mut slot = None;
    let deposit = initialize_stream(&ctx, &mut slot, 5, 50).unwrap();
    assert_eq!(deposit.amount, 50);
    assert_eq!(deposit.from, ctx.payer_token);
    assert_eq!(deposit.to, ctx.vault);
    let (orders, signer) = close_stream(&close_ctx(&ctx, 50), &mut slot).unwrap();
    assert!(slot.is_none());
    assert_eq!(orders.len(), 1);
    assert_eq!(orders[0].to, ctx.payer_token);
    assert_eq!(orders[0].from, ctx.vault);
    assert_eq!(orders[0].amount, 50);
    assert_eq!(signer.address(), ctx.session);
    assert_eq!(signer.seeds().len(), 4);
    assert_eq!(signer.seeds()[0], b"session_v1".to_vec());
}

#[test]
fn close_pays_host_then_payer() {
    let ctx = stream_ctx(key(3), key(4), 500);
    let mut slot = None;
    initialize_stream(&ctx, &mut slot, 25, 100).unwrap();
    let t = Tick { program_id: program(), session: ctx.session };
    tick(&t, &mut slot).unwrap();
    tick(&t, &mut slot).unwrap();
    let close = close_ctx(&ctx, 100);
    let (orders, _) = close_stream(&close, &mut slot).unwrap();
    assert_eq!(orders.len(), 2);
    assert_eq!(orders[0].to, close.host_token);
    assert_eq!(orders[0].amount, 50);
    assert_eq!(orders[1].to, close.payer_token);
    assert_eq!(orders[1].amount, 50);
    assert_eq!(orders[0].amount + orders[1].amount, 100);
}

#[test]
fn close_twice_fails() {
    let ctx = stream_ctx(key(3), key(4), 50);
    let mut slot = None;
    initialize_stream(&ctx, &mut slot, 5, 50).unwrap();
    assert!(close_stream(&close_ctx(&ctx, 50), &mut slot).is_ok());
    assert_eq!(
        close_stream(&close_ctx(&ctx, 50), &mut slot).err(),
        Some(PayStreamError::AccountNotInitialized)
    );
    let t = Tick { program_id: program(), session: ctx.session };
    assert_eq!(tick(&t, &mut slot), Err(PayStreamError::AccountNotInitialized));
}

#[test]
fn close_by_someone_else_is_refused() {
    let ctx = stream_ctx(key(3), key(4), 50);
    let mut slot = None;
    initialize_stream(&ctx, &mut slot, 5, 50).unwrap();
    let mut close = close_ctx(&ctx, 50);
    close.payer = key(9);
    assert_eq!(close_stream(&close, &mut slot).err(), Some(PayStreamError::AddressMismatch));
    assert!(slot.is_some());
    let mut close = close_ctx(&ctx, 50);
    close.vault = key(9);
    assert_eq!(close_stream(&close, &mut slot).err(), Some(PayStreamError::AddressMismatch));
}

#[test]
fn close_with_short_vault_is_refused() {
    let ctx = stream_ctx(key(3), key(4), 50);
    let mut slot = None;
    initialize_stream(&ctx, &mut slot, 5, 50).unwrap();
    let t = Tick { program_id: program(), session: ctx.session };
    tick(&t, &mut slot).unwrap();
    assert_eq!(
        close_stream(&close_ctx(&ctx, 4), &mut slot).err(),
        Some(PayStreamError::InsufficientBalance)
    );
    assert!(slot.is_some());
}

#[test]
fn initialize_stream_errors() {
    let ctx = stream_ctx(key(5), key(6), 10);
    let mut slot = None;
    assert_eq!(initialize_stream(&ctx, &mut slot, 1, 11).err(), Some(PayStreamError::InsufficientBalance));
    assert!(slot.is_none());
    let mut wrong = ctx;
    wrong.session = key(8);
    assert_eq!(initialize_stream(&wrong, &mut slot, 1, 5).err(), Some(PayStreamError::AddressMismatch));
    let mut wrong = ctx;
    wrong.vault = key(8);
    assert_eq!(initialize_stream(&wrong, &mut slot, 1, 5).err(), Some(PayStreamError::AddressMismatch));
    assert!(initialize_stream(&ctx, &mut slot, 1, 10).is_ok());
    let s = slot.unwrap();
    assert_eq!((s.rate, s.total_deposited, s.accumulated_amount, s.is_active), (1, 10, 0, true));
    assert_eq!(s.bump, pda(&[b"session_v1", &key(5), &key(6)]).1);
    assert_eq!(initialize_stream(&ctx, &mut slot, 1, 5).err(), Some(PayStreamError::AccountAlreadyInUse));
}

#[test]
fn tick_at_wrong_address_is_refused() {
    let ctx = stream_ctx(key(5), key(6), 10);
    let mut slot = None;
    initialize_stream(&ctx, &mut slot, 1, 10).unwrap();
    let t = Tick { program_id: program(), session: key(8) };
    assert_eq!(tick(&t, &mut slot), Err(PayStreamError::AddressMismatch));
    assert_eq!(slot.unwrap().accumulated_amount, 0);
}

#[test]
fn bounty_wrong_then_right_secret() {
    let ctx = bounty_ctx(key(11), 1_000);
    let mut slot = None;
    let target = hash(b"secretX").to_bytes();
    let deposit = initialize_bounty(&ctx, &mut slot, target, 500).unwrap();
    assert_eq!(deposit.amount, 500);
    assert_eq!(deposit.to, ctx.bounty_vault);
    let claim = claim_ctx(&ctx, 500);
    assert_eq!(
        claim_bounty(&claim, &mut slot, &b"wrong".to_vec()).err(),
        Some(PayStreamError::InvalidSecret)
    );
    assert!(slot.is_some());
    let (order, signer) = claim_bounty(&claim, &mut slot, &b"secretX".to_vec()).unwrap();
    assert_eq!(order.amount, 500);
    assert_eq!(order.from, ctx.bounty_vault);
    assert_eq!(order.to, claim.claimer_token);
    assert_eq!(signer.address(), ctx.bounty);
    assert!(slot.is_none());
}

#[test]
fn bounty_second_claim_fails() {
    let ctx = bounty_ctx(key(12), 100);
    let mut slot = None;
    initialize_bounty(&ctx, &mut slot, hash(b"s").to_bytes(), 100).unwrap();
    let claim = claim_ctx(&ctx, 100);
    assert!(claim_bounty(&claim, &mut slot, &b"s".to_vec()).is_ok());
    assert_eq!(
        claim_bounty(&claim, &mut slot, &b"s".to_vec()).err(),
        Some(PayStreamError::AccountNotInitialized)
    );
}

#[test]
fn bounty_pays_live_balance() {
    let ctx = bounty_ctx(key(13), 100);
    let mut slot = None;
    initialize_bounty(&ctx, &mut slot, hash(b"s").to_bytes(), 100).unwrap();
    let (order, _) = claim_bounty(&claim_ctx(&ctx, 130), &mut slot, &b"s".to_vec()).unwrap();
    assert_eq!(order.amount, 130);
}

#[test]
fn bounty_errors() {
    let ctx = bounty_ctx(key(14), 10);
    let mut slot = None;
    let target = hash(b"s").to_bytes();
    assert_eq!(initialize_bounty(&ctx, &mut slot, target, 11).err(), Some(PayStreamError::InsufficientBalance));
    let mut wrong = ctx;
    wrong.bounty = key(8);
    assert_eq!(initialize_bounty(&wrong, &mut slot, target, 1).err(), Some(PayStreamError::AddressMismatch));
    initialize_bounty(&ctx, &mut slot, target, 10).unwrap();
    assert_eq!(initialize_bounty(&ctx, &mut slot, target, 10).err(), Some(PayStreamError::AccountAlreadyInUse));
    let mut claim = claim_ctx(&ctx, 10);
    claim.bounty_vault = key(8);
    assert_eq!(claim_bounty(&claim, &mut slot, &b"s".to_vec()).err(), Some(PayStreamError::AddressMismatch));
    let mut claim = claim_ctx(&ctx, 10);
    claim.bounty = key(8);
    assert_eq!(claim_bounty(&claim, &mut slot, &b"s".to_vec()).err(), Some(PayStreamError::AddressMismatch));
    assert!(slot.is_some());
}

#[test]
fn release_compares_digests() {
    let pool = BountyPool { authority: key(1), target_hash: key(2), bump: 254 };
    let mut slot = Some(pool);
    assert_eq!(release_bounty(&mut slot, &key(3), 9), Err(PayStreamError::InvalidSecret));
    assert_eq!(release_bounty(&mut slot, &key(2), 9), Ok(9));
    assert!(slot.is_none());
    assert_eq!(release_bounty(&mut slot, &key(2), 9), Err(PayStreamError::AccountNotInitialized));
}

#[test]
fn reveal_hashes_the_secret() {
    let secret = key(2).to_vec();
    let pool = BountyPool { authority: key(1), target_hash: key(2), bump: 254 };
    let mut slot = Some(pool);
    assert_eq!(reveal_secret(&mut slot, &secret, 9), Err(PayStreamError::InvalidSecret));
    let pool = BountyPool { authority: key(1), target_hash: hash(&secret).to_bytes(), bump: 254 };
    let mut slot = Some(pool);
    assert_eq!(reveal_secret(&mut slot, &secret, 9), Ok(9));
}

#[test]
fn rederivation_is_stable() {
    let (session, bump) = pda(&[b"session_v1", &key(1), &key(2)]);
    let seeds = session_seeds(&key(1), &key(2));
    assert_eq!(verify_derivation(&seeds, bump, &session, &program()), Ok(()));
    assert_eq!(verify_derivation(&seeds, bump, &session, &program()), Ok(()));
    assert_eq!(pda(&[b"session_v1", &key(1), &key(2)]), (session, bump));
    assert_eq!(verify_derivation(&seeds, bump, &key(1), &program()), Err(PayStreamError::AddressMismatch));
    let other = session_seeds(&key(2), &key(1));
    assert_eq!(verify_derivation(&other, bump, &session, &program()), Err(PayStreamError::AddressMismatch));
}

#[test]
fn keys_and_addresses_compare() {
    assert!(keys_equal(&key(1), &key(1)));
    let mut k = key(1);
    k[31] = 0;
    assert!(!keys_equal(&key(1), &k));
    assert_eq!(check_address(Some(key(1)), &key(1)), Ok(()));
    assert_eq!(check_address(Some(k), &key(1)), Err(PayStreamError::AddressMismatch));
    assert_eq!(check_address(None, &key(1)), Err(PayStreamError::AddressMismatch));
}

#[test]
fn delegate_hands_out_base_seeds() {
    let ctx = stream_ctx(key(3), key(4), 50);
    let mut slot = None;
    initialize_stream(&ctx, &mut slot, 5, 50).unwrap();
    let d = DelegateInput { program_id: program(), payer: key(3), pda: ctx.session, host: key(4) };
    let seeds = delegate(&d, &slot).unwrap();
    assert_eq!(seeds, vec![b"session_v1".to_vec(), key(3).to_vec(), key(4).to_vec()]);
    let d = DelegateInput { program_id: program(), payer: key(9), pda: ctx.session, host: key(4) };
    assert_eq!(delegate(&d, &slot).err(), Some(PayStreamError::AddressMismatch));
    assert_eq!(delegate(&d, &None).err(), Some(PayStreamError::AccountNotInitialized));
}

#[test]
fn derive_address_finds_the_canonical_salt() {
    let seeds = session_seeds(&key(1), &key(2));
    let expected = pda(&[b"session_v1", &key(1), &key(2)]);
    assert_eq!(derive_address(&seeds, &program()), Some(expected));
    assert_eq!(derive_address(&seeds, &program()), Some(expected));
    assert_ne!(expected.0, key(1));
}

use anchor_lang::prelude::Pubkey;
use social_draw::identity::Identity;
use social_draw::ops::{
    create_pool, derive_winning_ticket, distribute_rewards, fulfill_randomness, join_pool,
    request_randomness,
};
use social_draw::pool::{DrawError, Participant, Pool, PoolStatus};

fn id(b: u8) -> Identity {
    Identity::new(vec![b; 32])
}

const PROGRAM_ID: u8 = 9;

fn program_id() -> Identity {
    id(PROGRAM_ID)
}

fn new_pool(pool_id: u64, ticket_price: u64) -> (Pool, Identity) {
    let creator = id(1);
    let authority = id(2);
    let (pool, pool_key, _ev) =
        create_pool(&creator, &program_id(), pool_id, ticket_price, &authority).unwrap();
    (pool, pool_key)
}

fn join(pool: &mut Pool, pool_key: &Identity, user: &Identity, tickets: u64) -> Participant {
    let mut participant = Participant::fresh();
    let ev = join_pool(pool, pool_key, &mut participant, user, tickets, &program_id()).unwrap();
    assert_eq!(ev.tickets_purchased, tickets);
    participant
}

fn randomness_with_first_byte(b: u8) -> Vec<u8> {
    let mut r = vec![0u8; 32];
    r[0] = b;
    r
}

#[test]
fn create_pool_starts_open_with_no_tickets() {
    let (pool, pool_key) = new_pool(42, 100);
    assert!(pool.status == PoolStatus::Open);
    assert_eq!(pool.total_tickets, 0);
    assert_eq!(pool.ticket_price, 100);
    assert_eq!(pool.winning_ticket, 0);
    assert!(pool.creator.equals(&id(1)));
    assert!(pool.randomness_authority.equals(&id(2)));
    assert!(pool.assert_seeds(&pool_key, &program_id()).is_ok());
}

#[test]
fn create_pool_rejects_zero_price() {
    let r = create_pool(&id(1), &program_id(), 7, 0, &id(2));
    assert!(matches!(r, Err(DrawError::InvalidTicketPrice)));
}

#[test]
fn pool_address_matches_ledger_derivation() {
    let (pool, pool_key) = new_pool(42, 100);
    let creator_bytes = [1u8; 32];
    let pid = Pubkey::new_from_array([PROGRAM_ID; 32]);
    let (expected, bump) = Pubkey::find_program_address(
        &[b"pool", &creator_bytes, &42u64.to_le_bytes()],
        &pid,
    );
    assert_eq!(pool_key.to_vec(), expected.to_bytes().to_vec());
    assert_eq!(pool.bump, bump);
}

#[test]
fn participant_bump_matches_ledger_derivation() {
    let (mut pool, pool_key) = new_pool(42, 100);
    let user = id(3);
    let participant = join(&mut pool, &pool_key, &user, 3);
    let pid = Pubkey::new_from_array([PROGRAM_ID; 32]);
    let pool_key_bytes: [u8; 32] = pool_key.to_vec().try_into().unwrap();
    let user_bytes = [3u8; 32];
    let (_expected, bump) = Pubkey::find_program_address(
        &[b"participant", &pool_key_bytes, &user_bytes],
        &pid,
    );
    assert_eq!(participant.bump, bump);
}

#[test]
fn single_purchase_charges_price_times_count() {
    let (mut pool, pool_key) = new_pool(1, 100);
    let user = id(3);
    let mut participant = Participant::fresh();
    let ev = join_pool(&mut pool, &pool_key, &mut participant, &user, 3, &program_id()).unwrap();
    assert_eq!(ev.lamports_paid, 300);
    assert_eq!(ev.total_user_tickets, 3);
    assert_eq!(ev.total_pool_tickets, 3);
    assert_eq!(participant.tickets, 3);
    assert_eq!(pool.total_tickets, 3);
    assert!(participant.pool.equals(&pool_key));
    assert!(participant.user.equals(&user));
}

#[test]
fn repeat_purchase_accumulates() {
    let (mut pool, pool_key) = new_pool(1, 10);
    let user = id(3);
    let mut participant = Participant::fresh();
    join_pool(&mut pool, &pool_key, &mut participant, &user, 2, &program_id()).unwrap();
    let ev = join_pool(&mut pool, &pool_key, &mut participant, &user, 5, &program_id()).unwrap();
    assert_eq!(ev.lamports_paid, 50);
    assert_eq!(participant.tickets, 7);
    assert_eq!(pool.total_tickets, 7);
}

#[test]
fn join_rejects_zero_tickets() {
    let (mut pool, pool_key) = new_pool(1, 100);
    let mut participant = Participant::fresh();
    let r = join_pool(&mut pool, &pool_key, &mut participant, &id(3), 0, &program_id());
    assert!(matches!(r, Err(DrawError::InvalidTicketCount)));
    assert_eq!(pool.total_tickets, 0);
}

#[test]
fn overflowing_cost_rejected_and_nothing_changes() {
    let (mut pool, pool_key) = new_pool(1, u64::MAX);
    let user = id(3);
    let mut participant = Participant::fresh();
    let r = join_pool(&mut pool, &pool_key, &mut participant, &user, 2, &program_id());
    assert!(matches!(r, Err(DrawError::ArithmeticOverflow)));
    assert_eq!(pool.total_tickets, 0);
    assert_eq!(participant.tickets, 0);
    assert!(pool.status == PoolStatus::Open);
}

#[test]
fn participant_bound_to_other_pool_rejected() {
    let (mut pool_a, key_a) = new_pool(1, 100);
    let (mut pool_b, key_b) = new_pool(2, 100);
    let user = id(3);
    let mut participant = join(&mut pool_a, &key_a, &user, 1);
    let r = join_pool(&mut pool_b, &key_b, &mut participant, &user, 1, &program_id());
    assert!(matches!(r, Err(DrawError::ParticipantPoolMismatch)));
}

#[test]
fn participant_of_other_user_rejected() {
    let (mut pool, pool_key) = new_pool(1, 100);
    let mut participant = join(&mut pool, &pool_key, &id(3), 1);
    let r = join_pool(&mut pool, &pool_key, &mut participant, &id(4), 1, &program_id());
    assert!(matches!(r, Err(DrawError::UnauthorizedParticipantAccount)));
}

#[test]
fn tampered_pool_record_rejected() {
    let (mut pool, pool_key) = new_pool(1, 100);
    pool.pool_id = 999;
    let mut participant = Participant::fresh();
    let r = join_pool(&mut pool, &pool_key, &mut participant, &id(3), 1, &program_id());
    assert!(matches!(r, Err(DrawError::InvalidPoolSeeds)));
}

#[test]
fn request_randomness_needs_tickets() {
    let (mut pool, pool_key) = new_pool(1, 100);
    let r = request_randomness(&mut pool, &pool_key, &id(1), &program_id());
    assert!(matches!(r, Err(DrawError::NoTicketsSold)));
    assert!(pool.status == PoolStatus::Open);
}

#[test]
fn request_randomness_needs_creator() {
    let (mut pool, pool_key) = new_pool(1, 100);
    join(&mut pool, &pool_key, &id(3), 1);
    let r = request_randomness(&mut pool, &pool_key, &id(5), &program_id());
    assert!(matches!(r, Err(DrawError::UnauthorizedCreator)));
}

#[test]
fn request_randomness_advances_status() {
    let (mut pool, pool_key) = new_pool(1, 100);
    join(&mut pool, &pool_key, &id(3), 1);
    let ev = request_randomness(&mut pool, &pool_key, &id(1), &program_id()).unwrap();
    assert!(ev.requester.equals(&id(1)));
    assert!(pool.status == PoolStatus::RandomnessRequested);
}

#[test]
fn fulfill_needs_request_first() {
    let (mut pool, pool_key) = new_pool(1, 100);
    join(&mut pool, &pool_key, &id(3), 1);
    let r = fulfill_randomness(
        &mut pool,
        &pool_key,
        &id(2),
        randomness_with_first_byte(5),
        &program_id(),
    );
    assert!(matches!(r, Err(DrawError::RandomnessNotRequested)));
}

#[test]
fn fulfill_needs_designated_authority() {
    let (mut pool, pool_key) = new_pool(1, 100);
    join(&mut pool, &pool_key, &id(3), 1);
    request_randomness(&mut pool, &pool_key, &id(1), &program_id()).unwrap();
    let r = fulfill_randomness(
        &mut pool,
        &pool_key,
        &id(5),
        randomness_with_first_byte(5),
        &program_id(),
    );
    assert!(matches!(r, Err(DrawError::InvalidRandomnessAuthority)));
}

#[test]
fn fulfill_sets_winning_ticket_below_total() {
    let (mut pool, pool_key) = new_pool(1, 100);
    join(&mut pool, &pool_key, &id(3), 10);
    request_randomness(&mut pool, &pool_key, &id(1), &program_id()).unwrap();
    let ev = fulfill_randomness(
        &mut pool,
        &pool_key,
        &id(2),
        randomness_with_first_byte(34),
        &program_id(),
    )
    .unwrap();
    assert!(pool.status == PoolStatus::RandomnessFulfilled);
    assert_eq!(ev.total_tickets, 10);
    assert_eq!(ev.winning_ticket, 4);
    assert_eq!(pool.winning_ticket, 4);
    assert!(pool.winning_ticket < pool.total_tickets);
}

#[test]
fn derive_winning_ticket_reads_first_eight_bytes_little_endian() {
    let mut randomness = vec![0u8; 32];
    randomness[0] = 0x39;
    randomness[1] = 0x30;
    assert_eq!(derive_winning_ticket(&randomness, 1000), 345);
    assert_eq!(derive_winning_ticket(&randomness, u64::MAX), 12345);
    let mut high = vec![0u8; 32];
    high[7] = 1;
    assert_eq!(derive_winning_ticket(&high, u64::MAX), 1 << 56);
    let mut tail_only = vec![0xffu8; 32];
    for b in tail_only.iter_mut().take(8) {
        *b = 0;
    }
    assert_eq!(derive_winning_ticket(&tail_only, 7), 0);
}

fn fulfilled_two_user_pool() -> (Pool, Identity, Participant, Participant) {
    let (mut pool, pool_key) = new_pool(1, 100);
    let p1 = join(&mut pool, &pool_key, &id(3), 3);
    let p2 = join(&mut pool, &pool_key, &id(4), 7);
    request_randomness(&mut pool, &pool_key, &id(1), &program_id()).unwrap();
    // First eight bytes read little-endian give 14; 14 mod 10 = 4.
    fulfill_randomness(
        &mut pool,
        &pool_key,
        &id(2),
        randomness_with_first_byte(14),
        &program_id(),
    )
    .unwrap();
    assert_eq!(pool.winning_ticket, 4);
    (pool, pool_key, p1, p2)
}

#[test]
fn winning_ticket_in_second_range_pays_second_user() {
    let (mut pool, pool_key, p1, p2) = fulfilled_two_user_pool();
    let participants = vec![p1, p2];
    let ev = distribute_rewards(
        &mut pool,
        &pool_key,
        &id(1),
        &participants,
        &id(4),
        1_000_000,
        900_000,
        &program_id(),
    )
    .unwrap();
    assert!(ev.winner.equals(&id(4)));
    assert_eq!(ev.payout_lamports, 100_000);
    assert!(pool.status == PoolStatus::Settled);
    assert!(pool.winner.equals(&id(4)));
}

#[test]
fn distribution_succeeds_at_most_once() {
    let (mut pool, pool_key, p1, p2) = fulfilled_two_user_pool();
    let participants = vec![p1, p2];
    distribute_rewards(
        &mut pool,
        &pool_key,
        &id(1),
        &participants,
        &id(4),
        1_000_000,
        900_000,
        &program_id(),
    )
    .unwrap();
    let again = distribute_rewards(
        &mut pool,
        &pool_key,
        &id(1),
        &participants,
        &id(4),
        1_000_000,
        900_000,
        &program_id(),
    );
    assert!(matches!(again, Err(DrawError::RandomnessNotFulfilled)));
    assert!(pool.status == PoolStatus::Settled);
}

#[test]
fn incomplete_list_rejected() {
    let (mut pool, pool_key, _p1, p2) = fulfilled_two_user_pool();
    // Only the second buyer's record: its range covers the winning
    // ticket, but three sold tickets are unaccounted for.
    let participants = vec![p2];
    let r = distribute_rewards(
        &mut pool,
        &pool_key,
        &id(1),
        &participants,
        &id(4),
        1_000_000,
        900_000,
        &program_id(),
    );
    assert!(matches!(r, Err(DrawError::ParticipantListIncomplete)));
    assert!(pool.status == PoolStatus::RandomnessFulfilled);
}

#[test]
fn list_not_reaching_winning_ticket_rejected() {
    let (mut pool, pool_key, p1, _p2) = fulfilled_two_user_pool();
    let participants = vec![p1];
    let r = distribute_rewards(
        &mut pool,
        &pool_key,
        &id(1),
        &participants,
        &id(3),
        1_000_000,
        900_000,
        &program_id(),
    );
    assert!(matches!(r, Err(DrawError::WinnerNotFound)));
}

#[test]
fn wrong_payout_recipient_rejected() {
    let (mut pool, pool_key, p1, p2) = fulfilled_two_user_pool();
    let participants = vec![p1, p2];
    let r = distribute_rewards(
        &mut pool,
        &pool_key,
        &id(1),
        &participants,
        &id(3),
        1_000_000,
        900_000,
        &program_id(),
    );
    assert!(matches!(r, Err(DrawError::PayoutRecipientMismatch)));
    assert!(pool.status == PoolStatus::RandomnessFulfilled);
}

#[test]
fn foreign_participant_record_rejected() {
    let (mut pool, pool_key, p1, p2) = fulfilled_two_user_pool();
    let (mut other_pool, other_key) = new_pool(2, 100);
    let stray = join(&mut other_pool, &other_key, &id(4), 7);
    let participants = vec![p1, stray, p2];
    let r = distribute_rewards(
        &mut pool,
        &pool_key,
        &id(1),
        &participants,
        &id(4),
        1_000_000,
        900_000,
        &program_id(),
    );
    assert!(matches!(r, Err(DrawError::ParticipantPoolMismatch)));
}

#[test]
fn balance_at_reserve_rejected() {
    let (mut pool, pool_key, p1, p2) = fulfilled_two_user_pool();
    let participants = vec![p1, p2];
    let r = distribute_rewards(
        &mut pool,
        &pool_key,
        &id(1),
        &participants,
        &id(4),
        900_000,
        900_000,
        &program_id(),
    );
    assert!(matches!(r, Err(DrawError::InsufficientTreasury)));
}

#[test]
fn distribution_needs_creator() {
    let (mut pool, pool_key, p1, p2) = fulfilled_two_user_pool();
    let participants = vec![p1, p2];
    let r = distribute_rewards(
        &mut pool,
        &pool_key,
        &id(5),
        &participants,
        &id(4),
        1_000_000,
        900_000,
        &program_id(),
    );
    assert!(matches!(r, Err(DrawError::UnauthorizedCreator)));
}

#[test]
fn join_rejected_once_pool_leaves_open() {
    let (mut pool, pool_key) = new_pool(1, 100);
    join(&mut pool, &pool_key, &id(3), 1);
    request_randomness(&mut pool, &pool_key, &id(1), &program_id()).unwrap();
    let mut participant = Participant::fresh();
    let r = join_pool(&mut pool, &pool_key, &mut participant, &id(4), 1, &program_id());
    assert!(matches!(r, Err(DrawError::PoolNotOpen)));
    let r2 = request_randomness(&mut pool, &pool_key, &id(1), &program_id());
    assert!(matches!(r2, Err(DrawError::PoolNotOpen)));
}

#[test]
fn complete_list_tickets_sum_to_pool_total() {
    let (mut pool, pool_key) = new_pool(1, 5);
    let p1 = join(&mut pool, &pool_key, &id(3), 3);
    let p2 = join(&mut pool, &pool_key, &id(4), 7);
    let p3 = join(&mut pool, &pool_key, &id(5), 11);
    let sum: u64 = [&p1, &p2, &p3].iter().map(|p| p.tickets).sum();
    assert_eq!(sum, pool.total_tickets);
}

use vstd::prelude::*;
use crate::addressing::{
    build_participant_seeds, build_pool_base_seeds, find_program_address, found_program_address,
    participant_seeds, pool_base_seeds, pool_seeds, program_address_of,
};
use crate::bytes::le_bytes_val;
use crate::bytes::le_u64_of_prefix;
use crate::identity::{zero_id, Identity};
use crate::pool::{
    status_order, DrawError, Joined, Participant, ParticipantView, Pool, PoolCreated, PoolStatus,
    PoolView, RandomnessFulfilled, RandomnessRequested,
};

verus! {

/// What creating a pool yields for the given inputs: the initial pool
/// record and its derived address, or the error that rejects the call.
pub open spec fn create_pool_outcome(
    creator: Seq<u8>,
    program_id: Seq<u8>,
    pool_id: u64,
    ticket_price: u64,
    authority: Seq<u8>,
) -> Result<(PoolView, Seq<u8>), DrawError> {
    if ticket_price == 0 {
        Err(DrawError::InvalidTicketPrice)
    } else {
        match found_program_address(pool_base_seeds(creator, pool_id), program_id) {
            None => Err(DrawError::InvalidPoolSeeds),
            Some((addr, bump)) => Ok(
                (
                    PoolView {
                        creator,
                        randomness_authority: authority,
                        pool_id,
                        ticket_price,
                        total_tickets: 0,
                        randomness: zero_id(),
                        winning_ticket: 0,
                        winner: zero_id(),
                        status: PoolStatus::Open,
                        bump,
                    },
                    addr,
                ),
            ),
        }
    }
}

/// Creates a pool: requires a positive ticket price, derives the pool's
/// record address from (creator, pool id), and returns the initial
/// record in state `Open` with no tickets sold, together with its
/// address and the creation notification.
pub fn create_pool(
    creator: &Identity,
    program_id: &Identity,
    pool_id: u64,
    ticket_price: u64,
    randomness_authority: &Identity,
) -> (r: Result<(Pool, Identity, PoolCreated), DrawError>)
    requires
        creator@.len() == 32,
        program_id@.len() == 32,
        randomness_authority@.len() == 32,
    ensures
        match r {
            Ok((pool, pool_key, ev)) => {
                &&& create_pool_outcome(
                    creator@,
                    program_id@,
                    pool_id,
                    ticket_price,
                    randomness_authority@,
                ) == Ok::<(PoolView, Seq<u8>), DrawError>((pool@, pool_key@))
                &&& pool@.wf()
                &&& pool_key.wf()
                &&& ev.pool@ == pool_key@
                &&& ev.creator@ == creator@
                &&& ev.ticket_price == ticket_price
                &&& ev.randomness_authority@ == randomness_authority@
            },
            Err(e) => create_pool_outcome(
                creator@,
                program_id@,
                pool_id,
                ticket_price,
                randomness_authority@,
            ) == Err::<(PoolView, Seq<u8>), DrawError>(e),
        },
{
    if ticket_price == 0 {
        return Err(DrawError::InvalidTicketPrice);
    }
    let seeds = build_pool_base_seeds(creator, pool_id);
    match find_program_address(&seeds, program_id) {
        None => Err(DrawError::InvalidPoolSeeds),
        Some((pool_key, bump)) => {
            let zeroed = Identity::zeroed();
            let pool = Pool {
                creator: creator.clone(),
                randomness_authority: randomness_authority.clone(),
                pool_id,
                ticket_price,
                total_tickets: 0,
                randomness: zeroed.to_vec(),
                winning_ticket: 0,
                winner: zeroed,
                status: PoolStatus::Open,
                bump,
            };
            let ev = PoolCreated {
                pool: pool_key.clone(),
                creator: creator.clone(),
                ticket_price,
                randomness_authority: randomness_authority.clone(),
            };
            Ok((pool, pool_key, ev))
        },
    }
}

/// What requesting randomness yields: the advanced pool record, or the
/// error that rejects the call.
pub open spec fn request_outcome(
    pool: PoolView,
    pool_key: Seq<u8>,
    caller: Seq<u8>,
    pid: Seq<u8>,
) -> Result<PoolView, DrawError> {
    if program_address_of(pool_seeds(pool.creator, pool.pool_id, pool.bump), pid) != Some(
        pool_key,
    ) {
        Err(DrawError::InvalidPoolSeeds)
    } else if pool.creator != caller {
        Err(DrawError::UnauthorizedCreator)
    } else if !(pool.status is Open) {
        Err(DrawError::PoolNotOpen)
    } else if pool.total_tickets == 0 {
        Err(DrawError::NoTicketsSold)
    } else {
        Ok(PoolView { status: PoolStatus::RandomnessRequested, ..pool })
    }
}

/// Asks the randomness authority for entropy: only the creator may ask,
/// only while the pool is `Open`, and only once tickets were sold.
pub fn request_randomness(
    pool: &mut Pool,
    pool_key: &Identity,
    caller: &Identity,
    program_id: &Identity,
) -> (r: Result<RandomnessRequested, DrawError>)
    requires
        old(pool)@.wf(),
        program_id@.len() == 32,
    ensures
        match r {
            Ok(ev) => {
                &&& request_outcome(old(pool)@, pool_key@, caller@, program_id@) == Ok::<
                    PoolView,
                    DrawError,
                >(final(pool)@)
                &&& ev.pool@ == pool_key@
                &&& ev.requester@ == caller@
                &&& final(pool)@.wf()
            },
            Err(e) => request_outcome(old(pool)@, pool_key@, caller@, program_id@) == Err::<
                PoolView,
                DrawError,
            >(e) && final(pool)@ == old(pool)@,
        },
        status_order(old(pool)@.status) <= status_order(final(pool)@.status),
{
    if let Err(e) = pool.assert_seeds(pool_key, program_id) {
        return Err(e);
    }
    if !pool.creator.equals(caller) {
        return Err(DrawError::UnauthorizedCreator);
    }
    if pool.status != PoolStatus::Open {
        return Err(DrawError::PoolNotOpen);
    }
    if pool.total_tickets == 0 {
        return Err(DrawError::NoTicketsSold);
    }
    pool.status = PoolStatus::RandomnessRequested;
    Ok(RandomnessRequested { pool: pool_key.clone(), requester: caller.clone() })
}

/// What fulfilling randomness yields: the pool record carrying the
/// randomness and the winning ticket index, or the error that rejects
/// the call.
pub open spec fn fulfill_outcome(
    pool: PoolView,
    pool_key: Seq<u8>,
    authority: Seq<u8>,
    randomness: Seq<u8>,
    pid: Seq<u8>,
) -> Result<PoolView, DrawError> {
    if program_address_of(pool_seeds(pool.creator, pool.pool_id, pool.bump), pid) != Some(
        pool_key,
    ) {
        Err(DrawError::InvalidPoolSeeds)
    } else if pool.randomness_authority != authority {
        Err(DrawError::InvalidRandomnessAuthority)
    } else if !(pool.status is RandomnessRequested) {
        Err(DrawError::RandomnessNotRequested)
    } else if pool.total_tickets == 0 {
        Err(DrawError::NoTicketsSold)
    } else {
        Ok(
            PoolView {
                randomness,
                winning_ticket: (le_bytes_val(randomness.subrange(0, 8)) % (
                pool.total_tickets as int)) as u64,
                status: PoolStatus::RandomnessFulfilled,
                ..pool
            },
        )
    }
}

/// The winning ticket index that a randomness value selects: the first
/// eight of its bytes, read little-endian, reduced modulo the ticket
/// count. Only those eight bytes enter the draw, so when the count does
/// not divide the 64-bit space the reduction slightly favours lower
/// indices; that reduction is kept as the protocol defines it.
pub fn derive_winning_ticket(randomness: &Vec<u8>, total_tickets: u64) -> (r: u64)
    requires
        randomness@.len() == 32,
        total_tickets > 0,
    ensures
        r == le_bytes_val(randomness@.subrange(0, 8)) % (total_tickets as int),
        r < total_tickets,
{
    let raw = le_u64_of_prefix(randomness);
    raw % total_tickets
}

/// Records the authority's randomness: only the designated randomness
/// authority may fulfill, only in `RandomnessRequested`, and the winning
/// ticket index is derived at once.
pub fn fulfill_randomness(
    pool: &mut Pool,
    pool_key: &Identity,
    authority: &Identity,
    randomness: Vec<u8>,
    program_id: &Identity,
) -> (r: Result<RandomnessFulfilled, DrawError>)
    requires
        old(pool)@.wf(),
        randomness@.len() == 32,
        program_id@.len() == 32,
    ensures
        match r {
            Ok(ev) => {
                &&& fulfill_outcome(old(pool)@, pool_key@, authority@, randomness@, program_id@)
                    == Ok::<PoolView, DrawError>(final(pool)@)
                &&& ev.pool@ == pool_key@
                &&& ev.winning_ticket == final(pool)@.winning_ticket
                &&& ev.total_tickets == final(pool)@.total_tickets
                &&& final(pool)@.wf()
            },
            Err(e) => fulfill_outcome(old(pool)@, pool_key@, authority@, randomness@, program_id@)
                == Err::<PoolView, DrawError>(e) && final(pool)@ == old(pool)@,
        },
        status_order(old(pool)@.status) <= status_order(final(pool)@.status),
{
    if let Err(e) = pool.assert_seeds(pool_key, program_id) {
        return Err(e);
    }
    if !pool.randomness_authority.equals(authority) {
        return Err(DrawError::InvalidRandomnessAuthority);
    }
    if pool.status != PoolStatus::RandomnessRequested {
        return Err(DrawError::RandomnessNotRequested);
    }
    if pool.total_tickets == 0 {
        return Err(DrawError::NoTicketsSold);
    }
    let winning_ticket = derive_winning_ticket(&randomness, pool.total_tickets);
    pool.randomness = randomness;
    pool.winning_ticket = winning_ticket;
    pool.status = PoolStatus::RandomnessFulfilled;
    Ok(
        RandomnessFulfilled {
            pool: pool_key.clone(),
            winning_ticket,
            total_tickets: pool.total_tickets,
        },
    )
}

/// The participant record after lazy first-purchase binding: a still
/// unbound record is bound to the pool, the user, and its derived
/// disambiguation byte; a bound record is left as it is. Nothing is
/// returned where no disambiguation byte can be derived.
pub open spec fn join_bound_participant(
    q: ParticipantView,
    pool_key: Seq<u8>,
    user: Seq<u8>,
    pid: Seq<u8>,
) -> Option<ParticipantView> {
    if q.pool == zero_id() {
        match found_program_address(participant_seeds(pool_key, user), pid) {
            None => None,
            Some((_addr, b)) => Some(ParticipantView { pool: pool_key, user, bump: b, ..q }),
        }
    } else {
        Some(q)
    }
}

/// What a ticket purchase yields: the updated pool and participant
/// records and the cost charged, or the error that rejects the call.
pub open spec fn join_outcome(
    pool: PoolView,
    pool_key: Seq<u8>,
    q: ParticipantView,
    user: Seq<u8>,
    tickets: u64,
    pid: Seq<u8>,
) -> Result<(PoolView, ParticipantView, u64), DrawError> {
    if tickets == 0 {
        Err(DrawError::InvalidTicketCount)
    } else if program_address_of(pool_seeds(pool.creator, pool.pool_id, pool.bump), pid) != Some(
        pool_key,
    ) {
        Err(DrawError::InvalidPoolSeeds)
    } else if !(pool.status is Open) {
        Err(DrawError::PoolNotOpen)
    } else if pool.ticket_price * tickets > u64::MAX {
        Err(DrawError::ArithmeticOverflow)
    } else {
        match join_bound_participant(q, pool_key, user, pid) {
            None => Err(DrawError::InvalidPoolSeeds),
            Some(q1) => {
                if q1.pool != pool_key {
                    Err(DrawError::ParticipantPoolMismatch)
                } else if q1.user != user {
                    Err(DrawError::UnauthorizedParticipantAccount)
                } else if q1.tickets + tickets > u64::MAX {
                    Err(DrawError::ArithmeticOverflow)
                } else if pool.total_tickets + tickets > u64::MAX {
                    Err(DrawError::ArithmeticOverflow)
                } else {
                    Ok(
                        (
                            PoolView {
                                total_tickets: (pool.total_tickets + tickets) as u64,
                                ..pool
                            },
                            ParticipantView { tickets: (q1.tickets + tickets) as u64, ..q1 },
                            (pool.ticket_price * tickets) as u64,
                        ),
                    )
                }
            },
        }
    }
}

/// Buys tickets in an open pool: charges price times count with
/// overflow-checked arithmetic, binds the participant record on first
/// purchase, and raises both the user's and the pool's ticket totals.
/// The returned notification names the cost that the caller must now
/// move into the pool's custody.
pub fn join_pool(
    pool: &mut Pool,
    pool_key: &Identity,
    participant: &mut Participant,
    user: &Identity,
    tickets: u64,
    program_id: &Identity,
) -> (r: Result<Joined, DrawError>)
    requires
        old(pool)@.wf(),
        old(participant)@.wf(),
        pool_key@.len() == 32,
        user@.len() == 32,
        program_id@.len() == 32,
    ensures
        match r {
            Ok(ev) => {
                &&& join_outcome(
                    old(pool)@,
                    pool_key@,
                    old(participant)@,
                    user@,
                    tickets,
                    program_id@,
                ) == Ok::<(PoolView, ParticipantView, u64), DrawError>(
                    (final(pool)@, final(participant)@, ev.lamports_paid),
                )
                &&& ev.pool@ == pool_key@
                &&& ev.user@ == user@
                &&& ev.tickets_purchased == tickets
                &&& ev.total_user_tickets == final(participant)@.tickets
                &&& ev.total_pool_tickets == final(pool)@.total_tickets
                &&& final(pool)@.wf()
                &&& final(participant)@.wf()
            },
            Err(e) => {
                &&& join_outcome(
                    old(pool)@,
                    pool_key@,
                    old(participant)@,
                    user@,
                    tickets,
                    program_id@,
                ) == Err::<(PoolView, ParticipantView, u64), DrawError>(e)
                &&& final(pool)@ == old(pool)@
                &&& final(participant)@ == old(participant)@
            },
        },
        status_order(old(pool)@.status) <= status_order(final(pool)@.status),
{
    if tickets == 0 {
        return Err(DrawError::InvalidTicketCount);
    }
    if let Err(e) = pool.assert_seeds(pool_key, program_id) {
        return Err(e);
    }
    if pool.status != PoolStatus::Open {
        return Err(DrawError::PoolNotOpen);
    }
    let cost = match pool.ticket_price.checked_mul(tickets) {
        Some(c) => c,
        None => {
            return Err(DrawError::ArithmeticOverflow);
        },
    };
    let zeroed = Identity::zeroed();
    let (q_pool, q_user, q_bump): (Identity, Identity, u8) = if participant.pool.equals(&zeroed) {
        let seeds = build_participant_seeds(pool_key, user);
        match find_program_address(&seeds, program_id) {
            None => {
                return Err(DrawError::InvalidPoolSeeds);
            },
            Some((_addr, b)) => (pool_key.clone(), user.clone(), b),
        }
    } else {
        (participant.pool.clone(), participant.user.clone(), participant.bump)
    };
    if !q_pool.equals(pool_key) {
        return Err(DrawError::ParticipantPoolMismatch);
    }
    if !q_user.equals(user) {
        return Err(DrawError::UnauthorizedParticipantAccount);
    }
    let new_user_tickets = match participant.tickets.checked_add(tickets) {
        Some(t) => t,
        None => {
            return Err(DrawError::ArithmeticOverflow);
        },
    };
    let new_total = match pool.total_tickets.checked_add(tickets) {
        Some(t) => t,
        None => {
            return Err(DrawError::ArithmeticOverflow);
        },
    };
    participant.pool = q_pool;
    participant.user = q_user;
    participant.bump = q_bump;
    participant.tickets = new_user_tickets;
    pool.total_tickets = new_total;
    Ok(
        Joined {
            pool: pool_key.clone(),
            user: user.clone(),
            tickets_purchased: tickets,
            total_user_tickets: new_user_tickets,
            total_pool_tickets: new_total,
            lamports_paid: cost,
        },
    )
}


/// The mathematical values of a vector of participant records.
pub open spec fn views_of(ps: Seq<Participant>) -> Seq<ParticipantView> {
    ps.map_values(|p: Participant| p@)
}

pub open spec fn all_wf(ps: Seq<ParticipantView>) -> bool {
    forall|i: int| 0 <= i < ps.len() ==> (#[trigger] ps[i]).wf()
}

/// The bytes of an optional identity.
pub open spec fn id_opt_view(w: Option<Identity>) -> Option<Seq<u8>> {
    match w {
        Some(x) => Some(x@),
        None => None,
    }
}

/// The single pass over a caller-supplied participant list: each record
/// must belong to the pool; ticket counts accumulate with overflow
/// checking; the first record whose cumulative range covers the winning
/// ticket becomes the winner and later records no longer compete.
pub open spec fn scan_participants(
    ps: Seq<ParticipantView>,
    pool_key: Seq<u8>,
    winning_ticket: u64,
    cumulative: u64,
    winner: Option<Seq<u8>>,
) -> Result<(u64, Option<Seq<u8>>), DrawError>
    decreases ps.len(),
{
    if ps.len() == 0 {
        Ok((cumulative, winner))
    } else if ps[0].pool != pool_key {
        Err(DrawError::ParticipantPoolMismatch)
    } else if cumulative + ps[0].tickets > u64::MAX {
        Err(DrawError::ArithmeticOverflow)
    } else {
        let next = (cumulative + ps[0].tickets) as u64;
        let w = if winner is None && winning_ticket < next {
            Some(ps[0].user)
        } else {
            winner
        };
        scan_participants(ps.drop_first(), pool_key, winning_ticket, next, w)
    }
}

/// What distributing the rewards yields: the settled pool record naming
/// the winner and the amount paid out, or the error that rejects the
/// call. The caller-supplied list must belong to the pool throughout,
/// must contain a winner, and must account for every ticket sold; the
/// payout recipient must equal the scanned winner; and the pool balance
/// must strictly exceed the reserve the record needs to stay alive.
pub open spec fn distribute_outcome(
    pool: PoolView,
    pool_key: Seq<u8>,
    caller: Seq<u8>,
    ps: Seq<ParticipantView>,
    payout: Seq<u8>,
    pool_balance: u64,
    minimum_balance: u64,
    pid: Seq<u8>,
) -> Result<(PoolView, u64), DrawError> {
    if program_address_of(pool_seeds(pool.creator, pool.pool_id, pool.bump), pid) != Some(
        pool_key,
    ) {
        Err(DrawError::InvalidPoolSeeds)
    } else if pool.creator != caller {
        Err(DrawError::UnauthorizedCreator)
    } else if !(pool.status is RandomnessFulfilled) {
        Err(DrawError::RandomnessNotFulfilled)
    } else if pool.total_tickets == 0 {
        Err(DrawError::NoTicketsSold)
    } else {
        match scan_participants(ps, pool_key, pool.winning_ticket, 0, None) {
            Err(e) => Err(e),
            Ok((cumulative, None)) => Err(DrawError::WinnerNotFound),
            Ok((cumulative, Some(w))) => {
                if cumulative != pool.total_tickets {
                    Err(DrawError::ParticipantListIncomplete)
                } else if payout != w {
                    Err(DrawError::PayoutRecipientMismatch)
                } else if pool_balance <= minimum_balance {
                    Err(DrawError::InsufficientTreasury)
                } else {
                    Ok(
                        (
                            PoolView { status: PoolStatus::Settled, winner: w, ..pool },
                            (pool_balance - minimum_balance) as u64,
                        ),
                    )
                }
            },
        }
    }
}

/// Settles the pool: only the creator may settle, only in
/// `RandomnessFulfilled`. The caller supplies the complete participant
/// list in any order and the designated payout recipient; the winner is
/// derived from the scan alone, never taken from caller input. The
/// returned notification names the surplus above the reserve that the
/// caller must now move from the pool's custody to the winner.
#[verifier::loop_isolation(false)]
pub fn distribute_rewards(
    pool: &mut Pool,
    pool_key: &Identity,
    caller: &Identity,
    participants: &Vec<Participant>,
    payout: &Identity,
    pool_balance: u64,
    minimum_balance: u64,
    program_id: &Identity,
) -> (r: Result<crate::pool::RewardsDistributed, DrawError>)
    requires
        old(pool)@.wf(),
        program_id@.len() == 32,
        all_wf(views_of(participants@)),
    ensures
        match r {
            Ok(ev) => {
                &&& distribute_outcome(
                    old(pool)@,
                    pool_key@,
                    caller@,
                    views_of(participants@),
                    payout@,
                    pool_balance,
                    minimum_balance,
                    program_id@,
                ) == Ok::<(PoolView, u64), DrawError>((final(pool)@, ev.payout_lamports))
                &&& ev.pool@ == pool_key@
                &&& ev.winner@ == final(pool)@.winner
                &&& final(pool)@.status is Settled
                &&& final(pool)@.wf()
            },
            Err(e) => {
                &&& distribute_outcome(
                    old(pool)@,
                    pool_key@,
                    caller@,
                    views_of(participants@),
                    payout@,
                    pool_balance,
                    minimum_balance,
                    program_id@,
                ) == Err::<(PoolView, u64), DrawError>(e)
                &&& final(pool)@ == old(pool)@
            },
        },
        status_order(old(pool)@.status) <= status_order(final(pool)@.status),
{
    if let Err(e) = pool.assert_seeds(pool_key, program_id) {
        return Err(e);
    }
    if !pool.creator.equals(caller) {
        return Err(DrawError::UnauthorizedCreator);
    }
    if pool.status != PoolStatus::RandomnessFulfilled {
        return Err(DrawError::RandomnessNotFulfilled);
    }
    if pool.total_tickets == 0 {
        return Err(DrawError::NoTicketsSold);
    }
    let ghost ps = views_of(participants@);
    let winning_ticket = pool.winning_ticket;
    let mut cumulative: u64 = 0;
    let mut winner: Option<Identity> = None;
    let mut i: usize = 0;
    proof {
        assert(ps.subrange(0, ps.len() as int) =~= ps);
    }
    while i < participants.len()
        invariant
            i <= ps.len(),
            ps == views_of(participants@),
            ps.len() == participants@.len(),
            all_wf(ps),
            scan_participants(ps, pool_key@, winning_ticket, 0, None) == scan_participants(
                ps.subrange(i as int, ps.len() as int),
                pool_key@,
                winning_ticket,
                cumulative,
                id_opt_view(winner),
            ),
            winner matches Some(w) ==> w@.len() == 32,
        decreases ps.len() - i,
    {
        let p = &participants[i];
        proof {
            assert(ps.subrange(i as int, ps.len() as int)[0] == ps[i as int]);
            assert(ps[i as int] == p@);
        }
        if !p.pool.equals(pool_key) {
            proof {
                assert(scan_participants(
                    ps.subrange(i as int, ps.len() as int),
                    pool_key@,
                    winning_ticket,
                    cumulative,
                    id_opt_view(winner),
                ) == Err::<(u64, Option<Seq<u8>>), DrawError>(DrawError::ParticipantPoolMismatch));
            }
            return Err(DrawError::ParticipantPoolMismatch);
        }
        let next = match cumulative.checked_add(p.tickets) {
            Some(n) => n,
            None => {
                proof {
                    assert(scan_participants(
                        ps.subrange(i as int, ps.len() as int),
                        pool_key@,
                        winning_ticket,
                        cumulative,
                        id_opt_view(winner),
                    ) == Err::<(u64, Option<Seq<u8>>), DrawError>(DrawError::ArithmeticOverflow));
                }
                return Err(DrawError::ArithmeticOverflow);
            },
        };
        if winner.is_none() && winning_ticket < next {
            winner = Some(p.user.clone());
        }
        cumulative = next;
        proof {
            assert(ps.subrange(i as int, ps.len() as int).drop_first() =~= ps.subrange(
                i as int + 1,
                ps.len() as int,
            ));
        }
        i = i + 1;
    }
    proof {
        assert(ps.subrange(i as int, ps.len() as int) =~= Seq::<ParticipantView>::empty());
        assert(scan_participants(ps, pool_key@, winning_ticket, 0, None) == Ok::<
            (u64, Option<Seq<u8>>),
            DrawError,
        >((cumulative, id_opt_view(winner))));
    }
    let winner_id = match winner {
        Some(w) => w,
        None => {
            return Err(DrawError::WinnerNotFound);
        },
    };
    if cumulative != pool.total_tickets {
        return Err(DrawError::ParticipantListIncomplete);
    }
    if !payout.equals(&winner_id) {
        return Err(DrawError::PayoutRecipientMismatch);
    }
    if pool_balance <= minimum_balance {
        return Err(DrawError::InsufficientTreasury);
    }
    let available = pool_balance - minimum_balance;
    pool.status = PoolStatus::Settled;
    pool.winner = winner_id;
    Ok(
        crate::pool::RewardsDistributed {
            pool: pool_key.clone(),
            winner: pool.winner.clone(),
            payout_lamports: available,
        },
    )
}

} // verus!

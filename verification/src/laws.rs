use vstd::prelude::*;
use crate::addressing::{pool_seeds, program_address_of};
use crate::ops::{
    distribute_outcome, fulfill_outcome, join_outcome, request_outcome, scan_participants,
};
use crate::pool::{DrawError, ParticipantView, PoolView};

verus! {

/// The total of the ticket counts held by a list of participant records.
pub open spec fn sum_tickets(ps: Seq<ParticipantView>) -> int
    decreases ps.len(),
{
    if ps.len() == 0 {
        0
    } else {
        ps[0].tickets + sum_tickets(ps.drop_first())
    }
}

/// The tickets held by the first `i` records of a list.
pub open spec fn prefix_tickets(ps: Seq<ParticipantView>, i: int) -> int {
    sum_tickets(ps.take(i))
}

proof fn lemma_scan_sum(
    ps: Seq<ParticipantView>,
    pool_key: Seq<u8>,
    wt: u64,
    cum: u64,
    w: Option<Seq<u8>>,
)
    ensures
        scan_participants(ps, pool_key, wt, cum, w) matches Ok((c2, w2)) ==> c2 == cum
            + sum_tickets(ps),
    decreases ps.len(),
{
    if ps.len() == 0 {
    } else if ps[0].pool != pool_key {
    } else if cum + ps[0].tickets > u64::MAX {
    } else {
        let next = (cum + ps[0].tickets) as u64;
        let w1 = if w is None && wt < next {
            Some(ps[0].user)
        } else {
            w
        };
        lemma_scan_sum(ps.drop_first(), pool_key, wt, next, w1);
    }
}

/// A participant list that settlement accepts is complete: its ticket
/// counts sum exactly to the pool's recorded total, so every ticket ever
/// sold is accounted for.
pub proof fn lemma_accepted_list_sums_to_total(
    pool: PoolView,
    pool_key: Seq<u8>,
    caller: Seq<u8>,
    ps: Seq<ParticipantView>,
    payout: Seq<u8>,
    pool_balance: u64,
    minimum_balance: u64,
    pid: Seq<u8>,
)
    requires
        distribute_outcome(
            pool,
            pool_key,
            caller,
            ps,
            payout,
            pool_balance,
            minimum_balance,
            pid,
        ) is Ok,
    ensures
        sum_tickets(ps) == pool.total_tickets,
{
    lemma_scan_sum(ps, pool_key, pool.winning_ticket, 0, None);
}

proof fn lemma_sum_update(ps: Seq<ParticipantView>, i: int, q: ParticipantView)
    requires
        0 <= i < ps.len(),
    ensures
        sum_tickets(ps.update(i, q)) == sum_tickets(ps) - ps[i].tickets + q.tickets,
    decreases ps.len(),
{
    if i == 0 {
        assert(ps.update(0, q).drop_first() =~= ps.drop_first());
    } else {
        assert(ps.update(i, q).drop_first() =~= ps.drop_first().update(i - 1, q));
        lemma_sum_update(ps.drop_first(), i - 1, q);
    }
}

/// A successful purchase keeps the books balanced: in a participant list
/// whose ticket counts sum to the pool's total, replacing the buyer's
/// record with its updated value makes the counts sum to the updated
/// pool's total again.
pub proof fn lemma_join_preserves_accounting(
    pool: PoolView,
    pool_key: Seq<u8>,
    q: ParticipantView,
    user: Seq<u8>,
    tickets: u64,
    pid: Seq<u8>,
    ps: Seq<ParticipantView>,
    i: int,
)
    requires
        join_outcome(pool, pool_key, q, user, tickets, pid) is Ok,
        0 <= i < ps.len(),
        ps[i] == q,
        sum_tickets(ps) == pool.total_tickets,
    ensures
        join_outcome(pool, pool_key, q, user, tickets, pid) matches Ok((p2, q2, cost))
            ==> sum_tickets(ps.update(i, q2)) == p2.total_tickets,
{
    if let Ok((p2, q2, cost)) = join_outcome(pool, pool_key, q, user, tickets, pid) {
        lemma_sum_update(ps, i, q2);
    }
}

/// Once fulfilled, the winning ticket indexes a ticket that was actually
/// sold: `0 <= winning_ticket < total_tickets`.
pub proof fn lemma_fulfilled_winning_ticket_in_range(pool: PoolView)
    requires
        pool.wf(),
        pool.status is RandomnessFulfilled || pool.status is Settled,
    ensures
        0 <= pool.winning_ticket < pool.total_tickets,
{
}

/// Once the pool has left `Open`, a purchase whose other validations
/// pass is rejected with the state error.
pub proof fn lemma_join_requires_open(
    pool: PoolView,
    pool_key: Seq<u8>,
    q: ParticipantView,
    user: Seq<u8>,
    tickets: u64,
    pid: Seq<u8>,
)
    requires
        tickets > 0,
        program_address_of(pool_seeds(pool.creator, pool.pool_id, pool.bump), pid) == Some(
            pool_key,
        ),
        !(pool.status is Open),
    ensures
        join_outcome(pool, pool_key, q, user, tickets, pid) == Err::<
            (PoolView, ParticipantView, u64),
            DrawError,
        >(DrawError::PoolNotOpen),
{
}

/// Once the pool has left `Open`, a randomness request by the creator is
/// rejected with the state error.
pub proof fn lemma_request_requires_open(
    pool: PoolView,
    pool_key: Seq<u8>,
    caller: Seq<u8>,
    pid: Seq<u8>,
)
    requires
        program_address_of(pool_seeds(pool.creator, pool.pool_id, pool.bump), pid) == Some(
            pool_key,
        ),
        pool.creator == caller,
        !(pool.status is Open),
    ensures
        request_outcome(pool, pool_key, caller, pid) == Err::<PoolView, DrawError>(
            DrawError::PoolNotOpen,
        ),
{
}

/// Once the pool has moved past `RandomnessRequested`, a fulfillment by
/// the designated authority is rejected with the state error.
pub proof fn lemma_fulfill_requires_requested(
    pool: PoolView,
    pool_key: Seq<u8>,
    authority: Seq<u8>,
    randomness: Seq<u8>,
    pid: Seq<u8>,
)
    requires
        program_address_of(pool_seeds(pool.creator, pool.pool_id, pool.bump), pid) == Some(
            pool_key,
        ),
        pool.randomness_authority == authority,
        !(pool.status is RandomnessRequested),
    ensures
        fulfill_outcome(pool, pool_key, authority, randomness, pid) == Err::<PoolView, DrawError>(
            DrawError::RandomnessNotRequested,
        ),
{
}

/// Outside `RandomnessFulfilled`, a distribution attempt by the creator
/// is rejected with the state error.
pub proof fn lemma_distribute_requires_fulfilled(
    pool: PoolView,
    pool_key: Seq<u8>,
    caller: Seq<u8>,
    ps: Seq<ParticipantView>,
    payout: Seq<u8>,
    pool_balance: u64,
    minimum_balance: u64,
    pid: Seq<u8>,
)
    requires
        program_address_of(pool_seeds(pool.creator, pool.pool_id, pool.bump), pid) == Some(
            pool_key,
        ),
        pool.creator == caller,
        !(pool.status is RandomnessFulfilled),
    ensures
        distribute_outcome(pool, pool_key, caller, ps, payout, pool_balance, minimum_balance, pid)
            == Err::<(PoolView, u64), DrawError>(DrawError::RandomnessNotFulfilled),
{
}

/// Settlement is exclusive: a settled pool rejects every further
/// distribution attempt, whatever the other inputs, so distribution can
/// succeed at most once per pool.
pub proof fn lemma_settled_pool_rejects_distribution(
    pool: PoolView,
    pool_key: Seq<u8>,
    caller: Seq<u8>,
    ps: Seq<ParticipantView>,
    payout: Seq<u8>,
    pool_balance: u64,
    minimum_balance: u64,
    pid: Seq<u8>,
)
    requires
        pool.status is Settled,
    ensures
        distribute_outcome(pool, pool_key, caller, ps, payout, pool_balance, minimum_balance, pid)
            is Err,
{
}

proof fn lemma_scan_keeps_winner(
    ps: Seq<ParticipantView>,
    pool_key: Seq<u8>,
    wt: u64,
    cum: u64,
    w: Seq<u8>,
)
    ensures
        scan_participants(ps, pool_key, wt, cum, Some(w)) matches Ok((c2, w2)) ==> w2 == Some(w),
    decreases ps.len(),
{
    if ps.len() == 0 {
    } else if ps[0].pool != pool_key {
    } else if cum + ps[0].tickets > u64::MAX {
    } else {
        let next = (cum + ps[0].tickets) as u64;
        lemma_scan_keeps_winner(ps.drop_first(), pool_key, wt, next, w);
    }
}

proof fn lemma_scan_winner_from(ps: Seq<ParticipantView>, pool_key: Seq<u8>, wt: u64, cum: u64)
    requires
        cum <= wt,
    ensures
        scan_participants(ps, pool_key, wt, cum, None) matches Ok((c2, w2)) ==> (w2 matches Some(
            w,
        ) ==> exists|i: int|
            0 <= i < ps.len() && w == ps[i].user && cum + prefix_tickets(ps, i) <= wt < cum
                + prefix_tickets(ps, i + 1)),
    decreases ps.len(),
{
    if ps.len() == 0 {
    } else if ps[0].pool != pool_key {
    } else if cum + ps[0].tickets > u64::MAX {
    } else {
        let next = (cum + ps[0].tickets) as u64;
        if wt < next {
            lemma_scan_keeps_winner(ps.drop_first(), pool_key, wt, next, ps[0].user);
            if scan_participants(ps, pool_key, wt, cum, None) is Ok {
                assert(ps.take(0) =~= Seq::<ParticipantView>::empty());
                assert(ps.take(1).drop_first() =~= Seq::<ParticipantView>::empty());
                assert(prefix_tickets(ps, 0) == 0);
                assert(prefix_tickets(ps, 1) == ps[0].tickets);
                assert(0 <= 0 < ps.len() && ps[0].user == ps[0].user && cum + prefix_tickets(
                    ps,
                    0,
                ) <= wt < cum + prefix_tickets(ps, 1));
            }
        } else {
            lemma_scan_winner_from(ps.drop_first(), pool_key, wt, next);
            let dps = ps.drop_first();
            if let Ok((c2, w2)) = scan_participants(dps, pool_key, wt, next, None) {
                if let Some(w) = w2 {
                    let j = choose|j: int|
                        0 <= j < dps.len() && w == dps[j].user && next + prefix_tickets(dps, j)
                            <= wt < next + prefix_tickets(dps, j + 1);
                    assert(ps.take(j + 1).drop_first() =~= dps.take(j));
                    assert(ps.take(j + 2).drop_first() =~= dps.take(j + 1));
                    assert(prefix_tickets(ps, j + 1) == ps[0].tickets + prefix_tickets(dps, j));
                    assert(prefix_tickets(ps, j + 2) == ps[0].tickets + prefix_tickets(
                        dps,
                        j + 1,
                    ));
                    assert(0 <= j + 1 < ps.len() && w == ps[j + 1].user && cum + prefix_tickets(
                        ps,
                        j + 1,
                    ) <= wt < cum + prefix_tickets(ps, j + 2));
                }
            }
        }
    }
}

/// First-match weighted selection: the winner that the settlement scan
/// derives is the first participant in scan order whose cumulative
/// ticket range `[prefix, prefix + tickets)` covers the winning ticket
/// index.
pub proof fn lemma_winner_covers_winning_ticket(
    ps: Seq<ParticipantView>,
    pool_key: Seq<u8>,
    wt: u64,
)
    ensures
        scan_participants(ps, pool_key, wt, 0, None) matches Ok((c2, w2)) ==> (w2 matches Some(
            w,
        ) ==> exists|i: int|
            0 <= i < ps.len() && w == ps[i].user && prefix_tickets(ps, i) <= wt < prefix_tickets(
                ps,
                i + 1,
            )),
{
    lemma_scan_winner_from(ps, pool_key, wt, 0);
}

/// A scan that ends without a winner proves the list short: the supplied
/// records' cumulative ticket count never exceeded the winning ticket
/// index.
pub proof fn lemma_no_winner_means_incomplete(
    ps: Seq<ParticipantView>,
    pool_key: Seq<u8>,
    wt: u64,
    cum: u64,
)
    requires
        cum <= wt,
    ensures
        scan_participants(ps, pool_key, wt, cum, None) matches Ok((c2, w2)) ==> (w2 is None ==> c2
            <= wt),
    decreases ps.len(),
{
    if ps.len() == 0 {
    } else if ps[0].pool != pool_key {
    } else if cum + ps[0].tickets > u64::MAX {
    } else {
        let next = (cum + ps[0].tickets) as u64;
        if wt < next {
            lemma_scan_keeps_winner(ps.drop_first(), pool_key, wt, next, ps[0].user);
        } else {
            lemma_no_winner_means_incomplete(ps.drop_first(), pool_key, wt, next);
        }
    }
}

} // verus!

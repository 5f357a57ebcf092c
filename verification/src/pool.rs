use vstd::prelude::*;
use crate::addressing::{create_program_address, build_pool_seeds, pool_seeds, program_address_of};
use crate::identity::Identity;

verus! {

/// Lifecycle states of a pool. A pool only ever moves forward along
/// `Open`, `RandomnessRequested`, `RandomnessFulfilled`, `Settled`.
#[derive(Clone, Copy, PartialEq, Eq, Structural, Debug)]
pub enum PoolStatus {
    Open,
    RandomnessRequested,
    RandomnessFulfilled,
    Settled,
}

/// The position of a status on the forward-only lifecycle path.
pub open spec fn status_order(s: PoolStatus) -> int {
    match s {
        PoolStatus::Open => 0,
        PoolStatus::RandomnessRequested => 1,
        PoolStatus::RandomnessFulfilled => 2,
        PoolStatus::Settled => 3,
    }
}

/// Why an operation was rejected. Every failure is fatal to the whole
/// operation: no record changes.
#[derive(Clone, Copy, PartialEq, Eq, Structural, Debug)]
pub enum DrawError {
    InvalidTicketPrice,
    InvalidTicketCount,
    PoolNotOpen,
    NoTicketsSold,
    RandomnessNotRequested,
    RandomnessNotFulfilled,
    InvalidRandomnessAuthority,
    ArithmeticOverflow,
    ParticipantPoolMismatch,
    UnauthorizedParticipantAccount,
    InvalidPoolSeeds,
    UnauthorizedCreator,
    ParticipantListIncomplete,
    WinnerNotFound,
    PayoutRecipientMismatch,
    InsufficientTreasury,
}

/// One raffle instance: price, aggregates, lifecycle status, randomness
/// and winner once known, and the disambiguation byte of its derived
/// address.
pub struct Pool {
    pub creator: Identity,
    pub randomness_authority: Identity,
    pub pool_id: u64,
    pub ticket_price: u64,
    pub total_tickets: u64,
    pub randomness: Vec<u8>,
    pub winning_ticket: u64,
    pub winner: Identity,
    pub status: PoolStatus,
    pub bump: u8,
}

/// The mathematical value of a pool record.
pub ghost struct PoolView {
    pub creator: Seq<u8>,
    pub randomness_authority: Seq<u8>,
    pub pool_id: u64,
    pub ticket_price: u64,
    pub total_tickets: u64,
    pub randomness: Seq<u8>,
    pub winning_ticket: u64,
    pub winner: Seq<u8>,
    pub status: PoolStatus,
    pub bump: u8,
}

impl View for Pool {
    type V = PoolView;

    open spec fn view(&self) -> PoolView {
        PoolView {
            creator: self.creator@,
            randomness_authority: self.randomness_authority@,
            pool_id: self.pool_id,
            ticket_price: self.ticket_price,
            total_tickets: self.total_tickets,
            randomness: self.randomness@,
            winning_ticket: self.winning_ticket,
            winner: self.winner@,
            status: self.status,
            bump: self.bump,
        }
    }
}

impl PoolView {
    /// Well-formedness of a pool record: identities and randomness have
    /// their fixed width, the price is positive, tickets have been sold
    /// once the pool left `Open`, and a fulfilled winning ticket indexes
    /// a sold ticket.
    pub open spec fn wf(self) -> bool {
        &&& self.creator.len() == 32
        &&& self.randomness_authority.len() == 32
        &&& self.winner.len() == 32
        &&& self.randomness.len() == 32
        &&& self.ticket_price > 0
        &&& !(self.status is Open) ==> self.total_tickets > 0
        &&& (self.status is RandomnessFulfilled || self.status is Settled)
            ==> self.winning_ticket < self.total_tickets
    }
}

/// One user's ticket holdings in one pool.
pub struct Participant {
    pub pool: Identity,
    pub user: Identity,
    pub tickets: u64,
    pub bump: u8,
}

/// The mathematical value of a participant record.
pub ghost struct ParticipantView {
    pub pool: Seq<u8>,
    pub user: Seq<u8>,
    pub tickets: u64,
    pub bump: u8,
}

impl View for Participant {
    type V = ParticipantView;

    open spec fn view(&self) -> ParticipantView {
        ParticipantView {
            pool: self.pool@,
            user: self.user@,
            tickets: self.tickets,
            bump: self.bump,
        }
    }
}

impl ParticipantView {
    pub open spec fn wf(self) -> bool {
        self.pool.len() == 32 && self.user.len() == 32
    }
}

impl Participant {
    /// A freshly allocated, still unbound participant record: all fields
    /// zero, as the storage substrate hands it out before first use.
    pub fn fresh() -> (r: Participant)
        ensures
            r@.pool == crate::identity::zero_id(),
            r@.user == crate::identity::zero_id(),
            r@.tickets == 0,
            r@.bump == 0,
            r@.wf(),
    {
        Participant {
            pool: Identity::zeroed(),
            user: Identity::zeroed(),
            tickets: 0,
            bump: 0,
        }
    }
}

/// Notification that a pool was created.
pub struct PoolCreated {
    pub pool: Identity,
    pub creator: Identity,
    pub ticket_price: u64,
    pub randomness_authority: Identity,
}

/// Notification that a user bought tickets.
pub struct Joined {
    pub pool: Identity,
    pub user: Identity,
    pub tickets_purchased: u64,
    pub total_user_tickets: u64,
    pub total_pool_tickets: u64,
    pub lamports_paid: u64,
}

/// Notification that the creator asked for randomness.
pub struct RandomnessRequested {
    pub pool: Identity,
    pub requester: Identity,
}

/// Notification that the randomness authority supplied the value.
pub struct RandomnessFulfilled {
    pub pool: Identity,
    pub winning_ticket: u64,
    pub total_tickets: u64,
}

/// Notification that the pooled funds were paid out.
pub struct RewardsDistributed {
    pub pool: Identity,
    pub winner: Identity,
    pub payout_lamports: u64,
}

impl Pool {
    /// Re-derives this pool's record address from its own stored fields
    /// and accepts only the address the caller actually used: a record
    /// substituted at the wrong address voids the operation.
    pub fn assert_seeds(&self, pool_key: &Identity, program_id: &Identity) -> (r: Result<
        (),
        DrawError,
    >)
        requires
            program_id@.len() == 32,
        ensures
            r is Ok <==> program_address_of(
                pool_seeds(self@.creator, self@.pool_id, self@.bump),
                program_id@,
            ) == Some(pool_key@),
            r is Err ==> r == Err::<(), DrawError>(DrawError::InvalidPoolSeeds),
    {
        let seeds = build_pool_seeds(&self.creator, self.pool_id, self.bump);
        match create_program_address(&seeds, program_id) {
            Some(addr) => {
                if addr.equals(pool_key) {
                    Ok(())
                } else {
                    Err(DrawError::InvalidPoolSeeds)
                }
            },
            None => Err(DrawError::InvalidPoolSeeds),
        }
    }
}

} // verus!

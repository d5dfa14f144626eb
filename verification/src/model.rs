//! The store as a mathematical value, and what each operation does to it.

use crate::ticket::{BookingStatus, Error, PayloadView, TicketView};
use vstd::prelude::*;

verus! {

/// The state of a store: the last identifier that was issued and the tickets
/// by identifier.
pub ghost struct StoreModel {
    pub last_id: u64,
    pub tickets: Map<u64, TicketView>,
}

/// One mutating call, with its arguments.
pub ghost enum Op {
    Create { payload: PayloadView, now: u64 },
    Update { id: u64, payload: PayloadView, now: u64 },
    Delete { id: u64 },
    Book { id: u64, now: u64 },
}

impl StoreModel {
    /// Every ticket carries the key it is stored under, and no key is
    /// greater than the last identifier issued.
    pub open spec fn wf(self) -> bool {
        forall|id: u64| #[trigger]
            self.tickets.dom().contains(id) ==> id <= self.last_id && self.tickets[id].id == id
    }

    /// The empty store, which has issued nothing.
    pub open spec fn empty() -> StoreModel {
        StoreModel { last_id: 0, tickets: Map::empty() }
    }

    /// Whether another identifier can be issued.
    pub open spec fn can_allocate(self) -> bool {
        self.last_id < u64::MAX
    }

    /// The ticket that a valid `create` builds.
    pub open spec fn fresh_ticket(self, payload: PayloadView, now: u64) -> TicketView {
        TicketView {
            id: (self.last_id + 1) as u64,
            concert_name: payload.concert_name,
            seat_number: payload.seat_number,
            price_bits: payload.price_bits,
            booking_status: BookingStatus::Available,
            created_at: now,
            updated_at: None,
        }
    }

    /// What `get(id)` returns: the stored ticket, or that there is none.
    pub open spec fn get_outcome(self, id: u64) -> Result<TicketView, Error> {
        if self.tickets.dom().contains(id) {
            Ok(self.tickets[id])
        } else {
            Err(Error::NotFound { id })
        }
    }

    /// What `create` returns: the fresh ticket, or the reason for which the
    /// payload is invalid.
    pub open spec fn create_outcome(self, payload: PayloadView, now: u64) -> Result<
        TicketView,
        Error,
    > {
        match payload.invalid_reason() {
            Some(reason) => Err(Error::InvalidInput { reason }),
            None => Ok(self.fresh_ticket(payload, now)),
        }
    }

    /// The state after `create`: the fresh ticket is stored under its id,
    /// which is now the last one issued. A rejected call changes nothing.
    pub open spec fn after_create(self, payload: PayloadView, now: u64) -> StoreModel {
        match self.create_outcome(payload, now) {
            Ok(t) => StoreModel { last_id: t.id, tickets: self.tickets.insert(t.id, t) },
            Err(_) => self,
        }
    }

    /// What `update` returns. The payload is judged first, then the id. The
    /// updated ticket keeps its id, its status and its time of creation.
    pub open spec fn update_outcome(self, id: u64, payload: PayloadView, now: u64) -> Result<
        TicketView,
        Error,
    > {
        match payload.invalid_reason() {
            Some(reason) => Err(Error::InvalidInput { reason }),
            None => if self.tickets.dom().contains(id) {
                Ok(
                    TicketView {
                        concert_name: payload.concert_name,
                        seat_number: payload.seat_number,
                        price_bits: payload.price_bits,
                        updated_at: Some(now),
                        ..self.tickets[id]
                    },
                )
            } else {
                Err(Error::NotFound { id })
            },
        }
    }

    /// The state after `update`: the updated ticket takes the place of the
    /// old one. A failed call changes nothing.
    pub open spec fn after_update(self, id: u64, payload: PayloadView, now: u64) -> StoreModel {
        match self.update_outcome(id, payload, now) {
            Ok(t) => StoreModel { tickets: self.tickets.insert(id, t), ..self },
            Err(_) => self,
        }
    }

    /// What `delete(id)` returns: the ticket that it removes, or that there
    /// is none.
    pub open spec fn delete_outcome(self, id: u64) -> Result<TicketView, Error> {
        self.get_outcome(id)
    }

    /// The state after `delete(id)`: nothing is stored under `id`, and the
    /// counter stays.
    pub open spec fn after_delete(self, id: u64) -> StoreModel {
        StoreModel { tickets: self.tickets.remove(id), ..self }
    }

    /// What `book(id)` returns: the ticket as booked at `now`, or that there
    /// is none, or that it was booked before.
    pub open spec fn book_outcome(self, id: u64, now: u64) -> Result<TicketView, Error> {
        if !self.tickets.dom().contains(id) {
            Err(Error::NotFound { id })
        } else if self.tickets[id].booking_status == BookingStatus::Booked {
            Err(Error::AlreadyBooked { id })
        } else {
            Ok(
                TicketView {
                    booking_status: BookingStatus::Booked,
                    updated_at: Some(now),
                    ..self.tickets[id]
                },
            )
        }
    }

    /// The state after `book`: the booked ticket takes the place of the
    /// available one. A failed call changes nothing.
    pub open spec fn after_book(self, id: u64, now: u64) -> StoreModel {
        match self.book_outcome(id, now) {
            Ok(t) => StoreModel { tickets: self.tickets.insert(id, t), ..self },
            Err(_) => self,
        }
    }

    /// Whether `op` may be called in this state: only `create` asks for
    /// something, an identifier left to issue.
    pub open spec fn admits(self, op: Op) -> bool {
        op is Create ==> self.can_allocate()
    }

    /// What `op` returns in this state.
    pub open spec fn outcome(self, op: Op) -> Result<TicketView, Error> {
        match op {
            Op::Create { payload, now } => self.create_outcome(payload, now),
            Op::Update { id, payload, now } => self.update_outcome(id, payload, now),
            Op::Delete { id } => self.delete_outcome(id),
            Op::Book { id, now } => self.book_outcome(id, now),
        }
    }

    /// The state that `op` leaves.
    pub open spec fn step(self, op: Op) -> StoreModel {
        match op {
            Op::Create { payload, now } => self.after_create(payload, now),
            Op::Update { id, payload, now } => self.after_update(id, payload, now),
            Op::Delete { id } => self.after_delete(id),
            Op::Book { id, now } => self.after_book(id, now),
        }
    }

    /// The state after the calls `ops`, made in order.
    pub open spec fn run(self, ops: Seq<Op>) -> StoreModel
        decreases ops.len(),
    {
        if ops.len() == 0 {
            self
        } else {
            self.run(ops.drop_last()).step(ops.last())
        }
    }

    /// The state in which the call `ops[i]` is made.
    pub open spec fn state_at(self, ops: Seq<Op>, i: int) -> StoreModel {
        self.run(ops.take(i))
    }

    /// What the call `ops[i]` returns.
    pub open spec fn outcome_at(self, ops: Seq<Op>, i: int) -> Result<TicketView, Error> {
        self.state_at(ops, i).outcome(ops[i])
    }

    /// Whether each call of `ops` can be made when its turn comes.
    pub open spec fn admissible(self, ops: Seq<Op>) -> bool {
        forall|i: int| 0 <= i < ops.len() ==> #[trigger] self.state_at(ops, i).admits(ops[i])
    }
}

} // verus!

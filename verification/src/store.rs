//! The ticket store: the five operations over the durable counter and map.

use crate::model::StoreModel;
use crate::allocator::IdAllocator;
use crate::stable::{
    map_get, map_init, map_insert, map_last_key, map_new, map_remove, map_rows, region,
    regions, Row, RowMap, RowView,
};
use crate::ticket::{outcome_view, BookingStatus, Error, Ticket, TicketPayload, TicketView};
use vstd::prelude::*;

verus! {

/// The ticket that the row `row` under the key `id` stands for.
pub open spec fn row_ticket(id: u64, row: RowView) -> TicketView {
    TicketView {
        id,
        concert_name: row.0,
        seat_number: row.1,
        price_bits: row.2.0,
        booking_status: if row.2.1 {
            BookingStatus::Booked
        } else {
            BookingStatus::Available
        },
        created_at: row.2.2.0,
        updated_at: if row.2.2.1 {
            Some(row.2.2.2)
        } else {
            None
        },
    }
}

/// The row that keeps the ticket `t`: all of it but the id, which is the
/// key. Where no update happened, the time of the last update is kept as 0.
pub open spec fn ticket_row(t: TicketView) -> RowView {
    (
        t.concert_name,
        t.seat_number,
        (
            t.price_bits,
            t.booking_status == BookingStatus::Booked,
            (
                t.created_at,
                t.updated_at.is_some(),
                match t.updated_at {
                    Some(at) => at,
                    None => 0,
                },
            ),
        ),
    )
}

/// A ticket that is written to a row is read back from it unchanged.
pub proof fn lemma_row_round_trip(t: TicketView)
    ensures
        row_ticket(t.id, ticket_row(t)) == t,
{
}

/// The tickets that a map of rows stands for.
pub open spec fn rows_tickets(rows: Map<u64, RowView>) -> Map<u64, TicketView> {
    Map::new(|id: u64| rows.dom().contains(id), |id: u64| row_ticket(id, rows[id]))
}

/// The row that keeps `ticket`.
pub fn to_row(ticket: &Ticket) -> (row: Row)
    ensures
        row@ == ticket_row(ticket@),
{
    let booked: bool = match ticket.booking_status {
        BookingStatus::Available => false,
        BookingStatus::Booked => true,
    };
    let (updated, updated_at): (bool, u64) = match ticket.updated_at {
        Some(at) => (true, at),
        None => (false, 0),
    };
    (
        ticket.concert_name.clone(),
        ticket.seat_number.clone(),
        (ticket.price_bits, booked, (ticket.created_at, updated, updated_at)),
    )
}

/// The ticket that `row` keeps under the key `id`.
pub fn from_row(id: u64, row: Row) -> (ticket: Ticket)
    ensures
        ticket@ == row_ticket(id, row@),
{
    let (concert_name, seat_number, rest) = row;
    let (price_bits, booked, times) = rest;
    let (created_at, updated, updated_at) = times;
    Ticket {
        id,
        concert_name,
        seat_number,
        price_bits,
        booking_status: if booked {
            BookingStatus::Booked
        } else {
            BookingStatus::Available
        },
        created_at,
        updated_at: if updated {
            Some(updated_at)
        } else {
            None
        },
    }
}

/// The region of the stable memory that keeps the identifier counter.
pub const ID_REGION: u8 = 0;

/// The region of the stable memory that keeps the tickets.
pub const TICKET_REGION: u8 = 1;

/// A store of tickets: the identifier allocator and the map of records,
/// both durable.
pub struct TicketStore {
    ids: IdAllocator,
    tickets: RowMap,
}

impl View for TicketStore {
    type V = StoreModel;

    closed spec fn view(&self) -> StoreModel {
        StoreModel {
            last_id: self.ids@,
            tickets: rows_tickets(map_rows(self.tickets)),
        }
    }
}

/// The state that a counter and a map make together.
pub open spec fn parts_model(ids: IdAllocator, tickets: RowMap) -> StoreModel {
    StoreModel { last_id: ids@, tickets: rows_tickets(map_rows(tickets)) }
}

impl TicketStore {
    /// The store's invariant: that of its model.
    pub open spec fn wf(&self) -> bool {
        self@.wf()
    }

    /// A store that starts over: no ticket, no identifier issued. Whatever
    /// the memory held before is overwritten.
    ///
    /// The store takes the stable memory for itself. Where the memory is the
    /// one of a canister, make a single store, at start, and hand it on by
    /// reference: a second one would write into the regions of the first.
    pub fn new() -> (store: TicketStore)
        ensures
            store.wf(),
            store@ == StoreModel::empty(),
    {
        let memory = regions();
        let store = TicketStore {
            ids: IdAllocator::new(region(&memory, ID_REGION)),
            tickets: map_new(region(&memory, TICKET_REGION)),
        };
        assert(store@.tickets =~= Map::<u64, TicketView>::empty());
        store
    }

    /// The store that the memory holds, as it was left; an empty one where
    /// the memory holds none. `None` where the memory holds a ticket under an
    /// identifier that the counter has not reached: such a counter and map
    /// do not belong together.
    ///
    /// As with `new`, one store is made over one memory.
    pub fn init() -> (store: Option<TicketStore>)
        ensures
            store.is_some() ==> store.unwrap().wf(),
    {
        let memory = regions();
        let ids = IdAllocator::init(region(&memory, ID_REGION));
        let tickets = map_init(region(&memory, TICKET_REGION));
        TicketStore::from_parts(ids, tickets)
    }

    /// Puts a counter and a map together, if no key of the map is greater
    /// than the counter.
    pub fn from_parts(ids: IdAllocator, tickets: RowMap) -> (store: Option<TicketStore>)
        ensures
            store.is_some() == parts_model(ids, tickets).wf(),
            store.is_some() ==> store.unwrap()@ == parts_model(ids, tickets),
    {
        let counter: u64 = ids.last_id();
        let consistent: bool = match map_last_key(&tickets) {
            Some(greatest) => greatest <= counter,
            None => true,
        };
        proof {
            let model = parts_model(ids, tickets);
            let rows = map_rows(tickets);
            assert forall|id: u64| #[trigger]
                model.tickets.dom().contains(id) == rows.dom().contains(id) by {}
            if consistent {
                assert forall|id: u64| #[trigger] model.tickets.dom().contains(id) implies id
                    <= model.last_id && model.tickets[id].id == id by {
                    assert(rows.dom().contains(id));
                }
            } else {
                assert(exists|id: u64| rows.dom().contains(id) && id > counter);
                let beyond = choose|id: u64| rows.dom().contains(id) && id > counter;
                assert(model.tickets.dom().contains(beyond));
            }
        }
        if consistent {
            Some(TicketStore { ids, tickets })
        } else {
            None
        }
    }

    /// Takes the store apart into its counter and its map.
    pub fn into_parts(self) -> (parts: (IdAllocator, RowMap))
        ensures
            parts_model(parts.0, parts.1) == self@,
    {
        (self.ids, self.tickets)
    }

    /// The last identifier that was issued; 0 where none was.
    pub fn last_id(&self) -> (id: u64)
        ensures
            id == self@.last_id,
    {
        self.ids.last_id()
    }

    fn _get_ticket(&self, id: u64) -> (found: Option<Ticket>)
        ensures
            found.is_some() == self@.tickets.dom().contains(id),
            found.is_some() ==> found.unwrap()@ == self@.tickets[id] && found.unwrap()@.fits(),
    {
        match map_get(&self.tickets, id) {
            Some(row) => Some(from_row(id, row)),
            None => None,
        }
    }

    fn do_insert(&mut self, ticket: &Ticket)
        requires
            ticket@.fits(),
        ensures
            final(self)@ == (StoreModel {
                tickets: old(self)@.tickets.insert(ticket.id, ticket@),
                ..old(self)@
            }),
    {
        let row = to_row(ticket);
        proof {
            lemma_row_round_trip(ticket@);
        }
        let _ = map_insert(&mut self.tickets, ticket.id, row);
        assert(self@.tickets =~= old(self)@.tickets.insert(ticket.id, ticket@));
    }

    /// Looks up the ticket under `id`.
    pub fn get_ticket(&self, id: u64) -> (found: Result<Ticket, Error>)
        ensures
            outcome_view(found) == self@.get_outcome(id),
    {
        match self._get_ticket(id) {
            Some(ticket) => Ok(ticket),
            None => Err(Error::NotFound { id }),
        }
    }

    /// Creates a ticket from `payload` at the time `now`. An invalid payload
    /// is rejected before an identifier is issued, so a rejected call
    /// consumes none.
    ///
    /// The caller sees to it that an identifier is left to issue, and that
    /// the texts are within what a row can keep (`TicketPayload::fits`).
    pub fn add_ticket(&mut self, payload: TicketPayload, now: u64) -> (created: Result<
        Ticket,
        Error,
    >)
        requires
            old(self).wf(),
            old(self)@.can_allocate(),
            payload@.fits(),
        ensures
            final(self).wf(),
            outcome_view(created) == old(self)@.create_outcome(payload@, now),
            final(self)@ == old(self)@.after_create(payload@, now),
            created.is_err() == payload@.invalid_reason().is_some(),
            created.is_err() ==> final(self)@ == old(self)@,
            created.is_ok() ==> created.unwrap().id == old(self)@.last_id + 1
                && !old(self)@.tickets.dom().contains(created.unwrap().id),
    {
        match payload.validate() {
            Err(reason) => Err(Error::InvalidInput { reason }),
            Ok(()) => {
                let id: u64 = self.ids.next_id();
                let ticket = Ticket {
                    id,
                    concert_name: payload.concert_name,
                    seat_number: payload.seat_number,
                    price_bits: payload.price_bits,
                    booking_status: BookingStatus::Available,
                    created_at: now,
                    updated_at: None,
                };
                self.do_insert(&ticket);
                Ok(ticket)
            },
        }
    }

    /// Replaces the caller's part of the ticket under `id` at the time `now`.
    /// The payload is checked first: an invalid one is reported even where
    /// no ticket is stored under `id`. The texts are within what a row can
    /// keep (`TicketPayload::fits`).
    pub fn update_ticket(&mut self, id: u64, payload: TicketPayload, now: u64) -> (updated: Result<
        Ticket,
        Error,
    >)
        requires
            old(self).wf(),
            payload@.fits(),
        ensures
            final(self).wf(),
            outcome_view(updated) == old(self)@.update_outcome(id, payload@, now),
            final(self)@ == old(self)@.after_update(id, payload@, now),
            payload@.invalid_reason().is_some() ==> updated.is_err(),
            updated.is_err() ==> final(self)@ == old(self)@,
    {
        match payload.validate() {
            Err(reason) => Err(Error::InvalidInput { reason }),
            Ok(()) => match self._get_ticket(id) {
                Some(mut ticket) => {
                    ticket.concert_name = payload.concert_name;
                    ticket.seat_number = payload.seat_number;
                    ticket.price_bits = payload.price_bits;
                    ticket.updated_at = Some(now);
                    self.do_insert(&ticket);
                    Ok(ticket)
                },
                None => Err(Error::NotFound { id }),
            },
        }
    }

    /// Removes the ticket under `id` and returns it. The identifier is not
    /// issued again.
    pub fn delete_ticket(&mut self, id: u64) -> (deleted: Result<Ticket, Error>)
        requires
            old(self).wf(),
        ensures
            final(self).wf(),
            outcome_view(deleted) == old(self)@.delete_outcome(id),
            final(self)@ == old(self)@.after_delete(id),
            deleted.is_err() ==> final(self)@ == old(self)@,
    {
        match map_remove(&mut self.tickets, id) {
            Some(row) => {
                assert(self@.tickets =~= old(self)@.tickets.remove(id));
                Ok(from_row(id, row))
            },
            None => {
                assert(self@.tickets =~= old(self)@.tickets);
                assert(old(self)@.tickets.remove(id) =~= old(self)@.tickets);
                Err(Error::NotFound { id })
            },
        }
    }

    /// Books the ticket under `id` at the time `now`, unless it has been
    /// booked before.
    pub fn book_ticket(&mut self, id: u64, now: u64) -> (booked: Result<Ticket, Error>)
        requires
            old(self).wf(),
        ensures
            final(self).wf(),
            outcome_view(booked) == old(self)@.book_outcome(id, now),
            final(self)@ == old(self)@.after_book(id, now),
            booked.is_err() ==> final(self)@ == old(self)@,
    {
        match self._get_ticket(id) {
            Some(mut ticket) => {
                match ticket.booking_status {
                    BookingStatus::Available => {
                        ticket.booking_status = BookingStatus::Booked;
                        ticket.updated_at = Some(now);
                        self.do_insert(&ticket);
                        Ok(ticket)
                    },
                    BookingStatus::Booked => Err(Error::AlreadyBooked { id }),
                }
            },
            None => Err(Error::NotFound { id }),
        }
    }
}

} // verus!

//! What holds of every run of the store, proved over its model.

use crate::model::{Op, StoreModel};
use crate::ticket::{BookingStatus, Error, PayloadView, TicketView};
use vstd::prelude::*;

verus! {

/// One call never lowers the counter.
pub proof fn lemma_step_counter(s: StoreModel, op: Op)
    requires
        s.admits(op),
    ensures
        s.last_id <= s.step(op).last_id,
        op is Create && s.outcome(op) is Ok ==> s.outcome(op)->Ok_0.id == s.last_id + 1
            && s.step(op).last_id == s.last_id + 1,
{
}

/// One call keeps the invariant.
pub proof fn lemma_step_wf(s: StoreModel, op: Op)
    requires
        s.wf(),
        s.admits(op),
    ensures
        s.step(op).wf(),
{
}

/// The state in which a call is made is the one that the call before it left.
pub proof fn lemma_state_at_unfolds(s: StoreModel, ops: Seq<Op>, j: int)
    requires
        0 <= j <= ops.len(),
    ensures
        j == 0 ==> s.state_at(ops, j) == s,
        j > 0 ==> s.state_at(ops, j) == s.state_at(ops, j - 1).step(ops[j - 1]),
{
    if j > 0 {
        assert(ops.take(j).drop_last() =~= ops.take(j - 1));
        assert(ops.take(j).last() == ops[j - 1]);
    }
}

/// Between two points of a run the counter does not fall.
pub proof fn lemma_counter_never_falls(s: StoreModel, ops: Seq<Op>, i: int, j: int)
    requires
        s.admissible(ops),
        0 <= i <= j <= ops.len(),
    ensures
        s.state_at(ops, i).last_id <= s.state_at(ops, j).last_id,
    decreases j - i,
{
    if i < j {
        lemma_counter_never_falls(s, ops, i, j - 1);
        lemma_state_at_unfolds(s, ops, j);
        assert(s.state_at(ops, j - 1).admits(ops[j - 1]));
        lemma_step_counter(s.state_at(ops, j - 1), ops[j - 1]);
    }
}

/// The invariant holds at every point of a run that starts from a state
/// in which it holds.
pub proof fn lemma_run_keeps_wf(s: StoreModel, ops: Seq<Op>, j: int)
    requires
        s.wf(),
        s.admissible(ops),
        0 <= j <= ops.len(),
    ensures
        s.state_at(ops, j).wf(),
    decreases j,
{
    lemma_state_at_unfolds(s, ops, j);
    if j > 0 {
        lemma_run_keeps_wf(s, ops, j - 1);
        assert(s.state_at(ops, j - 1).admits(ops[j - 1]));
        lemma_step_wf(s.state_at(ops, j - 1), ops[j - 1]);
    }
}

/// Reading changes nothing: what `get` returns is a function of the state
/// alone, and a call that fails leaves the state, and so every later `get`,
/// as it was.
pub proof fn law_failed_call_keeps_reads(s: StoreModel, op: Op, id: u64)
    requires
        s.outcome(op) is Err,
    ensures
        s.step(op) == s,
        s.step(op).get_outcome(id) == s.get_outcome(id),
{
    match op {
        Op::Delete { id: gone } => {
            assert(s.tickets.remove(gone) =~= s.tickets);
        },
        _ => {},
    }
}

/// Identifiers are issued in strictly increasing order: of two successful
/// `create` calls in one run, whatever is called between them, the later
/// returns the greater id. So no two of them return the same id.
pub proof fn law_created_ids_increase(s: StoreModel, ops: Seq<Op>, i: int, j: int)
    requires
        s.admissible(ops),
        0 <= i < j < ops.len(),
        ops[i] is Create,
        ops[j] is Create,
        s.outcome_at(ops, i) is Ok,
        s.outcome_at(ops, j) is Ok,
    ensures
        s.outcome_at(ops, i)->Ok_0.id < s.outcome_at(ops, j)->Ok_0.id,
{
    assert(s.state_at(ops, i).admits(ops[i]));
    assert(s.state_at(ops, j).admits(ops[j]));
    lemma_step_counter(s.state_at(ops, i), ops[i]);
    lemma_step_counter(s.state_at(ops, j), ops[j]);
    lemma_state_at_unfolds(s, ops, i + 1);
    lemma_counter_never_falls(s, ops, i + 1, j);
}

/// An identifier is never issued twice: once `delete(id)` has removed a
/// ticket, no later `create` of the run returns `id`.
pub proof fn law_deleted_id_not_reissued(s: StoreModel, ops: Seq<Op>, i: int, j: int, id: u64)
    requires
        s.wf(),
        s.admissible(ops),
        0 <= i < j < ops.len(),
        ops[i] == (Op::Delete { id }),
        s.outcome_at(ops, i) is Ok,
        ops[j] is Create,
        s.outcome_at(ops, j) is Ok,
    ensures
        s.outcome_at(ops, j)->Ok_0.id > id,
{
    lemma_run_keeps_wf(s, ops, i);
    assert(s.state_at(ops, i).tickets.dom().contains(id));
    lemma_counter_never_falls(s, ops, i, j);
    assert(s.state_at(ops, j).admits(ops[j]));
    lemma_step_counter(s.state_at(ops, j), ops[j]);
}

/// An invalid payload is always rejected, by `create` and by `update`, with
/// the reason of its first failing check, and the state stays as it was.
pub proof fn law_invalid_payload_rejected(s: StoreModel, id: u64, payload: PayloadView, now: u64)
    requires
        !payload.is_valid(),
    ensures
        s.create_outcome(payload, now) is Err,
        s.create_outcome(payload, now)->Err_0 == (Error::InvalidInput {
            reason: payload.invalid_reason().unwrap(),
        }),
        s.update_outcome(id, payload, now) == s.create_outcome(payload, now),
        s.after_create(payload, now) == s,
        s.after_update(id, payload, now) == s,
{
}

/// What `create` and `update` accept is valid, and the ticket they return
/// carries the payload as it was given.
pub proof fn law_accepted_payload_is_valid(s: StoreModel, id: u64, payload: PayloadView, now: u64)
    ensures
        s.create_outcome(payload, now) is Ok ==> payload.is_valid() && carries(
            s.create_outcome(payload, now)->Ok_0,
            payload,
        ),
        s.update_outcome(id, payload, now) is Ok ==> payload.is_valid() && carries(
            s.update_outcome(id, payload, now)->Ok_0,
            payload,
        ),
{
}

/// Whether the ticket `t` holds the three fields of `payload`.
pub open spec fn carries(t: TicketView, payload: PayloadView) -> bool {
    t.concert_name == payload.concert_name && t.seat_number == payload.seat_number
        && t.price_bits == payload.price_bits
}

/// A ticket keeps its id and its time of creation through every run that
/// does not delete it.
pub proof fn law_identity_is_kept(s: StoreModel, ops: Seq<Op>, id: u64, j: int)
    requires
        s.wf(),
        s.admissible(ops),
        s.tickets.dom().contains(id),
        forall|i: int| 0 <= i < ops.len() ==> #[trigger] ops[i] != (Op::Delete { id }),
        0 <= j <= ops.len(),
    ensures
        s.state_at(ops, j).tickets.dom().contains(id),
        s.state_at(ops, j).tickets[id].id == id,
        s.state_at(ops, j).tickets[id].created_at == s.tickets[id].created_at,
    decreases j,
{
    lemma_state_at_unfolds(s, ops, j);
    if j > 0 {
        law_identity_is_kept(s, ops, id, j - 1);
        lemma_run_keeps_wf(s, ops, j - 1);
        assert(s.state_at(ops, j - 1).admits(ops[j - 1]));
        assert(ops[j - 1] != (Op::Delete { id }));
    }
}

/// Whether the ticket under `id` is there and booked.
pub open spec fn is_booked(s: StoreModel, id: u64) -> bool {
    s.tickets.dom().contains(id) && s.tickets[id].booking_status == BookingStatus::Booked
}

/// Booking is one-way: a booked ticket stays booked through every run that
/// does not delete it, and each `book` of it in such a run is refused with
/// `AlreadyBooked`.
pub proof fn law_booked_stays_booked(s: StoreModel, ops: Seq<Op>, id: u64, j: int)
    requires
        s.wf(),
        s.admissible(ops),
        is_booked(s, id),
        forall|i: int| 0 <= i < ops.len() ==> #[trigger] ops[i] != (Op::Delete { id }),
        0 <= j <= ops.len(),
    ensures
        is_booked(s.state_at(ops, j), id),
        j < ops.len() && ops[j] is Book && ops[j]->Book_id == id ==> s.outcome_at(ops, j) is Err
            && s.outcome_at(ops, j)->Err_0 == (Error::AlreadyBooked { id }),
    decreases j,
{
    lemma_state_at_unfolds(s, ops, j);
    if j > 0 {
        law_booked_stays_booked(s, ops, id, j - 1);
        lemma_run_keeps_wf(s, ops, j - 1);
        assert(s.state_at(ops, j - 1).admits(ops[j - 1]));
        assert(ops[j - 1] != (Op::Delete { id }));
    }
}

} // verus!

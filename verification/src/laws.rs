//! What holds of every run of the service.
//!
//! A run is a sequence of stores joined by operations: each operation,
//! answered by some reply, takes one store to the next as
//! [`Store::step`] says. The executable operations promise exactly such
//! steps, so what is proved here of runs holds of every use of the service.

use crate::codec::{fits, law_decode_inverts_encode};
use crate::project::{Error, ProjectModel};
use crate::service::{Operation, Store};
use vstd::prelude::*;

verus! {

/// An operation together with the reply it got.
pub struct Event {
    pub op: Operation,
    pub reply: Result<ProjectModel, Error>,
}

impl Event {
    /// Whether the event is a creation that succeeded.
    pub open spec fn created(self) -> bool {
        self.op is Create && self.reply is Ok
    }

    /// Whether the event is a contribution to `id` that succeeded.
    pub open spec fn contributed_to(self, id: u64) -> bool {
        self.op matches Operation::Contribute { id: target, .. } && target == id
            && self.reply is Ok
    }

    /// Whether the event is a deletion of `id` that succeeded.
    pub open spec fn deleted(self, id: u64) -> bool {
        self.op matches Operation::Delete { id: target } && target == id && self.reply is Ok
    }

    /// Whether the event reads, updates, contributes to or deletes `id`.
    pub open spec fn addresses(self, id: u64) -> bool {
        match self.op {
            Operation::Read { id: target } => target == id,
            Operation::Update { id: target, .. } => target == id,
            Operation::Contribute { id: target, .. } => target == id,
            Operation::Delete { id: target } => target == id,
            _ => false,
        }
    }
}

/// Whether `events` lead through `states`, from the first to the last.
pub open spec fn is_run(states: Seq<Store>, events: Seq<Event>) -> bool {
    &&& states.len() == events.len() + 1
    &&& forall|k: int|
        0 <= k < events.len() ==> states[k].step(
            (#[trigger] events[k]).op,
            events[k].reply,
            states[k + 1],
        )
}

/// A project that fits is read back as it was written, and writing it
/// disturbs no other project.
pub proof fn law_written_project_is_read_back(s: Store, p: ProjectModel, other: u64)
    requires
        fits(p),
    ensures
        s.with(p).read(p.id) == Ok::<ProjectModel, Error>(p),
        other != p.id ==> s.with(p).read(other) == s.read(other),
{
    law_decode_inverts_encode(p);
}

/// Durability, step by step: what an operation reports stored is what a read
/// then gives, what it reports deleted is not found, and a restart changes
/// nothing, neither the records nor the next identifier.
pub proof fn law_reported_changes_are_observed(
    pre: Store,
    op: Operation,
    reply: Result<ProjectModel, Error>,
    next: Store,
)
    requires
        pre.step(op, reply, next),
    ensures
        (op is Create || op is Update || op is Contribute) ==> (reply matches Ok(p) ==> next.read(
            p.id,
        ) == reply),
        op matches Operation::Delete { id } ==> (reply is Ok ==> next.read(id) == Err::<
            ProjectModel,
            Error,
        >(Error::NotFound { id })),
        op is Restart ==> next == pre,
{
    if reply is Ok && !(op is Read) && !(op is Delete) && !(op is Restart) {
        law_written_project_is_read_back(pre, reply->Ok_0, 0);
    }
}

/// Not found, step by step: reading, updating, contributing to or deleting
/// an identifier under which nothing is stored gives `NotFound` with that
/// identifier and changes nothing.
pub proof fn law_absent_id_is_not_found(
    pre: Store,
    event: Event,
    next: Store,
    id: u64,
)
    requires
        pre.step(event.op, event.reply, next),
        event.addresses(id),
        !pre.records.dom().contains(id),
    ensures
        event.reply == Err::<ProjectModel, Error>(Error::NotFound { id }),
        next == pre,
{
}

/// In a well-formed store nothing is stored under an identifier that has
/// not been minted, so every operation on it gives `NotFound` and changes
/// nothing.
pub proof fn law_unissued_id_is_not_found(pre: Store, event: Event, next: Store, id: u64)
    requires
        pre.well_formed(),
        pre.step(event.op, event.reply, next),
        event.addresses(id),
        id >= pre.next_id,
    ensures
        event.reply == Err::<ProjectModel, Error>(Error::NotFound { id }),
        next == pre,
{
    law_absent_id_is_not_found(pre, event, next, id);
}

/// Field isolation: an update that succeeds returns the stored project with
/// title, description, goal and time of last change replaced, and nothing
/// else: identifier, creator, amount raised and time of creation are the
/// stored ones. The next identifier and all other projects stay as well.
pub proof fn law_update_keeps_what_is_not_editable(
    pre: Store,
    event: Event,
    next: Store,
    other: u64,
)
    requires
        pre.step(event.op, event.reply, next),
        event.op is Update,
        event.reply is Ok,
    ensures
        ({
            let id = event.op->Update_id;
            let p = event.reply->Ok_0;
            &&& pre.read(id) matches Ok(stored) && {
                &&& p.id == stored.id
                &&& p.id == id
                &&& p.creator == stored.creator
                &&& p.raised_amount == stored.raised_amount
                &&& p.created_at == stored.created_at
            }
            &&& next.read(id) == event.reply
            &&& next.next_id == pre.next_id
            &&& other != id ==> next.read(other) == pre.read(other)
        }),
{
    law_written_project_is_read_back(pre, event.reply->Ok_0, other);
}

/// Every step takes a well-formed store to a well-formed store.
pub proof fn law_step_keeps_well_formed(
    pre: Store,
    op: Operation,
    reply: Result<ProjectModel, Error>,
    next: Store,
)
    requires
        pre.well_formed(),
        pre.step(op, reply, next),
    ensures
        next.well_formed(),
{
    assert forall|id: u64| #[trigger] next.records.dom().contains(id) implies id < next.next_id
        && next.read(id) is Ok by {
        if reply is Ok && !(op is Read) && !(op is Delete) && !(op is Restart) {
            law_written_project_is_read_back(pre, reply->Ok_0, id);
        }
    }
}

/// Every store of a run that starts well-formed is well-formed.
pub proof fn law_run_keeps_well_formed(states: Seq<Store>, events: Seq<Event>, k: int)
    requires
        is_run(states, events),
        states[0].well_formed(),
        0 <= k < states.len(),
    ensures
        states[k].well_formed(),
    decreases k,
{
    if k > 0 {
        law_run_keeps_well_formed(states, events, k - 1);
        let e = events[k - 1];
        law_step_keeps_well_formed(states[k - 1], e.op, e.reply, states[k]);
    }
}

/// The next identifier never goes down in a run, and a creation that
/// succeeds takes it past the identifier it gave out.
pub proof fn law_next_id_never_decreases(states: Seq<Store>, events: Seq<Event>, i: int, j: int)
    requires
        is_run(states, events),
        0 <= i <= j < states.len(),
    ensures
        states[i].next_id <= states[j].next_id,
        i < j && events[i].created() ==> events[i].reply->Ok_0.id < states[j].next_id,
    decreases j - i,
{
    if i < j {
        law_next_id_never_decreases(states, events, i, j - 1);
        let e = events[j - 1];
        assert(states[j - 1].step(e.op, e.reply, states[j]));
        let first = events[i];
        assert(states[i].step(first.op, first.reply, states[i + 1]));
        if i + 1 < j {
            law_next_id_never_decreases(states, events, i + 1, j);
        }
    }
}

/// A creation that succeeds gives out the identifier the store has next,
/// and leaves the store with the identifier after it as the next one.
pub proof fn law_creation_mints_the_next_id(pre: Store, event: Event, next: Store)
    requires
        pre.step(event.op, event.reply, next),
        event.created(),
    ensures
        event.reply->Ok_0.id == pre.next_id,
        next.next_id == pre.next_id + 1,
{
}

/// An identifier is reserved for good before it is given out: from a
/// creation that succeeds on, in every later store of the run, whatever
/// happens in between, restarts included, the next identifier lies past the
/// one given out. So a later creation that succeeds gives out a greater one.
pub proof fn law_created_id_stays_reserved(
    states: Seq<Store>,
    events: Seq<Event>,
    i: int,
    j: int,
)
    requires
        is_run(states, events),
        0 <= i < j < states.len(),
        events[i].created(),
    ensures
        events[i].reply->Ok_0.id < states[j].next_id,
        j < events.len() && events[j].created() ==> events[i].reply->Ok_0.id
            < events[j].reply->Ok_0.id,
{
    law_next_id_never_decreases(states, events, i, j);
    if j < events.len() {
        let e = events[j];
        assert(states[j].step(e.op, e.reply, states[j + 1]));
    }
}

/// Identifiers are unique: two creations of one run that succeed give
/// different identifiers, whatever else happens between them, restarts
/// included.
pub proof fn law_created_ids_are_distinct(states: Seq<Store>, events: Seq<Event>, i: int, j: int)
    requires
        is_run(states, events),
        0 <= i < j < events.len(),
        events[i].created(),
        events[j].created(),
    ensures
        events[i].reply->Ok_0.id != events[j].reply->Ok_0.id,
{
    law_next_id_never_decreases(states, events, i, j);
    let e = events[j];
    assert(states[j].step(e.op, e.reply, states[j + 1]));
}

/// A creation never takes the place of a project that is stored: in a
/// well-formed store the identifier it gives out is free.
pub proof fn law_created_id_is_free(pre: Store, event: Event, next: Store)
    requires
        pre.well_formed(),
        pre.step(event.op, event.reply, next),
        event.created(),
    ensures
        !pre.records.dom().contains(event.reply->Ok_0.id),
{
}

/// Whether, in `s`, the project under `id` has raised at least `floor`, if
/// it is still there, and `id` has been minted.
pub open spec fn raised_at_least(s: Store, id: u64, floor: u64) -> bool {
    &&& id < s.next_id
    &&& s.records.dom().contains(id) ==> (s.read(id) matches Ok(p) && p.raised_amount >= floor)
}

proof fn lemma_step_keeps_raised_at_least(
    pre: Store,
    op: Operation,
    reply: Result<ProjectModel, Error>,
    next: Store,
    id: u64,
    floor: u64,
)
    requires
        pre.step(op, reply, next),
        raised_at_least(pre, id, floor),
    ensures
        raised_at_least(next, id, floor),
{
    if reply is Ok && !(op is Read) && !(op is Delete) && !(op is Restart) {
        law_written_project_is_read_back(pre, reply->Ok_0, id);
    }
}

proof fn lemma_run_keeps_raised_at_least(
    states: Seq<Store>,
    events: Seq<Event>,
    i: int,
    j: int,
    id: u64,
    floor: u64,
)
    requires
        is_run(states, events),
        0 <= i <= j < states.len(),
        raised_at_least(states[i], id, floor),
    ensures
        raised_at_least(states[j], id, floor),
    decreases j - i,
{
    if i < j {
        lemma_run_keeps_raised_at_least(states, events, i, j - 1, id, floor);
        let e = events[j - 1];
        lemma_step_keeps_raised_at_least(states[j - 1], e.op, e.reply, states[j], id, floor);
    }
}

/// Monotonicity: in a run that starts well-formed, of two contributions to
/// one project that succeed the later one reports at least as much raised
/// as the earlier one.
pub proof fn law_raised_amount_never_decreases(
    states: Seq<Store>,
    events: Seq<Event>,
    i: int,
    j: int,
    id: u64,
)
    requires
        is_run(states, events),
        states[0].well_formed(),
        0 <= i < j < events.len(),
        events[i].contributed_to(id),
        events[j].contributed_to(id),
    ensures
        events[i].reply->Ok_0.raised_amount <= events[j].reply->Ok_0.raised_amount,
{
    let first = events[i];
    let floor = first.reply->Ok_0.raised_amount;
    law_run_keeps_well_formed(states, events, i);
    assert(states[i].step(first.op, first.reply, states[i + 1]));
    law_written_project_is_read_back(states[i], first.reply->Ok_0, id);
    assert(raised_at_least(states[i + 1], id, floor));
    lemma_run_keeps_raised_at_least(states, events, i + 1, j, id, floor);
    let last = events[j];
    assert(states[j].step(last.op, last.reply, states[j + 1]));
}

/// Whether, in `s`, nothing is stored under `id` although `id` has been
/// minted.
pub open spec fn gone(s: Store, id: u64) -> bool {
    id < s.next_id && !s.records.dom().contains(id)
}

proof fn lemma_run_keeps_gone(states: Seq<Store>, events: Seq<Event>, i: int, j: int, id: u64)
    requires
        is_run(states, events),
        0 <= i <= j < states.len(),
        gone(states[i], id),
    ensures
        gone(states[j], id),
    decreases j - i,
{
    if i < j {
        lemma_run_keeps_gone(states, events, i, j - 1, id);
        let e = events[j - 1];
        assert(states[j - 1].step(e.op, e.reply, states[j]));
    }
}

/// A deleted project stays deleted: in a run that starts well-formed, every
/// operation on an identifier after its deletion gives `NotFound` and
/// changes nothing, and no creation gives that identifier out again.
pub proof fn law_deleted_id_is_not_found(
    states: Seq<Store>,
    events: Seq<Event>,
    i: int,
    j: int,
    id: u64,
)
    requires
        is_run(states, events),
        states[0].well_formed(),
        0 <= i < j < events.len(),
        events[i].deleted(id),
    ensures
        events[j].addresses(id) ==> events[j].reply == Err::<ProjectModel, Error>(
            Error::NotFound { id },
        ) && states[j + 1] == states[j],
        events[j].created() ==> events[j].reply->Ok_0.id != id,
{
    let first = events[i];
    law_run_keeps_well_formed(states, events, i);
    assert(states[i].step(first.op, first.reply, states[i + 1]));
    assert(gone(states[i + 1], id));
    lemma_run_keeps_gone(states, events, i + 1, j, id);
    let last = events[j];
    assert(states[j].step(last.op, last.reply, states[j + 1]));
}

} // verus!

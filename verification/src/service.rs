//! The project service: create, read, update, contribute and delete.
//!
//! The service owns a durable counter and a durable map. What they hold
//! together is a [`Store`]. Each operation is one step from the store before
//! it to the store after it, and either completes or leaves the store as it
//! was.

use crate::codec::{decode_record, encode_record, fits};
use crate::counter::{opening_value, DurableCounter};
use crate::project::{reply_view, Error, PayloadModel, Project, ProjectModel, ProjectPayload};
use crate::records::{lookup, opening_entries, DurableMap};
use crate::segments::{SegmentAllocator, SegmentName};
use crate::storage::{bounded, segment_index, stored_entries, stored_value, SegmentMemory};
use vstd::prelude::*;

verus! {

/// What the service holds, as mathematics.
pub struct Store {
    /// The identifier that the next project gets.
    pub next_id: u64,
    /// The encoded records, each under the identifier of its project.
    pub records: Map<u64, Seq<u8>>,
}

/// The project that `bytes`, filed under `id`, stand for. Bytes that do not
/// decode, or that decode to a project with another identifier, are corrupt.
pub open spec fn record_at(id: u64, bytes: Seq<u8>) -> Result<ProjectModel, Error> {
    match decode_record(bytes) {
        Some(p) => if p.id == id {
            Ok(p)
        } else {
            Err(Error::DecodeCorruption)
        },
        None => Err(Error::DecodeCorruption),
    }
}

/// The project that a creation at time `now` makes of `payload`.
pub open spec fn created(id: u64, payload: PayloadModel, now: u64) -> ProjectModel {
    ProjectModel {
        id,
        title: payload.title,
        description: payload.description,
        goal_amount: payload.goal_amount,
        raised_amount: 0,
        creator: payload.creator,
        created_at: now,
        updated_at: None,
    }
}

/// The project that an update at time `now` makes of `p`: title, description
/// and goal come from `payload`, everything else stays.
pub open spec fn updated(p: ProjectModel, payload: PayloadModel, now: u64) -> ProjectModel {
    ProjectModel {
        title: payload.title,
        description: payload.description,
        goal_amount: payload.goal_amount,
        updated_at: Some(now),
        ..p
    }
}

/// The project that a contribution of `amount` at time `now` makes of `p`.
pub open spec fn contributed(p: ProjectModel, amount: u64, now: u64) -> ProjectModel {
    ProjectModel {
        raised_amount: (p.raised_amount + amount) as u64,
        updated_at: Some(now),
        ..p
    }
}

/// What a caller can ask of the service, with its arguments taken as
/// mathematics.
pub enum Operation {
    Create { payload: PayloadModel, now: u64 },
    Read { id: u64 },
    Update { id: u64, payload: PayloadModel, now: u64 },
    Contribute { id: u64, amount: u64, now: u64 },
    Delete { id: u64 },
    /// The service is opened anew from stable memory.
    Restart,
}

impl Store {
    /// What reading `id` gives.
    pub open spec fn read(self, id: u64) -> Result<ProjectModel, Error> {
        match lookup(self.records, id) {
            Some(bytes) => record_at(id, bytes),
            None => Err(Error::NotFound { id }),
        }
    }

    /// The store with the encoding of `p` filed under the identifier of `p`.
    pub open spec fn with(self, p: ProjectModel) -> Store {
        Store { records: self.records.insert(p.id, encode_record(p)), ..self }
    }

    /// The store with nothing filed under `id`.
    pub open spec fn without(self, id: u64) -> Store {
        Store { records: self.records.remove(id), ..self }
    }

    /// The store after one identifier has been minted.
    pub open spec fn minted(self) -> Store {
        Store { next_id: (self.next_id + 1) as u64, ..self }
    }

    /// The store after an operation that writes back the project it
    /// returns: on failure nothing is written.
    pub open spec fn after(self, reply: Result<ProjectModel, Error>) -> Store {
        match reply {
            Ok(p) => self.with(p),
            Err(_) => self,
        }
    }

    /// What a creation gives where stable memory takes the writes. The one
    /// other outcome of a creation is `StorageFatal`.
    pub open spec fn create(self, payload: PayloadModel, now: u64) -> Result<ProjectModel, Error> {
        let p = created(self.next_id, payload, now);
        if !fits(p) {
            Err(Error::OversizedRecord)
        } else if self.next_id == u64::MAX {
            Err(Error::StorageFatal)
        } else {
            Ok(p)
        }
    }

    /// What an update gives.
    pub open spec fn update(self, id: u64, payload: PayloadModel, now: u64) -> Result<
        ProjectModel,
        Error,
    > {
        match self.read(id) {
            Ok(p) => if fits(updated(p, payload, now)) {
                Ok(updated(p, payload, now))
            } else {
                Err(Error::OversizedRecord)
            },
            Err(e) => Err(e),
        }
    }

    /// What a contribution gives.
    pub open spec fn contribute(self, id: u64, amount: u64, now: u64) -> Result<
        ProjectModel,
        Error,
    > {
        match self.read(id) {
            Ok(p) => if p.raised_amount + amount > u64::MAX {
                Err(Error::AmountOverflow)
            } else if fits(contributed(p, amount, now)) {
                Ok(contributed(p, amount, now))
            } else {
                Err(Error::OversizedRecord)
            },
            Err(e) => Err(e),
        }
    }

    /// Whether `op`, answered by `reply`, takes this store to `next`. This is
    /// the whole of what the service does: every operation below promises
    /// its own case of it.
    pub open spec fn step(self, op: Operation, reply: Result<ProjectModel, Error>, next: Store) -> bool {
        match op {
            Operation::Create { payload, now } => match reply {
                Ok(p) => self.create(payload, now) == Ok::<ProjectModel, Error>(p) && next
                    == self.with(p).minted(),
                Err(e) => next == self && match self.create(payload, now) {
                    Ok(_) => e == Error::StorageFatal,
                    Err(expected) => e == expected,
                },
            },
            Operation::Read { id } => reply == self.read(id) && next == self,
            Operation::Update { id, payload, now } => reply == self.update(id, payload, now)
                && next == self.after(reply),
            Operation::Contribute { id, amount, now } => reply == self.contribute(id, amount, now)
                && next == self.after(reply),
            Operation::Delete { id } => reply == self.read(id) && next == if reply is Ok {
                self.without(id)
            } else {
                self
            },
            Operation::Restart => next == self,
        }
    }

    /// Whether the store is one that creations alone could have filled:
    /// every record is the encoding of a project, filed under that project's
    /// identifier, and every identifier in use has been minted.
    pub open spec fn well_formed(self) -> bool {
        forall|id: u64| #[trigger]
            self.records.dom().contains(id) ==> id < self.next_id && self.read(id) is Ok
    }
}

/// The store that a service opens with where its counter is kept in the
/// segment `counter` and its records in the segment `records`: what the two
/// segments hold, and for a segment that holds nothing yet, the identifier 0
/// and no records.
pub open spec fn opening_store(counter: SegmentMemory, records: SegmentMemory) -> Store {
    Store {
        next_id: opening_value(stored_value(counter)),
        records: opening_entries(stored_entries(records)),
    }
}

/// The durable store of projects.
pub struct ProjectService {
    counter: DurableCounter,
    records: DurableMap,
}

impl View for ProjectService {
    type V = Store;

    closed spec fn view(&self) -> Store {
        Store { next_id: self.counter.value(), records: self.records@ }
    }
}

impl ProjectService {
    /// A service over the given counter and map.
    pub fn new(counter: DurableCounter, records: DurableMap) -> (r: ProjectService)
        ensures
            r@ == (Store { next_id: counter.value(), records: records@ }),
    {
        ProjectService { counter, records }
    }

    /// Opens the service on the default stable memory, with the counter in
    /// the segment of [`SegmentName::Counter`] and the records in that of
    /// [`SegmentName::Records`]. The store is what those segments held; on
    /// memory that held nothing it is empty, and the first identifier is 0.
    ///
    /// On a canister the default memory is the canister's one stable memory,
    /// so open the service once per process: two services opened on it would
    /// write to the same segments, and neither would see what the other
    /// wrote.
    pub fn init() -> (r: Result<ProjectService, Error>)
        ensures
            match r {
                Ok(service) => {
                    &&& bounded(service@.records)
                    &&& exists|counter: SegmentMemory, records: SegmentMemory|
                        {
                            &&& segment_index(counter) == SegmentName::Counter.spec_index()
                            &&& segment_index(records) == SegmentName::Records.spec_index()
                            &&& service@ == #[trigger] opening_store(counter, records)
                        }
                },
                Err(e) => e == Error::StorageFatal,
            },
    {
        let mut segments = SegmentAllocator::init();
        let counter_memory = segments.take(SegmentName::Counter);
        let records_memory = segments.take(SegmentName::Records);
        match (counter_memory, records_memory) {
            (Some(counter_memory), Some(records_memory)) => {
                let ghost counter_segment = counter_memory;
                let ghost records_segment = records_memory;
                match DurableCounter::init(counter_memory) {
                    Ok(counter) => {
                        let service = ProjectService {
                            counter,
                            records: DurableMap::init(records_memory),
                        };
                        assert(service@ == opening_store(counter_segment, records_segment));
                        Ok(service)
                    },
                    Err(e) => Err(e),
                }
            },
            _ => Err(Error::StorageFatal),
        }
    }

    /// The identifier that the next project gets.
    pub fn next_id(&self) -> (r: u64)
        ensures
            r == self@.next_id,
    {
        self.counter.current()
    }

    /// The number of projects in the store.
    pub fn len(&self) -> (r: u64)
        ensures
            self@.records.dom().finite(),
            r == self@.records.dom().len(),
    {
        self.records.len()
    }

    /// The project stored under `id`, or `None` where there is none.
    pub fn _get_project(&self, id: &u64) -> (r: Result<Option<Project>, Error>)
        ensures
            match self@.read(*id) {
                Ok(p) => r matches Ok(Some(q)) && q@ == p,
                Err(Error::NotFound { .. }) => r matches Ok(None),
                Err(e) => r matches Err(f) && f == e,
            },
    {
        match self.records.get(*id) {
            None => Ok(None),
            Some(bytes) => {
                match Project::from_bytes(bytes.as_slice()) {
                    Ok(project) => {
                        if project.id == *id {
                            Ok(Some(project))
                        } else {
                            Err(Error::DecodeCorruption)
                        }
                    },
                    Err(e) => Err(e),
                }
            },
        }
    }

    /// Files the encoding of `project` under its identifier, in place of
    /// whatever was there. A project too large to encode is refused, and
    /// nothing changes.
    pub fn do_insert(&mut self, project: &Project) -> (r: Result<(), Error>)
        ensures
            match r {
                Ok(_) => fits(project@) && final(self)@ == old(self)@.with(project@),
                Err(e) => {
                    &&& !fits(project@)
                    &&& e == Error::OversizedRecord
                    &&& final(self)@ == old(self)@
                },
            },
    {
        match project.to_bytes() {
            Ok(bytes) => {
                match self.records.insert(project.id, bytes.as_slice()) {
                    Ok(_) => Ok(()),
                    Err(e) => Err(e),
                }
            },
            Err(e) => Err(e),
        }
    }

    /// Reads the project stored under `id`. Nothing changes.
    pub fn get_project(&self, id: u64) -> (r: Result<Project, Error>)
        ensures
            self@.step(Operation::Read { id }, reply_view(r), self@),
    {
        match self._get_project(&id) {
            Ok(Some(project)) => Ok(project),
            Ok(None) => Err(Error::NotFound { id }),
            Err(e) => Err(e),
        }
    }

    /// Creates a project from `payload` at time `now`: mints its identifier,
    /// then stores it with nothing raised and no update yet. A payload too
    /// large to store is refused before anything is written, and so is every
    /// creation once the identifiers are used up. If stable memory refuses
    /// the new counter value, nothing is stored and no identifier is lost.
    pub fn add_project(&mut self, payload: ProjectPayload, now: u64) -> (r: Result<Project, Error>)
        ensures
            old(self)@.step(
                Operation::Create { payload: payload@, now },
                reply_view(r),
                final(self)@,
            ),
    {
        let project = Project {
            id: self.counter.current(),
            title: payload.title,
            description: payload.description,
            goal_amount: payload.goal_amount,
            raised_amount: 0,
            creator: payload.creator,
            created_at: now,
            updated_at: None,
        };
        let bytes = match project.to_bytes() {
            Ok(bytes) => bytes,
            Err(e) => {
                return Err(e);
            },
        };
        match self.counter.increment_and_get_previous() {
            Ok(id) => {
                match self.records.insert(id, bytes.as_slice()) {
                    Ok(_) => Ok(project),
                    Err(e) => Err(e),
                }
            },
            Err(e) => Err(e),
        }
    }

    /// Replaces title, description and goal of the project under `id` by
    /// those of `payload`, and sets the time of its last change to `now`.
    /// Identifier, creator, amount raised and time of creation stay. On
    /// failure nothing changes.
    pub fn update_project(&mut self, id: u64, payload: ProjectPayload, now: u64) -> (r: Result<
        Project,
        Error,
    >)
        ensures
            old(self)@.step(
                Operation::Update { id, payload: payload@, now },
                reply_view(r),
                final(self)@,
            ),
    {
        let stored = match self.get_project(id) {
            Ok(stored) => stored,
            Err(e) => {
                return Err(e);
            },
        };
        let project = Project {
            id: stored.id,
            title: payload.title,
            description: payload.description,
            goal_amount: payload.goal_amount,
            raised_amount: stored.raised_amount,
            creator: stored.creator,
            created_at: stored.created_at,
            updated_at: Some(now),
        };
        match self.do_insert(&project) {
            Ok(_) => Ok(project),
            Err(e) => Err(e),
        }
    }

    /// Adds `amount` to what the project under `id` has raised, and sets the
    /// time of its last change to `now`. The goal is no limit. A sum that
    /// does not fit in a `u64` is refused. On failure nothing changes.
    pub fn contribute_to_project(&mut self, id: u64, amount: u64, now: u64) -> (r: Result<
        Project,
        Error,
    >)
        ensures
            old(self)@.step(
                Operation::Contribute { id, amount, now },
                reply_view(r),
                final(self)@,
            ),
    {
        let stored = match self.get_project(id) {
            Ok(stored) => stored,
            Err(e) => {
                return Err(e);
            },
        };
        let raised_amount = match stored.raised_amount.checked_add(amount) {
            Some(sum) => sum,
            None => {
                return Err(Error::AmountOverflow);
            },
        };
        let project = Project {
            id: stored.id,
            title: stored.title,
            description: stored.description,
            goal_amount: stored.goal_amount,
            raised_amount,
            creator: stored.creator,
            created_at: stored.created_at,
            updated_at: Some(now),
        };
        match self.do_insert(&project) {
            Ok(_) => Ok(project),
            Err(e) => Err(e),
        }
    }

    /// Removes the project under `id` and returns it as it was last stored.
    /// A record that cannot be read is left in place.
    pub fn delete_project(&mut self, id: u64) -> (r: Result<Project, Error>)
        ensures
            old(self)@.step(Operation::Delete { id }, reply_view(r), final(self)@),
    {
        match self.get_project(id) {
            Ok(project) => {
                let _ = self.records.remove(id);
                Ok(project)
            },
            Err(e) => Err(e),
        }
    }

    /// Opens the service anew from its own segments, as after a restart.
    /// The store is the one that was last made durable: every record that an
    /// operation reported stored is there, and every record that one
    /// reported removed is not.
    pub fn reload(self) -> (r: Result<ProjectService, Error>)
        ensures
            r matches Ok(service) && service@ == self@,
    {
        let records = self.records.reload();
        match self.counter.reload() {
            Ok(counter) => Ok(ProjectService { counter, records }),
            Err(e) => Err(e),
        }
    }
}

} // verus!

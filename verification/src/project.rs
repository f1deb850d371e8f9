//! The project record, the payload callers send, and the errors operations report.

use vstd::prelude::*;

verus! {

/// A crowdfunding project.
#[derive(Clone, Debug, PartialEq, Eq, Default)]
pub struct Project {
    /// Assigned when the project is created; never changes afterwards.
    pub id: u64,
    pub title: String,
    pub description: String,
    pub goal_amount: u64,
    /// Starts at zero; only contributions change it, and only upwards.
    pub raised_amount: u64,
    pub creator: String,
    /// The time of creation; never changes afterwards.
    pub created_at: u64,
    /// `None` until the first update or contribution, then the time of the latest one.
    pub updated_at: Option<u64>,
}

/// What a [`Project`] is, as mathematics: its texts are sequences of characters.
pub struct ProjectModel {
    pub id: u64,
    pub title: Seq<char>,
    pub description: Seq<char>,
    pub goal_amount: u64,
    pub raised_amount: u64,
    pub creator: Seq<char>,
    pub created_at: u64,
    pub updated_at: Option<u64>,
}

impl View for Project {
    type V = ProjectModel;

    open spec fn view(&self) -> ProjectModel {
        ProjectModel {
            id: self.id,
            title: self.title@,
            description: self.description@,
            goal_amount: self.goal_amount,
            raised_amount: self.raised_amount,
            creator: self.creator@,
            created_at: self.created_at,
            updated_at: self.updated_at,
        }
    }
}

/// The fields a caller supplies. Creation reads all four; an update reads
/// everything but `creator`.
#[derive(Clone, Debug, PartialEq, Eq, Default)]
pub struct ProjectPayload {
    pub title: String,
    pub description: String,
    pub goal_amount: u64,
    pub creator: String,
}

/// What a [`ProjectPayload`] is, as mathematics.
pub struct PayloadModel {
    pub title: Seq<char>,
    pub description: Seq<char>,
    pub goal_amount: u64,
    pub creator: Seq<char>,
}

impl View for ProjectPayload {
    type V = PayloadModel;

    open spec fn view(&self) -> PayloadModel {
        PayloadModel {
            title: self.title@,
            description: self.description@,
            goal_amount: self.goal_amount,
            creator: self.creator@,
        }
    }
}

/// Why an operation did not succeed.
#[derive(Clone, Copy, Debug, PartialEq, Eq, Structural)]
pub enum Error {
    /// No record is stored under `id`.
    NotFound { id: u64 },
    /// Stored bytes are not the encoding of a project, or of the project
    /// they are filed under.
    DecodeCorruption,
    /// The encoding of the project would be longer than a record may be.
    OversizedRecord,
    /// The stable memory refused a write.
    StorageFatal,
    /// A contribution would take the raised amount past `u64::MAX`.
    AmountOverflow,
}

/// A result with the project, if any, taken by its view.
pub open spec fn reply_view(r: Result<Project, Error>) -> Result<ProjectModel, Error> {
    match r {
        Ok(p) => Ok(p@),
        Err(e) => Err(e),
    }
}

} // verus!

//! Typed representations of the supported webhook events.
//!
//! Each event struct mirrors the fields GitHub sends for that event.
//! Fields whose payload shape is open-ended (`base_ref`, a commit's
//! `removed` and `modified` lists) hold a `Json` value, so an absent or
//! unknown shape is carried explicitly instead of failing the decode.

use vstd::prelude::*;
use crate::json::Json;
use crate::json::JsonV;
use crate::json::items_v;

verus! {

/// The model of a list of strings.
pub open spec fn strs_v(s: Seq<String>) -> Seq<Seq<char>> {
    Seq::new(s.len(), |i: int| s[i]@)
}

/// The model of a list of commits.
pub open spec fn commits_vv(s: Seq<Commit>) -> Seq<CommitV> {
    Seq::new(s.len(), |i: int| s[i]@)
}

/// The account that performed a push, as named in the payload.
#[derive(Debug, Clone, PartialEq)]
pub struct Pusher {
    pub name: String,
    pub email: String,
}

pub struct PusherV {
    pub name: Seq<char>,
    pub email: Seq<char>,
}

impl View for Pusher {
    type V = PusherV;

    open spec fn view(&self) -> PusherV {
        PusherV { name: self.name@, email: self.email@ }
    }
}

/// A commit author or committer, as embedded in a push payload.
#[derive(Debug, Clone, PartialEq)]
pub struct SimpleUser {
    pub name: String,
    pub email: String,
    pub username: String,
}

pub struct SimpleUserV {
    pub name: Seq<char>,
    pub email: Seq<char>,
    pub username: Seq<char>,
}

impl View for SimpleUser {
    type V = SimpleUserV;

    open spec fn view(&self) -> SimpleUserV {
        SimpleUserV { name: self.name@, email: self.email@, username: self.username@ }
    }
}

/// The account that triggered a delivery.
#[derive(Debug, Clone, PartialEq)]
pub struct User {
    pub login: String,
    pub id: i64,
}

pub struct UserV {
    pub login: Seq<char>,
    pub id: int,
}

impl View for User {
    type V = UserV;

    open spec fn view(&self) -> UserV {
        UserV { login: self.login@, id: self.id as int }
    }
}

/// The repository a delivery concerns.
#[derive(Debug, Clone, PartialEq)]
pub struct Repository {
    pub id: i64,
    pub name: String,
    pub full_name: String,
}

pub struct RepositoryV {
    pub id: int,
    pub name: Seq<char>,
    pub full_name: Seq<char>,
}

impl View for Repository {
    type V = RepositoryV;

    open spec fn view(&self) -> RepositoryV {
        RepositoryV { id: self.id as int, name: self.name@, full_name: self.full_name@ }
    }
}

/// One commit of a push payload.
#[derive(Debug, PartialEq)]
pub struct Commit {
    pub id: String,
    pub tree_id: String,
    pub distinct: bool,
    pub message: String,
    pub timestamp: String,
    pub url: String,
    pub author: SimpleUser,
    pub committer: SimpleUser,
    pub added: Vec<String>,
    pub removed: Vec<Json>,
    pub modified: Vec<Json>,
}

pub struct CommitV {
    pub id: Seq<char>,
    pub tree_id: Seq<char>,
    pub distinct: bool,
    pub message: Seq<char>,
    pub timestamp: Seq<char>,
    pub url: Seq<char>,
    pub author: SimpleUserV,
    pub committer: SimpleUserV,
    pub added: Seq<Seq<char>>,
    pub removed: Seq<JsonV>,
    pub modified: Seq<JsonV>,
}

impl View for Commit {
    type V = CommitV;

    open spec fn view(&self) -> CommitV {
        CommitV {
            id: self.id@,
            tree_id: self.tree_id@,
            distinct: self.distinct,
            message: self.message@,
            timestamp: self.timestamp@,
            url: self.url@,
            author: self.author@,
            committer: self.committer@,
            added: strs_v(self.added@),
            removed: items_v(self.removed@),
            modified: items_v(self.modified@),
        }
    }
}

/// The head commit of a push payload.
#[derive(Debug, PartialEq)]
pub struct HeadCommit {
    pub id: String,
    pub tree_id: String,
    pub distinct: bool,
    pub message: String,
    pub timestamp: String,
    pub url: String,
    pub author: SimpleUser,
    pub committer: SimpleUser,
    pub added: Vec<String>,
    pub removed: Vec<Json>,
    pub modified: Vec<Json>,
}

pub struct HeadCommitV {
    pub id: Seq<char>,
    pub tree_id: Seq<char>,
    pub distinct: bool,
    pub message: Seq<char>,
    pub timestamp: Seq<char>,
    pub url: Seq<char>,
    pub author: SimpleUserV,
    pub committer: SimpleUserV,
    pub added: Seq<Seq<char>>,
    pub removed: Seq<JsonV>,
    pub modified: Seq<JsonV>,
}

impl View for HeadCommit {
    type V = HeadCommitV;

    open spec fn view(&self) -> HeadCommitV {
        HeadCommitV {
            id: self.id@,
            tree_id: self.tree_id@,
            distinct: self.distinct,
            message: self.message@,
            timestamp: self.timestamp@,
            url: self.url@,
            author: self.author@,
            committer: self.committer@,
            added: strs_v(self.added@),
            removed: items_v(self.removed@),
            modified: items_v(self.modified@),
        }
    }
}

/// A push to a repository reference.
#[derive(Debug, PartialEq)]
pub struct PushEvent {
    pub ref_field: String,
    pub before: String,
    pub after: String,
    pub repository: Repository,
    pub pusher: Pusher,
    pub sender: User,
    pub created: bool,
    pub deleted: bool,
    pub forced: bool,
    pub base_ref: Json,
    pub compare: String,
    pub commits: Vec<Commit>,
    pub head_commit: HeadCommit,
}

pub struct PushEventV {
    pub ref_field: Seq<char>,
    pub before: Seq<char>,
    pub after: Seq<char>,
    pub repository: RepositoryV,
    pub pusher: PusherV,
    pub sender: UserV,
    pub created: bool,
    pub deleted: bool,
    pub forced: bool,
    pub base_ref: JsonV,
    pub compare: Seq<char>,
    pub commits: Seq<CommitV>,
    pub head_commit: HeadCommitV,
}

impl View for PushEvent {
    type V = PushEventV;

    open spec fn view(&self) -> PushEventV {
        PushEventV {
            ref_field: self.ref_field@,
            before: self.before@,
            after: self.after@,
            repository: self.repository@,
            pusher: self.pusher@,
            sender: self.sender@,
            created: self.created,
            deleted: self.deleted,
            forced: self.forced,
            base_ref: self.base_ref@,
            compare: self.compare@,
            commits: commits_vv(self.commits@),
            head_commit: self.head_commit@,
        }
    }
}

/// Whether a star was set or withdrawn.
#[derive(Debug, Clone, Copy, PartialEq, Eq, Structural)]
pub enum StarAction {
    Created,
    Deleted,
}

/// The action a payload name denotes.
pub open spec fn star_action_of(name: Seq<char>) -> Option<StarAction> {
    if name == "created"@ {
        Some(StarAction::Created)
    } else if name == "deleted"@ {
        Some(StarAction::Deleted)
    } else {
        None
    }
}

impl StarAction {
    /// Parses the snake-case payload name of an action.
    pub fn from_name(name: &str) -> (r: Option<StarAction>)
        ensures
            r == star_action_of(name@),
    {
        if crate::classify::str_eq(name, "created") {
            Some(StarAction::Created)
        } else if crate::classify::str_eq(name, "deleted") {
            Some(StarAction::Deleted)
        } else {
            None
        }
    }

    /// The snake-case payload name of the action.
    pub fn name(self) -> (r: &'static str)
        ensures
            star_action_of(r@) == Some(self),
    {
        match self {
            StarAction::Created => {
                let r = "created";
                proof {
                    assert(star_action_of(r@) == Some(StarAction::Created));
                }
                r
            },
            StarAction::Deleted => {
                let r = "deleted";
                proof {
                    reveal_strlit("created");
                    reveal_strlit("deleted");
                    assert(r@[0] != "created"@[0]);
                    assert(star_action_of(r@) == Some(StarAction::Deleted));
                }
                r
            },
        }
    }
}

/// A star set on or withdrawn from a repository.
#[derive(Debug, Clone, PartialEq)]
pub struct StarEvent {
    pub action: StarAction,
    pub repository: Repository,
    pub sender: User,
}

pub struct StarEventV {
    pub action: StarAction,
    pub repository: RepositoryV,
    pub sender: UserV,
}

impl View for StarEvent {
    type V = StarEventV;

    open spec fn view(&self) -> StarEventV {
        StarEventV { action: self.action, repository: self.repository@, sender: self.sender@ }
    }
}

/// A fork made of a repository.
#[derive(Debug, Clone, PartialEq)]
pub struct ForkEvent {
    pub forkee: Repository,
    pub repository: Repository,
    pub sender: User,
}

pub struct ForkEventV {
    pub forkee: RepositoryV,
    pub repository: RepositoryV,
    pub sender: UserV,
}

impl View for ForkEvent {
    type V = ForkEventV;

    open spec fn view(&self) -> ForkEventV {
        ForkEventV { forkee: self.forkee@, repository: self.repository@, sender: self.sender@ }
    }
}

/// A decoded delivery payload.
#[derive(Debug, PartialEq)]
pub enum Event {
    Push(PushEvent),
    Star(StarEvent),
    Fork(ForkEvent),
}

pub enum EventV {
    Push(PushEventV),
    Star(StarEventV),
    Fork(ForkEventV),
}

impl View for Event {
    type V = EventV;

    open spec fn view(&self) -> EventV {
        match self {
            Event::Push(e) => EventV::Push(e@),
            Event::Star(e) => EventV::Star(e@),
            Event::Fork(e) => EventV::Fork(e@),
        }
    }
}

} // verus!

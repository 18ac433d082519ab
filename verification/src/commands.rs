//! Commands: the directive a handler returns.
//!
//! "Nothing to do" is a first-class value, never an error or an exception.
//! A command is consumed exactly once by the dispatcher: a follow-up effect
//! is handed to the surrounding program to execute against the REST API,
//! and a notification is routed to the consumer's own state machine.

use vstd::prelude::*;
use crate::events::PushEvent;

verus! {

/// The view of an optional string.
pub open spec fn opt_str_v(o: Option<String>) -> Option<Seq<char>> {
    match o {
        Some(s) => Some(s@),
        None => None,
    }
}

/// One follow-up effect a handler can ask for.
#[derive(Debug, Clone, PartialEq)]
pub enum FollowUp {
    /// Post a comment on a commit, addressed by the commit's API URL and id.
    CommitComment {
        url: String,
        commit_id: String,
        body: String,
        path: Option<String>,
        position: Option<String>,
    },
}

pub enum FollowUpV {
    CommitComment {
        url: Seq<char>,
        commit_id: Seq<char>,
        body: Seq<char>,
        path: Option<Seq<char>>,
        position: Option<Seq<char>>,
    },
}

impl View for FollowUp {
    type V = FollowUpV;

    open spec fn view(&self) -> FollowUpV {
        match self {
            FollowUp::CommitComment { url, commit_id, body, path, position } => {
                FollowUpV::CommitComment {
                    url: url@,
                    commit_id: commit_id@,
                    body: body@,
                    path: opt_str_v(*path),
                    position: opt_str_v(*position),
                }
            },
        }
    }
}

/// The directive a handler returns: no follow-up, one follow-up effect, or
/// a message for the consumer's own state machine.
#[derive(Debug, Clone, PartialEq)]
pub enum Command {
    NoOp,
    Act(FollowUp),
    Notify(String),
}

impl Command {
    /// The explicit "nothing to do" directive.
    pub fn none() -> (c: Command)
        ensures
            c == Command::NoOp,
    {
        Command::NoOp
    }
}

impl PushEvent {
    /// The follow-up that comments on the commit that triggered this push:
    /// the comment is addressed to the head commit's URL and id.
    pub fn add_comment_to_commit(&self, body: String, path: Option<String>, position: Option<
        String,
    >) -> (c: Command)
        ensures
            c matches Command::Act(f) && f@ == (FollowUpV::CommitComment {
                url: self.head_commit.url@,
                commit_id: self.head_commit.id@,
                body: body@,
                path: opt_str_v(path),
                position: opt_str_v(position),
            }),
    {
        Command::Act(
            FollowUp::CommitComment {
                url: self.head_commit.url.clone(),
                commit_id: self.head_commit.id.clone(),
                body,
                path,
                position,
            },
        )
    }
}

} // verus!

//! Classification of a delivery by its event-type header.
//!
//! GitHub names the event in a request header; classification maps that
//! exact name to one of the supported event kinds, and is total: every
//! other string is reported as unsupported, which the dispatcher
//! acknowledges without invoking the handler.

use vstd::prelude::*;

verus! {

/// The closed set of event kinds this engine dispatches.
#[derive(Debug, Clone, Copy, PartialEq, Eq, Structural)]
pub enum EventKind {
    Push,
    Star,
    Fork,
}

/// A delivery whose event-type header names no supported kind; carries the
/// name as received.
#[derive(Debug, Clone, PartialEq)]
pub enum ClassifyError {
    Unsupported(String),
}

/// The kind a header name denotes, if any.
pub open spec fn kind_of(name: Seq<char>) -> Option<EventKind> {
    if name == "push"@ {
        Some(EventKind::Push)
    } else if name == "star"@ {
        Some(EventKind::Star)
    } else if name == "fork"@ {
        Some(EventKind::Fork)
    } else {
        None
    }
}

/// String equality by contents.
pub fn str_eq(a: &str, b: &str) -> (r: bool)
    ensures
        r == (a@ == b@),
{
    let x: String = a.to_owned();
    let y: String = b.to_owned();
    x == y
}

/// Maps the event-type header to the kind it names; every name outside the
/// supported set yields `Unsupported` with that name.
pub fn classify(event_type: &str) -> (r: Result<EventKind, ClassifyError>)
    ensures
        match r {
            Ok(k) => kind_of(event_type@) == Some(k),
            Err(ClassifyError::Unsupported(n)) => kind_of(event_type@) is None && n@
                == event_type@,
        },
{
    if str_eq(event_type, "push") {
        Ok(EventKind::Push)
    } else if str_eq(event_type, "star") {
        Ok(EventKind::Star)
    } else if str_eq(event_type, "fork") {
        Ok(EventKind::Fork)
    } else {
        Err(ClassifyError::Unsupported(event_type.to_owned()))
    }
}

} // verus!

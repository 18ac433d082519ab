//! The dispatcher: from a raw delivery to a handler invocation.
//!
//! Per delivery the engine verifies the signature, classifies the
//! event-type header, decodes the body against the kind's schema, and
//! invokes the matching handler reaction, whose command the caller then
//! executes. Every deviation has its own outcome: a bad or missing
//! signature answers 401 and nothing further runs; an unsupported
//! event-type answers 200 and is skipped, so the sender never retries it; a
//! malformed body answers 400. Each delivery is planned from its own bytes
//! and the shared read-only context alone, so concurrent deliveries share
//! no mutable state.

use vstd::prelude::*;
use crate::classify::kind_of;
use crate::classify::classify;
use crate::codec::decode;
use crate::codec::decode_spec;
use crate::commands::Command;
use crate::events::Event;
use crate::events::EventV;
use crate::events::ForkEvent;
use crate::events::PushEvent;
use crate::events::StarEvent;
use crate::sig::verify;
use crate::sig::verify_spec;

verus! {

/// One inbound webhook request: the event-type and correlation headers,
/// the signature header if present, and the exact raw body bytes.
#[derive(Debug, Clone, PartialEq)]
pub struct Delivery {
    pub event_type: String,
    pub delivery_id: String,
    pub signature: Option<String>,
    pub body: Vec<u8>,
}

pub struct DeliveryV {
    pub event_type: Seq<char>,
    pub delivery_id: Seq<char>,
    pub signature: Option<Seq<char>>,
    pub body: Seq<u8>,
}

impl View for Delivery {
    type V = DeliveryV;

    open spec fn view(&self) -> DeliveryV {
        DeliveryV {
            event_type: self.event_type@,
            delivery_id: self.delivery_id@,
            signature: crate::commands::opt_str_v(self.signature),
            body: self.body@,
        }
    }
}

/// Shared, read-only context for handlers: the delivery secret and what
/// follow-up calls need. Created once at startup and never written during
/// dispatch.
#[derive(Debug, Clone, PartialEq)]
pub struct HandlerContext {
    pub secret: Vec<u8>,
    pub port: u16,
    pub base_url: String,
}

/// The consumer's reactions, one per supported event kind. Each receives
/// shared read-only context plus the decoded event, and returns exactly one
/// command; `Command::none()` is the explicit "nothing to do".
pub trait Handler {
    /// The TCP port the listener should accept deliveries on.
    fn webhook_port(&self) -> u16;

    fn on_push(&self, ctx: &HandlerContext, event: PushEvent) -> Command;

    fn on_star(&self, ctx: &HandlerContext, event: StarEvent) -> Command;

    fn on_fork(&self, ctx: &HandlerContext, event: ForkEvent) -> Command;
}

/// What is to be done with a delivery, decided before any handler runs.
#[derive(Debug, PartialEq)]
pub enum Plan {
    Unauthorized,
    Skip,
    Malformed,
    Invoke(Event),
}

pub enum PlanV {
    Unauthorized,
    Skip,
    Malformed,
    Invoke(EventV),
}

impl View for Plan {
    type V = PlanV;

    open spec fn view(&self) -> PlanV {
        match self {
            Plan::Unauthorized => PlanV::Unauthorized,
            Plan::Skip => PlanV::Skip,
            Plan::Malformed => PlanV::Malformed,
            Plan::Invoke(e) => PlanV::Invoke(e@),
        }
    }
}

/// The plan a delivery gets under a secret: rejected unverified, skipped
/// when its event-type names no supported kind, rejected malformed when its
/// body violates the kind's schema, and otherwise a handler invocation with
/// the decoded event.
pub open spec fn plan_of(secret: Seq<u8>, d: DeliveryV) -> PlanV {
    if verify_spec(secret, d.body, d.signature) is Err {
        PlanV::Unauthorized
    } else {
        match kind_of(d.event_type) {
            Option::None => PlanV::Skip,
            Option::Some(k) => match decode_spec(k, d.body) {
                Option::Some(ev) => PlanV::Invoke(ev),
                Option::None => PlanV::Malformed,
            },
        }
    }
}

/// Verifies, classifies and decodes one delivery, without running any
/// handler.
pub fn plan_delivery(secret: &[u8], d: &Delivery) -> (r: Plan)
    ensures
        r@ == plan_of(secret@, d@),
{
    let sig: Option<&str> = match &d.signature {
        Some(s) => Some(s.as_str()),
        None => None,
    };
    match verify(secret, d.body.as_slice(), sig) {
        Err(_) => {
            return Plan::Unauthorized;
        },
        Ok(()) => {},
    }
    let kind = match classify(d.event_type.as_str()) {
        Ok(k) => k,
        Err(_) => {
            return Plan::Skip;
        },
    };
    match decode(kind, d.body.as_slice()) {
        Ok(e) => Plan::Invoke(e),
        Err(_) => Plan::Malformed,
    }
}

/// How one dispatch ended; `status` gives the HTTP answer.
#[derive(Debug, PartialEq)]
pub enum DispatchOutcome {
    /// The signature was missing or wrong: 401, nothing ran.
    Unauthorized,
    /// The event-type names no supported kind: 200, intentionally skipped.
    SkippedUnsupported,
    /// The body violates the schema of its (known) kind: 400, nothing ran.
    MalformedPayload,
    /// The handler ran once; its command is to be executed by the caller.
    Completed(Command),
}

impl DispatchOutcome {
    /// The HTTP status answered for this outcome.
    pub open spec fn status_spec(&self) -> u16 {
        match self {
            DispatchOutcome::Unauthorized => 401,
            DispatchOutcome::SkippedUnsupported => 200,
            DispatchOutcome::MalformedPayload => 400,
            DispatchOutcome::Completed(_) => 200,
        }
    }

    /// The HTTP status answered for this outcome.
    pub fn status(&self) -> (s: u16)
        ensures
            s == self.status_spec(),
    {
        match self {
            DispatchOutcome::Unauthorized => 401,
            DispatchOutcome::SkippedUnsupported => 200,
            DispatchOutcome::MalformedPayload => 400,
            DispatchOutcome::Completed(_) => 200,
        }
    }
}

/// Runs one delivery through the full state machine: verify, classify,
/// decode, and — exactly when the plan says invoke — one call of the
/// matching handler reaction with the decoded event. The returned command,
/// if any, is the handler's own; the caller executes it.
pub fn dispatch<H: Handler>(handler: &H, ctx: &HandlerContext, d: &Delivery) -> (r:
    DispatchOutcome)
    ensures
        r is Unauthorized <==> plan_of(ctx.secret@, d@) is Unauthorized,
        r is SkippedUnsupported <==> plan_of(ctx.secret@, d@) is Skip,
        r is MalformedPayload <==> plan_of(ctx.secret@, d@) is Malformed,
        r is Completed <==> plan_of(ctx.secret@, d@) is Invoke,
{
    match plan_delivery(ctx.secret.as_slice(), d) {
        Plan::Unauthorized => DispatchOutcome::Unauthorized,
        Plan::Skip => DispatchOutcome::SkippedUnsupported,
        Plan::Malformed => DispatchOutcome::MalformedPayload,
        Plan::Invoke(ev) => {
            let cmd = match ev {
                Event::Push(e) => handler.on_push(ctx, e),
                Event::Star(e) => handler.on_star(ctx, e),
                Event::Fork(e) => handler.on_fork(ctx, e),
            };
            DispatchOutcome::Completed(cmd)
        },
    }
}

/// Law: an unauthenticated delivery is rejected before anything else runs,
/// whatever its headers or body.
pub proof fn lemma_unverified_is_rejected(secret: Seq<u8>, d: DeliveryV)
    requires
        verify_spec(secret, d.body, d.signature) is Err,
    ensures
        plan_of(secret, d) == PlanV::Unauthorized,
{
}

/// Law: a verified delivery whose event-type names no supported kind is
/// acknowledged and skipped — no decode and no handler invocation — so the
/// sender is never told to retry it.
pub proof fn lemma_unsupported_is_skipped(secret: Seq<u8>, d: DeliveryV)
    requires
        verify_spec(secret, d.body, d.signature) is Ok,
        kind_of(d.event_type) is None,
    ensures
        plan_of(secret, d) == PlanV::Skip,
{
}

/// Law: a verified delivery of a known kind whose body is not a JSON
/// document, or violates the kind's schema, is rejected as malformed; no
/// handler runs.
pub proof fn lemma_malformed_is_rejected(secret: Seq<u8>, d: DeliveryV, k: crate::classify::EventKind)
    requires
        verify_spec(secret, d.body, d.signature) is Ok,
        kind_of(d.event_type) == Some(k),
        decode_spec(k, d.body) is None,
    ensures
        plan_of(secret, d) == PlanV::Malformed,
{
}

/// Law: a delivery signed with the secret, with event-type `push` and a
/// body whose document meets the push schema, is planned as exactly one
/// handler invocation, with the event that document denotes.
pub proof fn lemma_valid_push_is_invoked(secret: Seq<u8>, d: DeliveryV)
    requires
        d.signature == Some(crate::sig::expected_sig(secret, d.body)),
        d.event_type == "push"@,
        crate::json::json_of(d.body) matches Some(j) && crate::codec::push_ok(j),
    ensures
        plan_of(secret, d) == PlanV::Invoke(
            EventV::Push(crate::codec::push_val(crate::json::json_of(d.body)->Some_0)),
        ),
{
}

} // verus!

use std::cell::Cell;
use std::cell::RefCell;

use github_rest::commands::{Command, FollowUp};
use github_rest::dispatch::{
    dispatch, plan_delivery, Delivery, DispatchOutcome, Handler, HandlerContext, Plan,
};
use github_rest::events::{Event, ForkEvent, PushEvent, StarEvent};
use hmac::Mac;

fn sign(secret: &[u8], body: &[u8]) -> String {
    let mut mac = hmac::Hmac::<sha2::Sha256>::new_from_slice(secret).unwrap();
    mac.update(body);
    let tag = mac.finalize().into_bytes();
    let mut s = String::from("sha256=");
    for b in tag {
        s.push_str(&format!("{:02x}", b));
    }
    s
}

fn push_body(repo: &str) -> String {
    format!(
        r#"{{
  "ref": "refs/heads/main",
  "before": "0000000000",
  "after": "abc123",
  "repository": {{"id": 7, "name": "{repo}", "full_name": "o/{repo}"}},
  "pusher": {{"name": "ada", "email": "ada@example.com"}},
  "sender": {{"login": "ada", "id": 99}},
  "created": false,
  "deleted": false,
  "forced": false,
  "base_ref": null,
  "compare": "https://github.com/o/{repo}/compare/x...y",
  "commits": [],
  "head_commit": {{
    "id": "abc123", "tree_id": "tree456", "distinct": true,
    "message": "fix the build", "timestamp": "2020-01-01T00:00:00Z",
    "url": "https://api.github.com/repos/o/{repo}/commits/abc123",
    "author": {{"name": "ada", "email": "ada@example.com", "username": "ada"}},
    "committer": {{"name": "ada", "email": "ada@example.com", "username": "ada"}},
    "added": [], "removed": [], "modified": []
  }}
}}"#
    )
}

fn ctx(secret: &[u8]) -> HandlerContext {
    HandlerContext {
        secret: secret.to_vec(),
        port: 2022,
        base_url: "https://api.github.com".to_owned(),
    }
}

fn delivery(secret: &[u8], event_type: &str, body: &str) -> Delivery {
    Delivery {
        event_type: event_type.to_owned(),
        delivery_id: "d-1".to_owned(),
        signature: Some(sign(secret, body.as_bytes())),
        body: body.as_bytes().to_vec(),
    }
}

struct Recorder {
    pushes: Cell<u32>,
    stars: Cell<u32>,
    forks: Cell<u32>,
    last_repo: RefCell<Option<String>>,
    reply: Command,
}

impl Recorder {
    fn new(reply: Command) -> Recorder {
        Recorder {
            pushes: Cell::new(0),
            stars: Cell::new(0),
            forks: Cell::new(0),
            last_repo: RefCell::new(None),
            reply,
        }
    }

    fn total(&self) -> u32 {
        self.pushes.get() + self.stars.get() + self.forks.get()
    }
}

impl Handler for Recorder {
    fn webhook_port(&self) -> u16 {
        2022
    }

    fn on_push(&self, _ctx: &HandlerContext, event: PushEvent) -> Command {
        self.pushes.set(self.pushes.get() + 1);
        *self.last_repo.borrow_mut() = Some(event.repository.name.clone());
        assert_eq!(event.ref_field, "refs/heads/main");
        assert_eq!(event.after, "abc123");
        assert_eq!(event.head_commit.id, "abc123");
        assert_eq!(event.commits.len(), 0);
        self.reply.clone()
    }

    fn on_star(&self, _ctx: &HandlerContext, _event: StarEvent) -> Command {
        self.stars.set(self.stars.get() + 1);
        self.reply.clone()
    }

    fn on_fork(&self, _ctx: &HandlerContext, _event: ForkEvent) -> Command {
        self.forks.set(self.forks.get() + 1);
        self.reply.clone()
    }
}

#[test]
fn bad_signature_is_rejected_with_401() {
    let secret = b"hook-secret";
    let body = push_body("r");
    let mut d = delivery(secret, "push", &body);
    d.signature = Some(sign(b"wrong-secret", body.as_bytes()));
    let h = Recorder::new(Command::none());
    let outcome = dispatch(&h, &ctx(secret), &d);
    assert_eq!(outcome.status(), 401);
    assert!(matches!(outcome, DispatchOutcome::Unauthorized));
    assert_eq!(h.total(), 0);
}

#[test]
fn missing_signature_is_rejected_with_401() {
    let secret = b"hook-secret";
    let body = push_body("r");
    let mut d = delivery(secret, "push", &body);
    d.signature = None;
    let h = Recorder::new(Command::none());
    let outcome = dispatch(&h, &ctx(secret), &d);
    assert_eq!(outcome.status(), 401);
    assert_eq!(h.total(), 0);
}

#[test]
fn unsupported_event_type_is_acknowledged_and_skipped() {
    let secret = b"hook-secret";
    let body = r#"{"zen":"Anything added dilutes everything else."}"#;
    let d = delivery(secret, "issues", body);
    let h = Recorder::new(Command::none());
    let outcome = dispatch(&h, &ctx(secret), &d);
    assert!(matches!(outcome, DispatchOutcome::SkippedUnsupported));
    assert_eq!(outcome.status(), 200);
    assert_eq!(h.total(), 0);
}

#[test]
fn malformed_known_event_is_rejected_with_400() {
    let secret = b"hook-secret";
    // a push body missing its required "ref" field
    let body = r#"{"before":"b","after":"a"}"#;
    let d = delivery(secret, "push", body);
    let h = Recorder::new(Command::none());
    let outcome = dispatch(&h, &ctx(secret), &d);
    assert!(matches!(outcome, DispatchOutcome::MalformedPayload));
    assert_eq!(outcome.status(), 400);
    assert_eq!(h.total(), 0);
}

#[test]
fn valid_push_invokes_handler_exactly_once() {
    let secret = b"hook-secret";
    let body = push_body("r");
    let d = delivery(secret, "push", &body);
    let h = Recorder::new(Command::none());
    let outcome = dispatch(&h, &ctx(secret), &d);
    assert_eq!(h.pushes.get(), 1);
    assert_eq!(h.total(), 1);
    assert_eq!(h.last_repo.borrow().as_deref(), Some("r"));
    match outcome {
        DispatchOutcome::Completed(cmd) => assert_eq!(cmd, Command::NoOp),
        other => panic!("expected Completed, got {:?}", other),
    }
}

#[test]
fn plan_keeps_decoded_event() {
    let secret = b"hook-secret";
    let body = push_body("planned");
    let d = delivery(secret, "push", &body);
    match plan_delivery(secret, &d) {
        Plan::Invoke(Event::Push(p)) => assert_eq!(p.repository.name, "planned"),
        other => panic!("expected an invoke plan, got {:?}", other),
    }
}

#[test]
fn independent_deliveries_each_invoke_once() {
    let secret = b"hook-secret";
    let c = ctx(secret);
    let h = Recorder::new(Command::none());
    let repos = ["alpha", "beta", "gamma", "delta", "epsilon"];
    for (i, repo) in repos.iter().enumerate() {
        let body = push_body(repo);
        let d = delivery(secret, "push", &body);
        let outcome = dispatch(&h, &c, &d);
        assert_eq!(outcome.status(), 200);
        assert_eq!(h.pushes.get(), (i + 1) as u32);
        // each invocation saw only its own delivery's data
        assert_eq!(h.last_repo.borrow().as_deref(), Some(*repo));
    }
    assert_eq!(h.total(), repos.len() as u32);
}

#[test]
fn handler_command_is_returned_for_execution() {
    let secret = b"hook-secret";
    let body = push_body("r");
    let d = delivery(secret, "push", &body);
    let reply = Command::Act(FollowUp::CommitComment {
        url: "https://api.github.com/repos/o/r/commits/abc123".to_owned(),
        commit_id: "abc123".to_owned(),
        body: "nice".to_owned(),
        path: None,
        position: None,
    });
    let h = Recorder::new(reply.clone());
    match dispatch(&h, &ctx(secret), &d) {
        DispatchOutcome::Completed(cmd) => assert_eq!(cmd, reply),
        other => panic!("expected Completed, got {:?}", other),
    }
}

#[test]
fn add_comment_to_commit_targets_head_commit() {
    let secret = b"hook-secret";
    let body = push_body("r");
    let d = delivery(secret, "push", &body);
    let p = match plan_delivery(secret, &d) {
        Plan::Invoke(Event::Push(p)) => p,
        other => panic!("expected an invoke plan, got {:?}", other),
    };
    let cmd = p.add_comment_to_commit("well done".to_owned(), None, None);
    match cmd {
        Command::Act(FollowUp::CommitComment {
            url,
            commit_id,
            body,
            path,
            position,
        }) => {
            assert_eq!(url, "https://api.github.com/repos/o/r/commits/abc123");
            assert_eq!(commit_id, "abc123");
            assert_eq!(body, "well done");
            assert_eq!(path, None);
            assert_eq!(position, None);
        }
        other => panic!("expected a commit comment, got {:?}", other),
    }
}

use github_rest::classify::{classify, ClassifyError, EventKind};
use github_rest::codec::{
    decode, decode_push, decode_star, encode_event, encode_push, DecodeError,
};
use github_rest::events::{
    Commit, Event, ForkEvent, HeadCommit, PushEvent, Pusher, Repository, SimpleUser, StarAction,
    StarEvent, User,
};
use github_rest::json::Json;

fn author(tag: &str) -> SimpleUser {
    SimpleUser {
        name: format!("{} name", tag),
        email: format!("{}@example.com", tag),
        username: tag.to_owned(),
    }
}

fn sample_head_commit() -> HeadCommit {
    HeadCommit {
        id: "abc123".to_owned(),
        tree_id: "tree456".to_owned(),
        distinct: true,
        message: "fix the build".to_owned(),
        timestamp: "2020-01-01T00:00:00Z".to_owned(),
        url: "https://api.github.com/repos/o/r/commits/abc123".to_owned(),
        author: author("ada"),
        committer: author("grace"),
        added: vec!["src/new.rs".to_owned()],
        removed: vec![],
        modified: vec![Json::Str("src/lib.rs".to_owned())],
    }
}

fn sample_push() -> PushEvent {
    PushEvent {
        ref_field: "refs/heads/main".to_owned(),
        before: "0000000000".to_owned(),
        after: "abc123".to_owned(),
        repository: Repository {
            id: 7,
            name: "r".to_owned(),
            full_name: "o/r".to_owned(),
        },
        pusher: Pusher {
            name: "ada".to_owned(),
            email: "ada@example.com".to_owned(),
        },
        sender: User {
            login: "ada".to_owned(),
            id: 99,
        },
        created: false,
        deleted: false,
        forced: true,
        base_ref: Json::Null,
        compare: "https://github.com/o/r/compare/x...y".to_owned(),
        commits: vec![],
        head_commit: sample_head_commit(),
    }
}

const MIN_PUSH_BODY: &str = r#"{
  "ref": "refs/heads/main",
  "before": "0000000000",
  "after": "abc123",
  "repository": {"id": 7, "name": "r", "full_name": "o/r"},
  "pusher": {"name": "ada", "email": "ada@example.com"},
  "sender": {"login": "ada", "id": 99},
  "created": false,
  "deleted": false,
  "forced": true,
  "base_ref": null,
  "compare": "https://github.com/o/r/compare/x...y",
  "commits": [],
  "head_commit": {
    "id": "abc123", "tree_id": "tree456", "distinct": true,
    "message": "fix the build", "timestamp": "2020-01-01T00:00:00Z",
    "url": "https://api.github.com/repos/o/r/commits/abc123",
    "author": {"name": "ada name", "email": "ada@example.com", "username": "ada"},
    "committer": {"name": "grace name", "email": "grace@example.com", "username": "grace"},
    "added": ["src/new.rs"], "removed": [], "modified": ["src/lib.rs"]
  }
}"#;

#[test]
fn classify_known_names() {
    assert_eq!(classify("push"), Ok(EventKind::Push));
    assert_eq!(classify("star"), Ok(EventKind::Star));
    assert_eq!(classify("fork"), Ok(EventKind::Fork));
}

#[test]
fn classify_unknown_name_is_unsupported() {
    match classify("issues") {
        Err(ClassifyError::Unsupported(name)) => assert_eq!(name, "issues"),
        other => panic!("expected Unsupported, got {:?}", other),
    }
    assert!(matches!(classify(""), Err(ClassifyError::Unsupported(_))));
    assert!(matches!(classify("Push"), Err(ClassifyError::Unsupported(_))));
}

#[test]
fn star_action_names_round_trip() {
    assert_eq!(StarAction::from_name("created"), Some(StarAction::Created));
    assert_eq!(StarAction::from_name("deleted"), Some(StarAction::Deleted));
    assert_eq!(StarAction::from_name("Starred"), None);
    assert_eq!(StarAction::from_name(StarAction::Created.name()), Some(StarAction::Created));
    assert_eq!(StarAction::from_name(StarAction::Deleted.name()), Some(StarAction::Deleted));
}

#[test]
fn decode_minimal_push_body() {
    let e = decode(EventKind::Push, MIN_PUSH_BODY.as_bytes()).expect("decode failed");
    match e {
        Event::Push(p) => assert_eq!(p, sample_push()),
        other => panic!("expected a push event, got {:?}", other),
    }
}

#[test]
fn decode_ignores_unknown_fields() {
    let body = r#"{"action":"created","future_field":[1,2,{"x":null}],
        "repository":{"id":1,"name":"r","full_name":"o/r","private":false},
        "sender":{"login":"s","id":2,"site_admin":true}}"#;
    let e = decode(EventKind::Star, body.as_bytes()).expect("decode failed");
    assert_eq!(
        e,
        Event::Star(StarEvent {
            action: StarAction::Created,
            repository: Repository {
                id: 1,
                name: "r".to_owned(),
                full_name: "o/r".to_owned()
            },
            sender: User {
                login: "s".to_owned(),
                id: 2
            },
        })
    );
}

#[test]
fn decode_missing_required_field_is_malformed() {
    // repository is required for a star event
    let body = r#"{"action":"created","sender":{"login":"s","id":2}}"#;
    assert!(matches!(
        decode(EventKind::Star, body.as_bytes()),
        Err(DecodeError::Malformed(_))
    ));
    // wrong type for a required field
    let body2 = r#"{"action":"created","repository":"o/r","sender":{"login":"s","id":2}}"#;
    assert!(matches!(
        decode(EventKind::Star, body2.as_bytes()),
        Err(DecodeError::Malformed(_))
    ));
}

#[test]
fn decode_rejects_bytes_that_are_no_document() {
    assert!(matches!(
        decode(EventKind::Push, b"not json at all"),
        Err(DecodeError::Malformed(_))
    ));
}

#[test]
fn push_round_trips_through_its_schema() {
    let p = sample_push();
    let doc = encode_push(&p);
    let back = decode_push(&doc).expect("decode failed");
    assert_eq!(back, p);
}

#[test]
fn push_with_commits_round_trips() {
    let mut p = sample_push();
    p.commits = vec![Commit {
        id: "c1".to_owned(),
        tree_id: "t1".to_owned(),
        distinct: false,
        message: "one".to_owned(),
        timestamp: "2020-01-02T00:00:00Z".to_owned(),
        url: "https://api.github.com/repos/o/r/commits/c1".to_owned(),
        author: author("ada"),
        committer: author("ada"),
        added: vec![],
        removed: vec![Json::Str("gone.rs".to_owned())],
        modified: vec![],
    }];
    p.base_ref = Json::Str("refs/heads/base".to_owned());
    let doc = encode_push(&p);
    assert_eq!(decode_push(&doc).expect("decode failed"), p);
}

#[test]
fn star_and_fork_round_trip() {
    let star = Event::Star(StarEvent {
        action: StarAction::Deleted,
        repository: Repository {
            id: 3,
            name: "n".to_owned(),
            full_name: "o/n".to_owned(),
        },
        sender: User {
            login: "u".to_owned(),
            id: 4,
        },
    });
    let fork = Event::Fork(ForkEvent {
        forkee: Repository {
            id: 5,
            name: "n2".to_owned(),
            full_name: "f/n2".to_owned(),
        },
        repository: Repository {
            id: 3,
            name: "n".to_owned(),
            full_name: "o/n".to_owned(),
        },
        sender: User {
            login: "u".to_owned(),
            id: 4,
        },
    });
    for (kind, e) in [(EventKind::Star, star), (EventKind::Fork, fork)] {
        let doc = encode_event(&e);
        let bytes = render(&doc);
        assert_eq!(decode(kind, bytes.as_bytes()).expect("decode failed"), e);
    }
}

/// Renders a document as JSON text (test-side only).
fn render(j: &Json) -> String {
    match j {
        Json::Null => "null".to_owned(),
        Json::Bool(b) => b.to_string(),
        Json::Num(n) => n.to_string(),
        Json::Str(s) => serde_json::to_string(s).unwrap(),
        Json::Arr(items) => {
            let parts: Vec<String> = items.iter().map(render).collect();
            format!("[{}]", parts.join(","))
        }
        Json::Obj(pairs) => {
            let parts: Vec<String> = pairs
                .iter()
                .map(|(k, v)| format!("{}:{}", serde_json::to_string(k).unwrap(), render(v)))
                .collect();
            format!("{{{}}}", parts.join(","))
        }
    }
}

#[test]
fn absent_base_ref_decodes_to_null() {
    let body = MIN_PUSH_BODY.replace("\"base_ref\": null,", "");
    assert!(body.len() < MIN_PUSH_BODY.len());
    let e = decode(EventKind::Push, body.as_bytes()).expect("decode failed");
    match e {
        Event::Push(p) => assert_eq!(p.base_ref, Json::Null),
        other => panic!("expected a push event, got {:?}", other),
    }
}

#[test]
fn malformed_commit_in_list_fails_the_push() {
    let body = MIN_PUSH_BODY.replace("\"commits\": [],", "\"commits\": [{\"id\": \"c1\"}],");
    assert!(matches!(
        decode(EventKind::Push, body.as_bytes()),
        Err(DecodeError::Malformed(_))
    ));
}

#[test]
fn first_occurrence_of_a_key_wins() {
    let pairs = vec![
        ("name".to_owned(), Json::Str("first".to_owned())),
        ("name".to_owned(), Json::Str("second".to_owned())),
    ];
    match Json::lookup(&pairs, "name") {
        Some(Json::Str(s)) => assert_eq!(s, "first"),
        other => panic!("unexpected lookup result: {:?}", other),
    }
}

//! Decoding and encoding of event payloads.
//!
//! Each event schema is a set of required fields read off a JSON object;
//! fields not in the schema are ignored, so later additions to GitHub's
//! payloads never fail a decode. Decoding a document that an encoder
//! produced gives the encoded value back; the round-trip laws at the end of
//! this module state that for every schema.

use vstd::prelude::*;
use crate::events::Commit;
use crate::events::CommitV;
use crate::events::HeadCommit;
use crate::events::HeadCommitV;
use crate::events::Pusher;
use crate::events::PusherV;
use crate::events::Repository;
use crate::events::RepositoryV;
use crate::events::SimpleUser;
use crate::events::SimpleUserV;
use crate::events::User;
use crate::events::UserV;
use crate::json::Json;
use crate::json::JsonV;
use crate::json::bool_field;
use crate::json::num_field;
use crate::json::obj_get;
use crate::json::pairs_v;
use crate::json::str_field;
use crate::json::items_v;
use crate::json::lemma_jv_obj;
use crate::events::strs_v;
use crate::events::commits_vv;
use crate::events::PushEvent;
use crate::events::PushEventV;
use crate::events::StarAction;
use crate::events::StarEvent;
use crate::events::StarEventV;
use crate::events::ForkEvent;
use crate::events::ForkEventV;
use crate::events::Event;
use crate::events::EventV;
use crate::events::star_action_of;
use crate::classify::EventKind;

verus! {

/// A payload that violates the schema of its (known) event kind: a required
/// field is missing or has the wrong shape. Carries the name of the field
/// (never payload contents).
#[derive(Debug, Clone, PartialEq)]
pub enum DecodeError {
    Malformed(String),
}

fn malformed(what: &str) -> (r: DecodeError)
    ensures
        r matches DecodeError::Malformed(m) && m@ == what@,
{
    DecodeError::Malformed(what.to_owned())
}

/// The string under a key of an object's pair list, if present with a
/// string value.
pub fn get_str(pairs: &Vec<(String, Json)>, key: &str) -> (r: Option<String>)
    ensures
        match r {
            Some(s) => str_field(pairs_v(pairs@), key@) == Some(s@),
            None => str_field(pairs_v(pairs@), key@) is None,
        },
{
    match Json::lookup(pairs, key) {
        Some(v) => match v {
            Json::Str(s) => Some(s.clone()),
            _ => None,
        },
        None => None,
    }
}

/// The boolean under a key, if present with a boolean value.
pub fn get_bool(pairs: &Vec<(String, Json)>, key: &str) -> (r: Option<bool>)
    ensures
        match r {
            Some(b) => bool_field(pairs_v(pairs@), key@) == Some(b),
            None => bool_field(pairs_v(pairs@), key@) is None,
        },
{
    match Json::lookup(pairs, key) {
        Some(v) => match v {
            Json::Bool(b) => Some(*b),
            _ => None,
        },
        None => None,
    }
}

/// The integer under a key, if present with a numeric value.
pub fn get_num(pairs: &Vec<(String, Json)>, key: &str) -> (r: Option<i64>)
    ensures
        match r {
            Some(n) => num_field(pairs_v(pairs@), key@) == Some(n as int),
            None => num_field(pairs_v(pairs@), key@) is None,
        },
{
    match Json::lookup(pairs, key) {
        Some(v) => match v {
            Json::Num(n) => Some(*n),
            _ => None,
        },
        None => None,
    }
}

/// A pusher payload holds its two names as strings.
pub open spec fn pusher_ok(j: JsonV) -> bool {
    j matches JsonV::Obj(ps) && str_field(ps, "name"@) is Some && str_field(ps, "email"@) is Some
}

/// The pusher a well-formed payload denotes.
pub open spec fn pusher_val(j: JsonV) -> PusherV
    recommends
        pusher_ok(j),
{
    PusherV {
        name: str_field(j->Obj_0, "name"@)->Some_0,
        email: str_field(j->Obj_0, "email"@)->Some_0,
    }
}

/// The document that encodes a pusher.
pub open spec fn pusher_enc(p: PusherV) -> JsonV {
    JsonV::Obj(seq![("name"@, JsonV::Str(p.name)), ("email"@, JsonV::Str(p.email))])
}

/// Reads a pusher out of a payload document; fails exactly on documents
/// that violate the schema.
pub fn decode_pusher(j: &Json) -> (r: Result<Pusher, DecodeError>)
    ensures
        r is Ok <==> pusher_ok(j@),
        r matches Ok(p) ==> p@ == pusher_val(j@),
{
    let pairs = match j {
        Json::Obj(pairs) => pairs,
        _ => {
            return Err(malformed("pusher"));
        },
    };
    proof {
        lemma_jv_obj(*pairs);
    }
    let name = match get_str(pairs, "name") {
        Some(s) => s,
        None => {
            return Err(malformed("name"));
        },
    };
    let email = match get_str(pairs, "email") {
        Some(s) => s,
        None => {
            return Err(malformed("email"));
        },
    };
    Ok(Pusher { name, email })
}

/// Writes a pusher as a payload document.
pub fn encode_pusher(p: &Pusher) -> (r: Json)
    ensures
        r@ == pusher_enc(p@),
{
    let mut pairs: Vec<(String, Json)> = Vec::new();
    pairs.push(("name".to_owned(), Json::Str(p.name.clone())));
    pairs.push(("email".to_owned(), Json::Str(p.email.clone())));
    let r = Json::Obj(pairs);
    proof {
        lemma_jv_obj(r->Obj_0);
        assert(pairs_v(pairs@) =~= pusher_enc(p@)->Obj_0);
    }
    r
}

/// A commit author or committer holds its three names as strings.
pub open spec fn simple_user_ok(j: JsonV) -> bool {
    j matches JsonV::Obj(ps) && str_field(ps, "name"@) is Some && str_field(ps, "email"@) is Some
        && str_field(ps, "username"@) is Some
}

/// The commit author a well-formed payload denotes.
pub open spec fn simple_user_val(j: JsonV) -> SimpleUserV
    recommends
        simple_user_ok(j),
{
    SimpleUserV {
        name: str_field(j->Obj_0, "name"@)->Some_0,
        email: str_field(j->Obj_0, "email"@)->Some_0,
        username: str_field(j->Obj_0, "username"@)->Some_0,
    }
}

/// The document that encodes a commit author.
pub open spec fn simple_user_enc(u: SimpleUserV) -> JsonV {
    JsonV::Obj(
        seq![
            ("name"@, JsonV::Str(u.name)),
            ("email"@, JsonV::Str(u.email)),
            ("username"@, JsonV::Str(u.username)),
        ],
    )
}

/// Reads a commit author out of a payload document.
pub fn decode_simple_user(j: &Json) -> (r: Result<SimpleUser, DecodeError>)
    ensures
        r is Ok <==> simple_user_ok(j@),
        r matches Ok(u) ==> u@ == simple_user_val(j@),
{
    let pairs = match j {
        Json::Obj(pairs) => pairs,
        _ => {
            return Err(malformed("user"));
        },
    };
    proof {
        lemma_jv_obj(*pairs);
    }
    let name = match get_str(pairs, "name") {
        Some(s) => s,
        None => {
            return Err(malformed("name"));
        },
    };
    let email = match get_str(pairs, "email") {
        Some(s) => s,
        None => {
            return Err(malformed("email"));
        },
    };
    let username = match get_str(pairs, "username") {
        Some(s) => s,
        None => {
            return Err(malformed("username"));
        },
    };
    Ok(SimpleUser { name, email, username })
}

/// Writes a commit author as a payload document.
pub fn encode_simple_user(u: &SimpleUser) -> (r: Json)
    ensures
        r@ == simple_user_enc(u@),
{
    let mut pairs: Vec<(String, Json)> = Vec::new();
    pairs.push(("name".to_owned(), Json::Str(u.name.clone())));
    pairs.push(("email".to_owned(), Json::Str(u.email.clone())));
    pairs.push(("username".to_owned(), Json::Str(u.username.clone())));
    let r = Json::Obj(pairs);
    proof {
        lemma_jv_obj(r->Obj_0);
        assert(pairs_v(pairs@) =~= simple_user_enc(u@)->Obj_0);
    }
    r
}

/// Law: decoding an encoded commit author gives it back.
pub proof fn lemma_simple_user_round_trip(u: SimpleUserV)
    ensures
        simple_user_ok(simple_user_enc(u)),
        simple_user_val(simple_user_enc(u)) == u,
{
    reveal_strlit("name");
    reveal_strlit("email");
    reveal_strlit("username");
    let ps = simple_user_enc(u)->Obj_0;
    assert("name"@.len() == 4);
    assert("email"@.len() == 5);
    assert("username"@.len() == 8);
    assert(obj_get(ps, "name"@) == Some(JsonV::Str(u.name)));
    assert(forall|i: int| 0 <= i < 1 ==> ps[i].0 != "email"@);
    crate::json::lemma_obj_get_skip(ps, "email"@, 1);
    assert(ps.skip(1)[0] == ps[1]);
    assert(obj_get(ps, "email"@) == Some(JsonV::Str(u.email)));
    assert(forall|i: int| 0 <= i < 2 ==> ps[i].0 != "username"@);
    crate::json::lemma_obj_get_skip(ps, "username"@, 2);
    assert(ps.skip(2)[0] == ps[2]);
    assert(obj_get(ps, "username"@) == Some(JsonV::Str(u.username)));
}

/// A sender holds a login string and a numeric account id.
pub open spec fn user_ok(j: JsonV) -> bool {
    j matches JsonV::Obj(ps) && str_field(ps, "login"@) is Some && num_field(ps, "id"@) is Some
}

/// The sender a well-formed payload denotes.
pub open spec fn user_val(j: JsonV) -> UserV
    recommends
        user_ok(j),
{
    UserV { login: str_field(j->Obj_0, "login"@)->Some_0, id: num_field(j->Obj_0, "id"@)->Some_0 }
}

/// The document that encodes a sender.
pub open spec fn user_enc(u: UserV) -> JsonV {
    JsonV::Obj(seq![("login"@, JsonV::Str(u.login)), ("id"@, JsonV::Num(u.id))])
}

/// Reads a sender out of a payload document.
pub fn decode_user(j: &Json) -> (r: Result<User, DecodeError>)
    ensures
        r is Ok <==> user_ok(j@),
        r matches Ok(u) ==> u@ == user_val(j@),
{
    let pairs = match j {
        Json::Obj(pairs) => pairs,
        _ => {
            return Err(malformed("sender"));
        },
    };
    proof {
        lemma_jv_obj(*pairs);
    }
    let login = match get_str(pairs, "login") {
        Some(s) => s,
        None => {
            return Err(malformed("login"));
        },
    };
    let id = match get_num(pairs, "id") {
        Some(n) => n,
        None => {
            return Err(malformed("id"));
        },
    };
    Ok(User { login, id })
}

/// Writes a sender as a payload document.
pub fn encode_user(u: &User) -> (r: Json)
    ensures
        r@ == user_enc(u@),
{
    let mut pairs: Vec<(String, Json)> = Vec::new();
    pairs.push(("login".to_owned(), Json::Str(u.login.clone())));
    pairs.push(("id".to_owned(), Json::Num(u.id)));
    let r = Json::Obj(pairs);
    proof {
        lemma_jv_obj(r->Obj_0);
        assert(pairs_v(pairs@) =~= user_enc(u@)->Obj_0);
    }
    r
}

/// Law: decoding an encoded sender gives it back.
pub proof fn lemma_user_round_trip(u: UserV)
    ensures
        user_ok(user_enc(u)),
        user_val(user_enc(u)) == u,
{
    reveal_strlit("login");
    reveal_strlit("id");
    let ps = user_enc(u)->Obj_0;
    assert("login"@.len() == 5);
    assert("id"@.len() == 2);
    assert(obj_get(ps, "login"@) == Some(JsonV::Str(u.login)));
    assert(forall|i: int| 0 <= i < 1 ==> ps[i].0 != "id"@);
    crate::json::lemma_obj_get_skip(ps, "id"@, 1);
    assert(ps.skip(1)[0] == ps[1]);
    assert(obj_get(ps, "id"@) == Some(JsonV::Num(u.id)));
}

/// A repository reference holds a numeric id and two name strings.
pub open spec fn repo_ok(j: JsonV) -> bool {
    j matches JsonV::Obj(ps) && num_field(ps, "id"@) is Some && str_field(ps, "name"@) is Some
        && str_field(ps, "full_name"@) is Some
}

/// The repository a well-formed payload denotes.
pub open spec fn repo_val(j: JsonV) -> RepositoryV
    recommends
        repo_ok(j),
{
    RepositoryV {
        id: num_field(j->Obj_0, "id"@)->Some_0,
        name: str_field(j->Obj_0, "name"@)->Some_0,
        full_name: str_field(j->Obj_0, "full_name"@)->Some_0,
    }
}

/// The document that encodes a repository reference.
pub open spec fn repo_enc(x: RepositoryV) -> JsonV {
    JsonV::Obj(
        seq![
            ("id"@, JsonV::Num(x.id)),
            ("name"@, JsonV::Str(x.name)),
            ("full_name"@, JsonV::Str(x.full_name)),
        ],
    )
}

/// Reads a repository reference out of a payload document.
pub fn decode_repo(j: &Json) -> (r: Result<Repository, DecodeError>)
    ensures
        r is Ok <==> repo_ok(j@),
        r matches Ok(x) ==> x@ == repo_val(j@),
{
    let pairs = match j {
        Json::Obj(pairs) => pairs,
        _ => {
            return Err(malformed("repository"));
        },
    };
    proof {
        lemma_jv_obj(*pairs);
    }
    let id = match get_num(pairs, "id") {
        Some(n) => n,
        None => {
            return Err(malformed("id"));
        },
    };
    let name = match get_str(pairs, "name") {
        Some(s) => s,
        None => {
            return Err(malformed("name"));
        },
    };
    let full_name = match get_str(pairs, "full_name") {
        Some(s) => s,
        None => {
            return Err(malformed("full_name"));
        },
    };
    Ok(Repository { id, name, full_name })
}

/// Writes a repository reference as a payload document.
pub fn encode_repo(x: &Repository) -> (r: Json)
    ensures
        r@ == repo_enc(x@),
{
    let mut pairs: Vec<(String, Json)> = Vec::new();
    pairs.push(("id".to_owned(), Json::Num(x.id)));
    pairs.push(("name".to_owned(), Json::Str(x.name.clone())));
    pairs.push(("full_name".to_owned(), Json::Str(x.full_name.clone())));
    let r = Json::Obj(pairs);
    proof {
        lemma_jv_obj(r->Obj_0);
        assert(pairs_v(pairs@) =~= repo_enc(x@)->Obj_0);
    }
    r
}

/// Law: decoding an encoded repository reference gives it back.
pub proof fn lemma_repo_round_trip(x: RepositoryV)
    ensures
        repo_ok(repo_enc(x)),
        repo_val(repo_enc(x)) == x,
{
    reveal_strlit("id");
    reveal_strlit("name");
    reveal_strlit("full_name");
    let ps = repo_enc(x)->Obj_0;
    assert("id"@.len() == 2);
    assert("name"@.len() == 4);
    assert("full_name"@.len() == 9);
    assert(obj_get(ps, "id"@) == Some(JsonV::Num(x.id)));
    assert(forall|i: int| 0 <= i < 1 ==> ps[i].0 != "name"@);
    crate::json::lemma_obj_get_skip(ps, "name"@, 1);
    assert(ps.skip(1)[0] == ps[1]);
    assert(obj_get(ps, "name"@) == Some(JsonV::Str(x.name)));
    assert(forall|i: int| 0 <= i < 2 ==> ps[i].0 != "full_name"@);
    crate::json::lemma_obj_get_skip(ps, "full_name"@, 2);
    assert(ps.skip(2)[0] == ps[2]);
    assert(obj_get(ps, "full_name"@) == Some(JsonV::Str(x.full_name)));
}

/// A list of string payloads.
pub open spec fn strings_ok(s: Seq<JsonV>) -> bool {
    forall|i: int| 0 <= i < s.len() ==> (#[trigger] s[i]) is Str
}

/// The strings such a list denotes.
pub open spec fn strings_val(s: Seq<JsonV>) -> Seq<Seq<char>>
    recommends
        strings_ok(s),
{
    Seq::new(s.len(), |i: int| s[i]->Str_0)
}

/// The item list that encodes a list of strings.
pub open spec fn strings_enc(s: Seq<Seq<char>>) -> Seq<JsonV> {
    Seq::new(s.len(), |i: int| JsonV::Str(s[i]))
}

/// Reads a list of strings out of an array's item list.
pub fn decode_strings(items: &Vec<Json>) -> (r: Option<Vec<String>>)
    ensures
        match r {
            Some(v) => strings_ok(items_v(items@)) && strs_v(v@) == strings_val(items_v(items@)),
            None => !strings_ok(items_v(items@)),
        },
{
    let mut out: Vec<String> = Vec::new();
    let mut i: usize = 0;
    while i < items.len()
        invariant
            0 <= i <= items.len(),
            out@.len() == i,
            forall|k: int|
                0 <= k < i ==> (#[trigger] items_v(items@)[k]) is Str && strs_v(out@)[k]
                    == items_v(items@)[k]->Str_0,
        decreases items.len() - i,
    {
        let it = &items[i];
        match it {
            Json::Str(s) => {
                out.push(s.clone());
            },
            _ => {
                proof {
                    assert(!((items_v(items@))[i as int] is Str));
                }
                return None;
            },
        }
        i = i + 1;
    }
    proof {
        assert(strs_v(out@) =~= strings_val(items_v(items@)));
    }
    Some(out)
}

/// Writes a list of strings as an array's item list.
pub fn encode_strings(v: &Vec<String>) -> (r: Vec<Json>)
    ensures
        items_v(r@) == strings_enc(strs_v(v@)),
{
    let mut out: Vec<Json> = Vec::new();
    let mut i: usize = 0;
    while i < v.len()
        invariant
            0 <= i <= v.len(),
            out@.len() == i,
            forall|k: int| 0 <= k < i ==> out@[k]@ == JsonV::Str(v@[k]@),
        decreases v.len() - i,
    {
        out.push(Json::Str(v[i].clone()));
        i = i + 1;
    }
    proof {
        assert(items_v(out@) =~= strings_enc(strs_v(v@)));
    }
    out
}

/// Law: decoding an encoded list of strings gives it back.
pub proof fn lemma_strings_round_trip(s: Seq<Seq<char>>)
    ensures
        strings_ok(strings_enc(s)),
        strings_val(strings_enc(s)) == s,
{
    assert(strings_val(strings_enc(s)) =~= s);
}

/// A copy of an array's item list, item for item.
pub fn clone_items(items: &Vec<Json>) -> (r: Vec<Json>)
    ensures
        items_v(r@) == items_v(items@),
{
    let mut out: Vec<Json> = Vec::new();
    let mut i: usize = 0;
    while i < items.len()
        invariant
            0 <= i <= items.len(),
            out@.len() == i,
            forall|k: int| 0 <= k < i ==> items_v(out@)[k] == items_v(items@)[k],
        decreases items.len() - i,
    {
        let d = items[i].duplicate();
        out.push(d);
        i = i + 1;
    }
    proof {
        assert(items_v(out@) =~= items_v(items@));
    }
    out
}

/// A commit payload holds its six scalar fields, its two authors, and its
/// three file lists, of which `added` is a list of paths and the other two
/// may take any shape.
pub open spec fn commit_ok(j: JsonV) -> bool {
    j matches JsonV::Obj(ps) && str_field(ps, "id"@) is Some && str_field(ps, "tree_id"@) is Some
        && bool_field(ps, "distinct"@) is Some && str_field(ps, "message"@) is Some && str_field(
        ps,
        "timestamp"@,
    ) is Some && str_field(ps, "url"@) is Some && (obj_get(ps, "author"@) matches Some(a)
        && simple_user_ok(a)) && (obj_get(ps, "committer"@) matches Some(c) && simple_user_ok(c))
        && (obj_get(ps, "added"@) matches Some(ad) && ad matches JsonV::Arr(adi) && strings_ok(adi))
        && (obj_get(ps, "removed"@) matches Some(JsonV::Arr(_))) && (obj_get(ps, "modified"@)
        matches Some(JsonV::Arr(_)))
}

/// The commit a well-formed payload denotes.
pub open spec fn commit_val(j: JsonV) -> CommitV
    recommends
        commit_ok(j),
{
    let ps = j->Obj_0;
    CommitV {
        id: str_field(ps, "id"@)->Some_0,
        tree_id: str_field(ps, "tree_id"@)->Some_0,
        distinct: bool_field(ps, "distinct"@)->Some_0,
        message: str_field(ps, "message"@)->Some_0,
        timestamp: str_field(ps, "timestamp"@)->Some_0,
        url: str_field(ps, "url"@)->Some_0,
        author: simple_user_val(obj_get(ps, "author"@)->Some_0),
        committer: simple_user_val(obj_get(ps, "committer"@)->Some_0),
        added: strings_val(obj_get(ps, "added"@)->Some_0->Arr_0),
        removed: obj_get(ps, "removed"@)->Some_0->Arr_0,
        modified: obj_get(ps, "modified"@)->Some_0->Arr_0,
    }
}

/// The document that encodes a commit.
pub open spec fn commit_enc(c: CommitV) -> JsonV {
    JsonV::Obj(
        seq![
            ("id"@, JsonV::Str(c.id)),
            ("tree_id"@, JsonV::Str(c.tree_id)),
            ("distinct"@, JsonV::Bool(c.distinct)),
            ("message"@, JsonV::Str(c.message)),
            ("timestamp"@, JsonV::Str(c.timestamp)),
            ("url"@, JsonV::Str(c.url)),
            ("author"@, simple_user_enc(c.author)),
            ("committer"@, simple_user_enc(c.committer)),
            ("added"@, JsonV::Arr(strings_enc(c.added))),
            ("removed"@, JsonV::Arr(c.removed)),
            ("modified"@, JsonV::Arr(c.modified)),
        ],
    )
}

/// Reads a commit out of a payload document.
pub fn decode_commit(j: &Json) -> (r: Result<Commit, DecodeError>)
    ensures
        r is Ok <==> commit_ok(j@),
        r matches Ok(c) ==> c@ == commit_val(j@),
{
    let pairs = match j {
        Json::Obj(pairs) => pairs,
        _ => {
            return Err(malformed("commit"));
        },
    };
    proof {
        lemma_jv_obj(*pairs);
    }
    let id = match get_str(pairs, "id") {
        Some(s) => s,
        None => {
            return Err(malformed("id"));
        },
    };
    let tree_id = match get_str(pairs, "tree_id") {
        Some(s) => s,
        None => {
            return Err(malformed("tree_id"));
        },
    };
    let distinct = match get_bool(pairs, "distinct") {
        Some(b) => b,
        None => {
            return Err(malformed("distinct"));
        },
    };
    let message = match get_str(pairs, "message") {
        Some(s) => s,
        None => {
            return Err(malformed("message"));
        },
    };
    let timestamp = match get_str(pairs, "timestamp") {
        Some(s) => s,
        None => {
            return Err(malformed("timestamp"));
        },
    };
    let url = match get_str(pairs, "url") {
        Some(s) => s,
        None => {
            return Err(malformed("url"));
        },
    };
    let aj = match Json::lookup(pairs, "author") {
        Some(v) => v,
        None => {
            return Err(malformed("author"));
        },
    };
    let author = match decode_simple_user(aj) {
        Ok(u) => u,
        Err(e) => {
            return Err(e);
        },
    };
    let cj = match Json::lookup(pairs, "committer") {
        Some(v) => v,
        None => {
            return Err(malformed("committer"));
        },
    };
    let committer = match decode_simple_user(cj) {
        Ok(u) => u,
        Err(e) => {
            return Err(e);
        },
    };
    let adj = match Json::lookup(pairs, "added") {
        Some(v) => v,
        None => {
            return Err(malformed("added"));
        },
    };
    let added_items = match adj {
        Json::Arr(items) => items,
        _ => {
            return Err(malformed("added"));
        },
    };
    proof {
        crate::json::lemma_jv_arr(*added_items);
    }
    let added = match decode_strings(added_items) {
        Some(v) => v,
        None => {
            return Err(malformed("added"));
        },
    };
    let rj = match Json::lookup(pairs, "removed") {
        Some(v) => v,
        None => {
            return Err(malformed("removed"));
        },
    };
    let removed_items = match rj {
        Json::Arr(items) => items,
        _ => {
            return Err(malformed("removed"));
        },
    };
    proof {
        crate::json::lemma_jv_arr(*removed_items);
    }
    let removed = clone_items(removed_items);
    let mj = match Json::lookup(pairs, "modified") {
        Some(v) => v,
        None => {
            return Err(malformed("modified"));
        },
    };
    let modified_items = match mj {
        Json::Arr(items) => items,
        _ => {
            return Err(malformed("modified"));
        },
    };
    proof {
        crate::json::lemma_jv_arr(*modified_items);
    }
    let modified = clone_items(modified_items);
    Ok(
        Commit {
            id,
            tree_id,
            distinct,
            message,
            timestamp,
            url,
            author,
            committer,
            added,
            removed,
            modified,
        },
    )
}

/// Writes a commit as a payload document.
pub fn encode_commit(c: &Commit) -> (r: Json)
    ensures
        r@ == commit_enc(c@),
{
    let mut pairs: Vec<(String, Json)> = Vec::new();
    pairs.push(("id".to_owned(), Json::Str(c.id.clone())));
    pairs.push(("tree_id".to_owned(), Json::Str(c.tree_id.clone())));
    pairs.push(("distinct".to_owned(), Json::Bool(c.distinct)));
    pairs.push(("message".to_owned(), Json::Str(c.message.clone())));
    pairs.push(("timestamp".to_owned(), Json::Str(c.timestamp.clone())));
    pairs.push(("url".to_owned(), Json::Str(c.url.clone())));
    pairs.push(("author".to_owned(), encode_simple_user(&c.author)));
    pairs.push(("committer".to_owned(), encode_simple_user(&c.committer)));
    pairs.push(("added".to_owned(), Json::Arr(encode_strings(&c.added))));
    pairs.push(("removed".to_owned(), Json::Arr(clone_items(&c.removed))));
    pairs.push(("modified".to_owned(), Json::Arr(clone_items(&c.modified))));
    let r = Json::Obj(pairs);
    proof {
        lemma_jv_obj(r->Obj_0);
        crate::json::lemma_jv_arr(pairs@[8].1->Arr_0);
        crate::json::lemma_jv_arr(pairs@[9].1->Arr_0);
        crate::json::lemma_jv_arr(pairs@[10].1->Arr_0);
        assert(pairs_v(pairs@) =~~= commit_enc(c@)->Obj_0);
    }
    r
}

/// Law: decoding an encoded commit gives the commit back.
pub proof fn lemma_commit_round_trip(c: CommitV)
    ensures
        commit_ok(commit_enc(c)),
        commit_val(commit_enc(c)) == c,
{
    reveal_strlit("id");
    reveal_strlit("tree_id");
    reveal_strlit("distinct");
    reveal_strlit("message");
    reveal_strlit("timestamp");
    reveal_strlit("url");
    reveal_strlit("author");
    reveal_strlit("committer");
    reveal_strlit("added");
    reveal_strlit("removed");
    reveal_strlit("modified");
    let ps = commit_enc(c)->Obj_0;
    assert("id"@.len() == 2);
    assert("tree_id"@.len() == 7);
    assert("distinct"@.len() == 8);
    assert("message"@.len() == 7);
    assert("timestamp"@.len() == 9);
    assert("url"@.len() == 3);
    assert("author"@.len() == 6);
    assert("committer"@.len() == 9);
    assert("added"@.len() == 5);
    assert("removed"@.len() == 7);
    assert("modified"@.len() == 8);
    assert("tree_id"@[0] != "message"@[0]);
    assert("tree_id"@[0] != "removed"@[0]);
    assert("message"@[0] != "removed"@[0]);
    assert("distinct"@[0] != "modified"@[0]);
    assert("timestamp"@[0] != "committer"@[0]);
    assert(obj_get(ps, "id"@) == Some(JsonV::Str(c.id)));
    assert(forall|i: int| 0 <= i < 1 ==> ps[i].0 != "tree_id"@);
    crate::json::lemma_obj_get_skip(ps, "tree_id"@, 1);
    assert(ps.skip(1)[0] == ps[1]);
    assert(obj_get(ps, "tree_id"@) == Some(JsonV::Str(c.tree_id)));
    assert(forall|i: int| 0 <= i < 2 ==> ps[i].0 != "distinct"@);
    crate::json::lemma_obj_get_skip(ps, "distinct"@, 2);
    assert(ps.skip(2)[0] == ps[2]);
    assert(obj_get(ps, "distinct"@) == Some(JsonV::Bool(c.distinct)));
    assert(forall|i: int| 0 <= i < 3 ==> ps[i].0 != "message"@);
    crate::json::lemma_obj_get_skip(ps, "message"@, 3);
    assert(ps.skip(3)[0] == ps[3]);
    assert(obj_get(ps, "message"@) == Some(JsonV::Str(c.message)));
    assert(forall|i: int| 0 <= i < 4 ==> ps[i].0 != "timestamp"@);
    crate::json::lemma_obj_get_skip(ps, "timestamp"@, 4);
    assert(ps.skip(4)[0] == ps[4]);
    assert(obj_get(ps, "timestamp"@) == Some(JsonV::Str(c.timestamp)));
    assert(forall|i: int| 0 <= i < 5 ==> ps[i].0 != "url"@);
    crate::json::lemma_obj_get_skip(ps, "url"@, 5);
    assert(ps.skip(5)[0] == ps[5]);
    assert(obj_get(ps, "url"@) == Some(JsonV::Str(c.url)));
    assert(forall|i: int| 0 <= i < 6 ==> ps[i].0 != "author"@);
    crate::json::lemma_obj_get_skip(ps, "author"@, 6);
    assert(ps.skip(6)[0] == ps[6]);
    assert(obj_get(ps, "author"@) == Some(simple_user_enc(c.author)));
    assert(forall|i: int| 0 <= i < 7 ==> ps[i].0 != "committer"@);
    crate::json::lemma_obj_get_skip(ps, "committer"@, 7);
    assert(ps.skip(7)[0] == ps[7]);
    assert(obj_get(ps, "committer"@) == Some(simple_user_enc(c.committer)));
    assert(forall|i: int| 0 <= i < 8 ==> ps[i].0 != "added"@);
    crate::json::lemma_obj_get_skip(ps, "added"@, 8);
    assert(ps.skip(8)[0] == ps[8]);
    assert(obj_get(ps, "added"@) == Some(JsonV::Arr(strings_enc(c.added))));
    assert(forall|i: int| 0 <= i < 9 ==> ps[i].0 != "removed"@);
    crate::json::lemma_obj_get_skip(ps, "removed"@, 9);
    assert(ps.skip(9)[0] == ps[9]);
    assert(obj_get(ps, "removed"@) == Some(JsonV::Arr(c.removed)));
    assert(forall|i: int| 0 <= i < 10 ==> ps[i].0 != "modified"@);
    crate::json::lemma_obj_get_skip(ps, "modified"@, 10);
    assert(ps.skip(10)[0] == ps[10]);
    assert(obj_get(ps, "modified"@) == Some(JsonV::Arr(c.modified)));
    lemma_simple_user_round_trip(c.author);
    lemma_simple_user_round_trip(c.committer);
    lemma_strings_round_trip(c.added);
}

/// Law: decoding an encoded pusher gives the pusher back.
pub proof fn lemma_pusher_round_trip(p: PusherV)
    ensures
        pusher_ok(pusher_enc(p)),
        pusher_val(pusher_enc(p)) == p,
{
    reveal_strlit("name");
    reveal_strlit("email");
    let ps = pusher_enc(p)->Obj_0;
    assert(obj_get(ps, "name"@) == Some(JsonV::Str(p.name)));
    assert("name"@.len() == 4);
    assert("email"@.len() == 5);
    assert("name"@ != "email"@);
    assert(ps.drop_first() =~= seq![("email"@, JsonV::Str(p.email))]);
    assert(obj_get(ps.drop_first(), "email"@) == Some(JsonV::Str(p.email)));
    assert(obj_get(ps, "email"@) == Some(JsonV::Str(p.email)));
}


/// The head commit of a push, field for field the same schema as a commit.
pub open spec fn hc_of(c: CommitV) -> HeadCommitV {
    HeadCommitV {
        id: c.id,
        tree_id: c.tree_id,
        distinct: c.distinct,
        message: c.message,
        timestamp: c.timestamp,
        url: c.url,
        author: c.author,
        committer: c.committer,
        added: c.added,
        removed: c.removed,
        modified: c.modified,
    }
}

/// The commit a head commit reads as.
pub open spec fn cv_of(h: HeadCommitV) -> CommitV {
    CommitV {
        id: h.id,
        tree_id: h.tree_id,
        distinct: h.distinct,
        message: h.message,
        timestamp: h.timestamp,
        url: h.url,
        author: h.author,
        committer: h.committer,
        added: h.added,
        removed: h.removed,
        modified: h.modified,
    }
}

/// The head commit a well-formed payload denotes.
pub open spec fn head_commit_val(j: JsonV) -> HeadCommitV
    recommends
        commit_ok(j),
{
    hc_of(commit_val(j))
}

/// The document that encodes a head commit.
pub open spec fn head_commit_enc(h: HeadCommitV) -> JsonV {
    commit_enc(cv_of(h))
}

/// Reads a head commit out of a payload document.
pub fn decode_head_commit(j: &Json) -> (r: Result<HeadCommit, DecodeError>)
    ensures
        r is Ok <==> commit_ok(j@),
        r matches Ok(h) ==> h@ == head_commit_val(j@),
{
    let c = match decode_commit(j) {
        Ok(c) => c,
        Err(e) => {
            return Err(e);
        },
    };
    Ok(
        HeadCommit {
            id: c.id,
            tree_id: c.tree_id,
            distinct: c.distinct,
            message: c.message,
            timestamp: c.timestamp,
            url: c.url,
            author: c.author,
            committer: c.committer,
            added: c.added,
            removed: c.removed,
            modified: c.modified,
        },
    )
}

/// Writes a head commit as a payload document.
pub fn encode_head_commit(h: &HeadCommit) -> (r: Json)
    ensures
        r@ == head_commit_enc(h@),
{
    let mut pairs: Vec<(String, Json)> = Vec::new();
    pairs.push(("id".to_owned(), Json::Str(h.id.clone())));
    pairs.push(("tree_id".to_owned(), Json::Str(h.tree_id.clone())));
    pairs.push(("distinct".to_owned(), Json::Bool(h.distinct)));
    pairs.push(("message".to_owned(), Json::Str(h.message.clone())));
    pairs.push(("timestamp".to_owned(), Json::Str(h.timestamp.clone())));
    pairs.push(("url".to_owned(), Json::Str(h.url.clone())));
    pairs.push(("author".to_owned(), encode_simple_user(&h.author)));
    pairs.push(("committer".to_owned(), encode_simple_user(&h.committer)));
    pairs.push(("added".to_owned(), Json::Arr(encode_strings(&h.added))));
    pairs.push(("removed".to_owned(), Json::Arr(clone_items(&h.removed))));
    pairs.push(("modified".to_owned(), Json::Arr(clone_items(&h.modified))));
    let r = Json::Obj(pairs);
    proof {
        lemma_jv_obj(r->Obj_0);
        crate::json::lemma_jv_arr(pairs@[8].1->Arr_0);
        crate::json::lemma_jv_arr(pairs@[9].1->Arr_0);
        crate::json::lemma_jv_arr(pairs@[10].1->Arr_0);
        assert(pairs_v(pairs@) =~~= head_commit_enc(h@)->Obj_0);
    }
    r
}

/// Law: decoding an encoded head commit gives it back.
pub proof fn lemma_head_commit_round_trip(h: HeadCommitV)
    ensures
        commit_ok(head_commit_enc(h)),
        head_commit_val(head_commit_enc(h)) == h,
{
    lemma_commit_round_trip(cv_of(h));
}

/// A list of commit payloads, every one well formed.
pub open spec fn commits_ok(s: Seq<JsonV>) -> bool {
    forall|i: int| 0 <= i < s.len() ==> commit_ok(#[trigger] s[i])
}

/// The commits such a list denotes.
pub open spec fn commits_val(s: Seq<JsonV>) -> Seq<CommitV>
    recommends
        commits_ok(s),
{
    Seq::new(s.len(), |i: int| commit_val(s[i]))
}

/// The item list that encodes a list of commits.
pub open spec fn commits_enc(s: Seq<CommitV>) -> Seq<JsonV> {
    Seq::new(s.len(), |i: int| commit_enc(s[i]))
}

/// Reads a list of commits out of an array's item list.
pub fn decode_commits(items: &Vec<Json>) -> (r: Result<Vec<Commit>, DecodeError>)
    ensures
        r is Ok <==> commits_ok(items_v(items@)),
        r matches Ok(v) ==> commits_vv(v@) == commits_val(items_v(items@)),
{
    let mut out: Vec<Commit> = Vec::new();
    let mut i: usize = 0;
    while i < items.len()
        invariant
            0 <= i <= items.len(),
            out@.len() == i,
            forall|k: int|
                0 <= k < i ==> commit_ok(#[trigger] items_v(items@)[k]) && commits_vv(out@)[k]
                    == commit_val(items_v(items@)[k]),
        decreases items.len() - i,
    {
        let c = match decode_commit(&items[i]) {
            Ok(c) => c,
            Err(e) => {
                proof {
                    assert(!commit_ok(items_v(items@)[i as int]));
                }
                return Err(e);
            },
        };
        out.push(c);
        i = i + 1;
    }
    proof {
        assert(commits_vv(out@) =~= commits_val(items_v(items@)));
    }
    Ok(out)
}

/// Writes a list of commits as an array's item list.
pub fn encode_commits(v: &Vec<Commit>) -> (r: Vec<Json>)
    ensures
        items_v(r@) == commits_enc(commits_vv(v@)),
{
    let mut out: Vec<Json> = Vec::new();
    let mut i: usize = 0;
    while i < v.len()
        invariant
            0 <= i <= v.len(),
            out@.len() == i,
            forall|k: int| 0 <= k < i ==> out@[k]@ == commit_enc(commits_vv(v@)[k]),
        decreases v.len() - i,
    {
        out.push(encode_commit(&v[i]));
        i = i + 1;
    }
    proof {
        assert(items_v(out@) =~= commits_enc(commits_vv(v@)));
    }
    out
}

/// Law: decoding an encoded list of commits gives it back.
pub proof fn lemma_commits_round_trip(s: Seq<CommitV>)
    ensures
        commits_ok(commits_enc(s)),
        commits_val(commits_enc(s)) == s,
{
    assert forall|i: int| 0 <= i < s.len() implies commit_ok(#[trigger] commits_enc(s)[i]) by {
        lemma_commit_round_trip(s[i]);
    }
    assert forall|i: int| 0 <= i < s.len() implies commits_val(commits_enc(s))[i] == s[i] by {
        lemma_commit_round_trip(s[i]);
    }
    assert(commits_val(commits_enc(s)) =~= s);
}


/// A push payload holds three ref strings, its repository, pusher and
/// sender, three flags, a compare link, its commit list and head commit;
/// `base_ref` may take any shape and may be absent.
pub open spec fn push_ok(j: JsonV) -> bool {
    j matches JsonV::Obj(ps) && str_field(ps, "ref"@) is Some && str_field(ps, "before"@) is Some
        && str_field(ps, "after"@) is Some && (obj_get(ps, "repository"@) matches Some(rj)
        && repo_ok(rj)) && (obj_get(ps, "pusher"@) matches Some(pj) && pusher_ok(pj)) && (obj_get(
        ps,
        "sender"@,
    ) matches Some(sj) && user_ok(sj)) && bool_field(ps, "created"@) is Some && bool_field(
        ps,
        "deleted"@,
    ) is Some && bool_field(ps, "forced"@) is Some && str_field(ps, "compare"@) is Some && (obj_get(
        ps,
        "commits"@,
    ) matches Some(cj) && cj matches JsonV::Arr(ci) && commits_ok(ci)) && (obj_get(
        ps,
        "head_commit"@,
    ) matches Some(hj) && commit_ok(hj))
}

/// The push event a well-formed payload denotes; an absent `base_ref`
/// reads as null.
pub open spec fn push_val(j: JsonV) -> PushEventV
    recommends
        push_ok(j),
{
    let ps = j->Obj_0;
    PushEventV {
        ref_field: str_field(ps, "ref"@)->Some_0,
        before: str_field(ps, "before"@)->Some_0,
        after: str_field(ps, "after"@)->Some_0,
        repository: repo_val(obj_get(ps, "repository"@)->Some_0),
        pusher: pusher_val(obj_get(ps, "pusher"@)->Some_0),
        sender: user_val(obj_get(ps, "sender"@)->Some_0),
        created: bool_field(ps, "created"@)->Some_0,
        deleted: bool_field(ps, "deleted"@)->Some_0,
        forced: bool_field(ps, "forced"@)->Some_0,
        base_ref: match obj_get(ps, "base_ref"@) {
            Some(v) => v,
            None => JsonV::Null,
        },
        compare: str_field(ps, "compare"@)->Some_0,
        commits: commits_val(obj_get(ps, "commits"@)->Some_0->Arr_0),
        head_commit: hc_of(commit_val(obj_get(ps, "head_commit"@)->Some_0)),
    }
}

/// The document that encodes a push event.
pub open spec fn push_enc(p: PushEventV) -> JsonV {
    JsonV::Obj(
        seq![
            ("ref"@, JsonV::Str(p.ref_field)),
            ("before"@, JsonV::Str(p.before)),
            ("after"@, JsonV::Str(p.after)),
            ("repository"@, repo_enc(p.repository)),
            ("pusher"@, pusher_enc(p.pusher)),
            ("sender"@, user_enc(p.sender)),
            ("created"@, JsonV::Bool(p.created)),
            ("deleted"@, JsonV::Bool(p.deleted)),
            ("forced"@, JsonV::Bool(p.forced)),
            ("base_ref"@, p.base_ref),
            ("compare"@, JsonV::Str(p.compare)),
            ("commits"@, JsonV::Arr(commits_enc(p.commits))),
            ("head_commit"@, head_commit_enc(p.head_commit)),
        ],
    )
}

/// Reads a push event out of a payload document.
pub fn decode_push(j: &Json) -> (r: Result<PushEvent, DecodeError>)
    ensures
        r is Ok <==> push_ok(j@),
        r matches Ok(e) ==> e@ == push_val(j@),
{
    let pairs = match j {
        Json::Obj(pairs) => pairs,
        _ => {
            return Err(malformed("push"));
        },
    };
    proof {
        lemma_jv_obj(*pairs);
    }
    let ref_field = match get_str(pairs, "ref") {
        Some(s) => s,
        None => {
            return Err(malformed("ref"));
        },
    };
    let before = match get_str(pairs, "before") {
        Some(s) => s,
        None => {
            return Err(malformed("before"));
        },
    };
    let after = match get_str(pairs, "after") {
        Some(s) => s,
        None => {
            return Err(malformed("after"));
        },
    };
    let rj = match Json::lookup(pairs, "repository") {
        Some(v) => v,
        None => {
            return Err(malformed("repository"));
        },
    };
    let repository = match decode_repo(rj) {
        Ok(x) => x,
        Err(e) => {
            return Err(e);
        },
    };
    let pj = match Json::lookup(pairs, "pusher") {
        Some(v) => v,
        None => {
            return Err(malformed("pusher"));
        },
    };
    let pusher = match decode_pusher(pj) {
        Ok(x) => x,
        Err(e) => {
            return Err(e);
        },
    };
    let sj = match Json::lookup(pairs, "sender") {
        Some(v) => v,
        None => {
            return Err(malformed("sender"));
        },
    };
    let sender = match decode_user(sj) {
        Ok(x) => x,
        Err(e) => {
            return Err(e);
        },
    };
    let created = match get_bool(pairs, "created") {
        Some(b) => b,
        None => {
            return Err(malformed("created"));
        },
    };
    let deleted = match get_bool(pairs, "deleted") {
        Some(b) => b,
        None => {
            return Err(malformed("deleted"));
        },
    };
    let forced = match get_bool(pairs, "forced") {
        Some(b) => b,
        None => {
            return Err(malformed("forced"));
        },
    };
    let base_ref = match Json::lookup(pairs, "base_ref") {
        Some(v) => v.duplicate(),
        None => Json::Null,
    };
    let compare = match get_str(pairs, "compare") {
        Some(s) => s,
        None => {
            return Err(malformed("compare"));
        },
    };
    let cj = match Json::lookup(pairs, "commits") {
        Some(v) => v,
        None => {
            return Err(malformed("commits"));
        },
    };
    let commit_items = match cj {
        Json::Arr(items) => items,
        _ => {
            return Err(malformed("commits"));
        },
    };
    proof {
        crate::json::lemma_jv_arr(*commit_items);
    }
    let commits = match decode_commits(commit_items) {
        Ok(v) => v,
        Err(e) => {
            return Err(e);
        },
    };
    let hj = match Json::lookup(pairs, "head_commit") {
        Some(v) => v,
        None => {
            return Err(malformed("head_commit"));
        },
    };
    let head_commit = match decode_head_commit(hj) {
        Ok(h) => h,
        Err(e) => {
            return Err(e);
        },
    };
    Ok(
        PushEvent {
            ref_field,
            before,
            after,
            repository,
            pusher,
            sender,
            created,
            deleted,
            forced,
            base_ref,
            compare,
            commits,
            head_commit,
        },
    )
}

/// Writes a push event as a payload document.
pub fn encode_push(p: &PushEvent) -> (r: Json)
    ensures
        r@ == push_enc(p@),
{
    let mut pairs: Vec<(String, Json)> = Vec::new();
    pairs.push(("ref".to_owned(), Json::Str(p.ref_field.clone())));
    pairs.push(("before".to_owned(), Json::Str(p.before.clone())));
    pairs.push(("after".to_owned(), Json::Str(p.after.clone())));
    pairs.push(("repository".to_owned(), encode_repo(&p.repository)));
    pairs.push(("pusher".to_owned(), encode_pusher(&p.pusher)));
    pairs.push(("sender".to_owned(), encode_user(&p.sender)));
    pairs.push(("created".to_owned(), Json::Bool(p.created)));
    pairs.push(("deleted".to_owned(), Json::Bool(p.deleted)));
    pairs.push(("forced".to_owned(), Json::Bool(p.forced)));
    pairs.push(("base_ref".to_owned(), p.base_ref.duplicate()));
    pairs.push(("compare".to_owned(), Json::Str(p.compare.clone())));
    pairs.push(("commits".to_owned(), Json::Arr(encode_commits(&p.commits))));
    pairs.push(("head_commit".to_owned(), encode_head_commit(&p.head_commit)));
    let r = Json::Obj(pairs);
    proof {
        lemma_jv_obj(r->Obj_0);
        crate::json::lemma_jv_arr(pairs@[11].1->Arr_0);
        assert(pairs_v(pairs@) =~~= push_enc(p@)->Obj_0);
    }
    r
}

/// Law: decoding an encoded push event gives it back.
#[verifier::rlimit(50)]
pub proof fn lemma_push_round_trip(p: PushEventV)
    ensures
        push_ok(push_enc(p)),
        push_val(push_enc(p)) == p,
{
    reveal_strlit("ref");
    reveal_strlit("before");
    reveal_strlit("after");
    reveal_strlit("repository");
    reveal_strlit("pusher");
    reveal_strlit("sender");
    reveal_strlit("created");
    reveal_strlit("deleted");
    reveal_strlit("forced");
    reveal_strlit("base_ref");
    reveal_strlit("compare");
    reveal_strlit("commits");
    reveal_strlit("head_commit");
    let ps = push_enc(p)->Obj_0;
    assert("ref"@.len() == 3);
    assert("before"@.len() == 6);
    assert("after"@.len() == 5);
    assert("repository"@.len() == 10);
    assert("pusher"@.len() == 6);
    assert("sender"@.len() == 6);
    assert("created"@.len() == 7);
    assert("deleted"@.len() == 7);
    assert("forced"@.len() == 6);
    assert("base_ref"@.len() == 8);
    assert("compare"@.len() == 7);
    assert("commits"@.len() == 7);
    assert("head_commit"@.len() == 11);
    assert("before"@[0] != "pusher"@[0]);
    assert("before"@[0] != "sender"@[0]);
    assert("before"@[0] != "forced"@[0]);
    assert("pusher"@[0] != "sender"@[0]);
    assert("pusher"@[0] != "forced"@[0]);
    assert("sender"@[0] != "forced"@[0]);
    assert("created"@[0] != "deleted"@[0]);
    assert("created"@[1] != "compare"@[1]);
    assert("created"@[1] != "commits"@[1]);
    assert("deleted"@[0] != "compare"@[0]);
    assert("deleted"@[0] != "commits"@[0]);
    assert("compare"@[3] != "commits"@[3]);
    assert(obj_get(ps, "ref"@) == Some(JsonV::Str(p.ref_field)));
    assert(forall|i: int| 0 <= i < 1 ==> ps[i].0 != "before"@);
    crate::json::lemma_obj_get_skip(ps, "before"@, 1);
    assert(ps.skip(1)[0] == ps[1]);
    assert(obj_get(ps, "before"@) == Some(JsonV::Str(p.before)));
    assert(forall|i: int| 0 <= i < 2 ==> ps[i].0 != "after"@);
    crate::json::lemma_obj_get_skip(ps, "after"@, 2);
    assert(ps.skip(2)[0] == ps[2]);
    assert(obj_get(ps, "after"@) == Some(JsonV::Str(p.after)));
    assert(forall|i: int| 0 <= i < 3 ==> ps[i].0 != "repository"@);
    crate::json::lemma_obj_get_skip(ps, "repository"@, 3);
    assert(ps.skip(3)[0] == ps[3]);
    assert(obj_get(ps, "repository"@) == Some(repo_enc(p.repository)));
    assert(forall|i: int| 0 <= i < 4 ==> ps[i].0 != "pusher"@);
    crate::json::lemma_obj_get_skip(ps, "pusher"@, 4);
    assert(ps.skip(4)[0] == ps[4]);
    assert(obj_get(ps, "pusher"@) == Some(pusher_enc(p.pusher)));
    assert(forall|i: int| 0 <= i < 5 ==> ps[i].0 != "sender"@);
    crate::json::lemma_obj_get_skip(ps, "sender"@, 5);
    assert(ps.skip(5)[0] == ps[5]);
    assert(obj_get(ps, "sender"@) == Some(user_enc(p.sender)));
    assert(forall|i: int| 0 <= i < 6 ==> ps[i].0 != "created"@);
    crate::json::lemma_obj_get_skip(ps, "created"@, 6);
    assert(ps.skip(6)[0] == ps[6]);
    assert(obj_get(ps, "created"@) == Some(JsonV::Bool(p.created)));
    assert(forall|i: int| 0 <= i < 7 ==> ps[i].0 != "deleted"@);
    crate::json::lemma_obj_get_skip(ps, "deleted"@, 7);
    assert(ps.skip(7)[0] == ps[7]);
    assert(obj_get(ps, "deleted"@) == Some(JsonV::Bool(p.deleted)));
    assert(forall|i: int| 0 <= i < 8 ==> ps[i].0 != "forced"@);
    crate::json::lemma_obj_get_skip(ps, "forced"@, 8);
    assert(ps.skip(8)[0] == ps[8]);
    assert(obj_get(ps, "forced"@) == Some(JsonV::Bool(p.forced)));
    assert(forall|i: int| 0 <= i < 9 ==> ps[i].0 != "base_ref"@);
    crate::json::lemma_obj_get_skip(ps, "base_ref"@, 9);
    assert(ps.skip(9)[0] == ps[9]);
    assert(obj_get(ps, "base_ref"@) == Some(p.base_ref));
    assert(forall|i: int| 0 <= i < 10 ==> ps[i].0 != "compare"@);
    crate::json::lemma_obj_get_skip(ps, "compare"@, 10);
    assert(ps.skip(10)[0] == ps[10]);
    assert(obj_get(ps, "compare"@) == Some(JsonV::Str(p.compare)));
    assert(forall|i: int| 0 <= i < 11 ==> ps[i].0 != "commits"@);
    crate::json::lemma_obj_get_skip(ps, "commits"@, 11);
    assert(ps.skip(11)[0] == ps[11]);
    assert(obj_get(ps, "commits"@) == Some(JsonV::Arr(commits_enc(p.commits))));
    assert(forall|i: int| 0 <= i < 12 ==> ps[i].0 != "head_commit"@);
    crate::json::lemma_obj_get_skip(ps, "head_commit"@, 12);
    assert(ps.skip(12)[0] == ps[12]);
    assert(obj_get(ps, "head_commit"@) == Some(head_commit_enc(p.head_commit)));
    lemma_repo_round_trip(p.repository);
    lemma_pusher_round_trip(p.pusher);
    lemma_user_round_trip(p.sender);
    lemma_commits_round_trip(p.commits);
    lemma_head_commit_round_trip(p.head_commit);
}


/// The payload name of a star action.
pub open spec fn star_action_name(a: StarAction) -> Seq<char> {
    match a {
        StarAction::Created => "created"@,
        StarAction::Deleted => "deleted"@,
    }
}

/// A star payload holds a recognized action name, its repository and its
/// sender.
pub open spec fn star_ok(j: JsonV) -> bool {
    j matches JsonV::Obj(ps) && (str_field(ps, "action"@) matches Some(a) && star_action_of(
        a,
    ) is Some) && (obj_get(ps, "repository"@) matches Some(rj) && repo_ok(rj)) && (obj_get(
        ps,
        "sender"@,
    ) matches Some(sj) && user_ok(sj))
}

/// The star event a well-formed payload denotes.
pub open spec fn star_val(j: JsonV) -> StarEventV
    recommends
        star_ok(j),
{
    let ps = j->Obj_0;
    StarEventV {
        action: star_action_of(str_field(ps, "action"@)->Some_0)->Some_0,
        repository: repo_val(obj_get(ps, "repository"@)->Some_0),
        sender: user_val(obj_get(ps, "sender"@)->Some_0),
    }
}

/// The document that encodes a star event.
pub open spec fn star_enc(e: StarEventV) -> JsonV {
    JsonV::Obj(
        seq![
            ("action"@, JsonV::Str(star_action_name(e.action))),
            ("repository"@, repo_enc(e.repository)),
            ("sender"@, user_enc(e.sender)),
        ],
    )
}

/// Reads a star event out of a payload document.
pub fn decode_star(j: &Json) -> (r: Result<StarEvent, DecodeError>)
    ensures
        r is Ok <==> star_ok(j@),
        r matches Ok(e) ==> e@ == star_val(j@),
{
    let pairs = match j {
        Json::Obj(pairs) => pairs,
        _ => {
            return Err(malformed("star"));
        },
    };
    proof {
        lemma_jv_obj(*pairs);
    }
    let action_name = match get_str(pairs, "action") {
        Some(s) => s,
        None => {
            return Err(malformed("action"));
        },
    };
    let action = match StarAction::from_name(action_name.as_str()) {
        Some(a) => a,
        None => {
            return Err(malformed("action"));
        },
    };
    let rj = match Json::lookup(pairs, "repository") {
        Some(v) => v,
        None => {
            return Err(malformed("repository"));
        },
    };
    let repository = match decode_repo(rj) {
        Ok(x) => x,
        Err(e) => {
            return Err(e);
        },
    };
    let sj = match Json::lookup(pairs, "sender") {
        Some(v) => v,
        None => {
            return Err(malformed("sender"));
        },
    };
    let sender = match decode_user(sj) {
        Ok(x) => x,
        Err(e) => {
            return Err(e);
        },
    };
    Ok(StarEvent { action, repository, sender })
}

/// Writes a star event as a payload document.
pub fn encode_star(e: &StarEvent) -> (r: Json)
    ensures
        r@ == star_enc(e@),
{
    let name = e.action.name();
    proof {
        reveal_strlit("created");
        reveal_strlit("deleted");
        assert(name@ == star_action_name(e.action));
    }
    let mut pairs: Vec<(String, Json)> = Vec::new();
    pairs.push(("action".to_owned(), Json::Str(name.to_owned())));
    pairs.push(("repository".to_owned(), encode_repo(&e.repository)));
    pairs.push(("sender".to_owned(), encode_user(&e.sender)));
    let r = Json::Obj(pairs);
    proof {
        lemma_jv_obj(r->Obj_0);
        assert(pairs_v(pairs@) =~~= star_enc(e@)->Obj_0);
    }
    r
}

/// Law: decoding an encoded star event gives it back.
pub proof fn lemma_star_round_trip(e: StarEventV)
    ensures
        star_ok(star_enc(e)),
        star_val(star_enc(e)) == e,
{
    reveal_strlit("action");
    reveal_strlit("repository");
    reveal_strlit("sender");
    reveal_strlit("created");
    reveal_strlit("deleted");
    let ps = star_enc(e)->Obj_0;
    assert("action"@.len() == 6);
    assert("repository"@.len() == 10);
    assert("sender"@.len() == 6);
    assert("action"@[0] != "sender"@[0]);
    assert(obj_get(ps, "action"@) == Some(JsonV::Str(star_action_name(e.action))));
    assert(forall|i: int| 0 <= i < 1 ==> ps[i].0 != "repository"@);
    crate::json::lemma_obj_get_skip(ps, "repository"@, 1);
    assert(ps.skip(1)[0] == ps[1]);
    assert(obj_get(ps, "repository"@) == Some(repo_enc(e.repository)));
    assert(forall|i: int| 0 <= i < 2 ==> ps[i].0 != "sender"@);
    crate::json::lemma_obj_get_skip(ps, "sender"@, 2);
    assert(ps.skip(2)[0] == ps[2]);
    assert(obj_get(ps, "sender"@) == Some(user_enc(e.sender)));
    assert("created"@[0] != "deleted"@[0]);
    assert(star_action_of(star_action_name(e.action)) == Some(e.action));
    lemma_repo_round_trip(e.repository);
    lemma_user_round_trip(e.sender);
}

/// A fork payload holds the new fork, the forked repository and the sender.
pub open spec fn fork_ok(j: JsonV) -> bool {
    j matches JsonV::Obj(ps) && (obj_get(ps, "forkee"@) matches Some(fj) && repo_ok(fj)) && (
    obj_get(ps, "repository"@) matches Some(rj) && repo_ok(rj)) && (obj_get(ps, "sender"@) matches
        Some(sj) && user_ok(sj))
}

/// The fork event a well-formed payload denotes.
pub open spec fn fork_val(j: JsonV) -> ForkEventV
    recommends
        fork_ok(j),
{
    let ps = j->Obj_0;
    ForkEventV {
        forkee: repo_val(obj_get(ps, "forkee"@)->Some_0),
        repository: repo_val(obj_get(ps, "repository"@)->Some_0),
        sender: user_val(obj_get(ps, "sender"@)->Some_0),
    }
}

/// The document that encodes a fork event.
pub open spec fn fork_enc(e: ForkEventV) -> JsonV {
    JsonV::Obj(
        seq![
            ("forkee"@, repo_enc(e.forkee)),
            ("repository"@, repo_enc(e.repository)),
            ("sender"@, user_enc(e.sender)),
        ],
    )
}

/// Reads a fork event out of a payload document.
pub fn decode_fork(j: &Json) -> (r: Result<ForkEvent, DecodeError>)
    ensures
        r is Ok <==> fork_ok(j@),
        r matches Ok(e) ==> e@ == fork_val(j@),
{
    let pairs = match j {
        Json::Obj(pairs) => pairs,
        _ => {
            return Err(malformed("fork"));
        },
    };
    proof {
        lemma_jv_obj(*pairs);
    }
    let fj = match Json::lookup(pairs, "forkee") {
        Some(v) => v,
        None => {
            return Err(malformed("forkee"));
        },
    };
    let forkee = match decode_repo(fj) {
        Ok(x) => x,
        Err(e) => {
            return Err(e);
        },
    };
    let rj = match Json::lookup(pairs, "repository") {
        Some(v) => v,
        None => {
            return Err(malformed("repository"));
        },
    };
    let repository = match decode_repo(rj) {
        Ok(x) => x,
        Err(e) => {
            return Err(e);
        },
    };
    let sj = match Json::lookup(pairs, "sender") {
        Some(v) => v,
        None => {
            return Err(malformed("sender"));
        },
    };
    let sender = match decode_user(sj) {
        Ok(x) => x,
        Err(e) => {
            return Err(e);
        },
    };
    Ok(ForkEvent { forkee, repository, sender })
}

/// Writes a fork event as a payload document.
pub fn encode_fork(e: &ForkEvent) -> (r: Json)
    ensures
        r@ == fork_enc(e@),
{
    let mut pairs: Vec<(String, Json)> = Vec::new();
    pairs.push(("forkee".to_owned(), encode_repo(&e.forkee)));
    pairs.push(("repository".to_owned(), encode_repo(&e.repository)));
    pairs.push(("sender".to_owned(), encode_user(&e.sender)));
    let r = Json::Obj(pairs);
    proof {
        lemma_jv_obj(r->Obj_0);
        assert(pairs_v(pairs@) =~~= fork_enc(e@)->Obj_0);
    }
    r
}

/// Law: decoding an encoded fork event gives it back.
pub proof fn lemma_fork_round_trip(e: ForkEventV)
    ensures
        fork_ok(fork_enc(e)),
        fork_val(fork_enc(e)) == e,
{
    reveal_strlit("forkee");
    reveal_strlit("repository");
    reveal_strlit("sender");
    let ps = fork_enc(e)->Obj_0;
    assert("forkee"@.len() == 6);
    assert("repository"@.len() == 10);
    assert("sender"@.len() == 6);
    assert("forkee"@[0] != "sender"@[0]);
    assert(obj_get(ps, "forkee"@) == Some(repo_enc(e.forkee)));
    assert(forall|i: int| 0 <= i < 1 ==> ps[i].0 != "repository"@);
    crate::json::lemma_obj_get_skip(ps, "repository"@, 1);
    assert(ps.skip(1)[0] == ps[1]);
    assert(obj_get(ps, "repository"@) == Some(repo_enc(e.repository)));
    assert(forall|i: int| 0 <= i < 2 ==> ps[i].0 != "sender"@);
    crate::json::lemma_obj_get_skip(ps, "sender"@, 2);
    assert(ps.skip(2)[0] == ps[2]);
    assert(obj_get(ps, "sender"@) == Some(user_enc(e.sender)));
    lemma_repo_round_trip(e.forkee);
    lemma_repo_round_trip(e.repository);
    lemma_user_round_trip(e.sender);
}

/// Whether a document is a well-formed payload of a kind.
pub open spec fn event_ok(kind: EventKind, j: JsonV) -> bool {
    match kind {
        EventKind::Push => push_ok(j),
        EventKind::Star => star_ok(j),
        EventKind::Fork => fork_ok(j),
    }
}

/// The event a well-formed payload of a kind denotes.
pub open spec fn event_val(kind: EventKind, j: JsonV) -> EventV
    recommends
        event_ok(kind, j),
{
    match kind {
        EventKind::Push => EventV::Push(push_val(j)),
        EventKind::Star => EventV::Star(star_val(j)),
        EventKind::Fork => EventV::Fork(fork_val(j)),
    }
}

/// The document that encodes an event.
pub open spec fn event_enc(e: EventV) -> JsonV {
    match e {
        EventV::Push(p) => push_enc(p),
        EventV::Star(se) => star_enc(se),
        EventV::Fork(f) => fork_enc(f),
    }
}

/// The kind of an event.
pub open spec fn kind_of_event(e: EventV) -> EventKind {
    match e {
        EventV::Push(_) => EventKind::Push,
        EventV::Star(_) => EventKind::Star,
        EventV::Fork(_) => EventKind::Fork,
    }
}

/// What `decode` makes of a raw body for a kind: the event its JSON
/// document denotes, or nothing if the bytes are not a document or the
/// document violates the kind's schema.
pub open spec fn decode_spec(kind: EventKind, bytes: Seq<u8>) -> Option<EventV> {
    match crate::json::json_of(bytes) {
        Some(j) => if event_ok(kind, j) {
            Some(event_val(kind, j))
        } else {
            None
        },
        None => None,
    }
}

/// Parses the raw body of an already-classified delivery against the schema
/// of its kind. Fails exactly when the body is not a JSON document or a
/// required field of the schema is missing or of the wrong shape; fields
/// outside the schema are ignored.
pub fn decode(kind: EventKind, body: &[u8]) -> (r: Result<Event, DecodeError>)
    ensures
        r is Ok <==> decode_spec(kind, body@) is Some,
        r matches Ok(e) ==> Some(e@) == decode_spec(kind, body@),
{
    let j = match crate::json::parse_json(body) {
        Some(j) => j,
        None => {
            return Err(malformed("body"));
        },
    };
    match kind {
        EventKind::Push => match decode_push(&j) {
            Ok(e) => Ok(Event::Push(e)),
            Err(e) => Err(e),
        },
        EventKind::Star => match decode_star(&j) {
            Ok(e) => Ok(Event::Star(e)),
            Err(e) => Err(e),
        },
        EventKind::Fork => match decode_fork(&j) {
            Ok(e) => Ok(Event::Fork(e)),
            Err(e) => Err(e),
        },
    }
}

/// Writes an event as the payload document its kind's schema defines.
pub fn encode_event(e: &Event) -> (r: Json)
    ensures
        r@ == event_enc(e@),
{
    match e {
        Event::Push(p) => encode_push(p),
        Event::Star(se) => encode_star(se),
        Event::Fork(f) => encode_fork(f),
    }
}

/// Law: for every event value, the document its schema writes decodes back
/// to the same value, under the event's own kind.
pub proof fn lemma_event_round_trip(e: EventV)
    ensures
        event_ok(kind_of_event(e), event_enc(e)),
        event_val(kind_of_event(e), event_enc(e)) == e,
{
    match e {
        EventV::Push(p) => lemma_push_round_trip(p),
        EventV::Star(se) => lemma_star_round_trip(se),
        EventV::Fork(f) => lemma_fork_round_trip(f),
    }
}

} // verus!

//! The storage commands: each resolves its arguments, builds one request and
//! turns the service's tagged reply into a confirmation or an error.
use vstd::prelude::*;
use vstd::string::StringExecFns;

use crate::account::AccountConfig;
use crate::args::{filled, given, map_args, texts, ArgMap};
use crate::error::CliError;
use crate::path::{has_root, join_path, joined, parse_user_id, rooted, user_id_of};

verus! {

/// The body of a request, by command.
#[derive(Debug, Clone, PartialEq, Eq)]
pub enum Body {
    /// Copy `from` to `to`, both paths of the user `from_userid`.
    FromTo { from: String, to: String, from_userid: u64, token: String },
    /// A command on one path.
    PathOnly { path: String, token: String },
}

/// One POST to the service.
#[derive(Debug, Clone, PartialEq, Eq)]
pub struct Request {
    pub url: String,
    pub body: Body,
    /// Plain-text transport instead of the default secure one.
    pub plain_http: bool,
}

/// The service's tagged reply.
#[derive(Debug, Clone, PartialEq, Eq)]
pub enum Reply {
    /// The service reports a logical failure of this kind.
    Error { kind: String },
    /// An item was copied.
    Copied,
    /// A file item was created.
    FileItemCreated,
    /// Any other variant, by its tag.
    Other { tag: String },
}

/// What a command asks of its host next.
#[derive(Debug, Clone, PartialEq, Eq)]
pub enum Step {
    /// Ask the user for argument `name`, showing `label`, and store a
    /// non-empty answer in the map.
    Prompt { label: String, name: String },
    /// Send this request and hand the reply to the command's outcome.
    Send(Request),
}

/// The map holds session credentials.
pub open spec fn logged_in(m: Map<Seq<char>, Seq<char>>) -> bool {
    given(m, "instance"@) && given(m, "token"@)
}

/// The path prefix: empty when the map holds none.
pub open spec fn prefix_of(m: Map<Seq<char>, Seq<char>>) -> Seq<char> {
    if m.contains_key("prefix"@) {
        m["prefix"@]
    } else {
        Seq::empty()
    }
}

/// The endpoint of operation `op` on the service at `instance`.
pub open spec fn endpoint(instance: Seq<char>, op: Seq<char>) -> Seq<char> {
    instance + "/api/storage/v1/"@ + op
}

/// The copy operation: overwriting where the map holds `overwrite`.
pub open spec fn copy_op(m: Map<Seq<char>, Seq<char>>) -> Seq<char> {
    if m.contains_key("overwrite"@) {
        "copy-overwrite"@
    } else {
        "copy"@
    }
}

/// The user whose files are copied: `user` where the map holds it, else `id`.
pub open spec fn user_text(m: Map<Seq<char>, Seq<char>>) -> Option<Seq<char>> {
    if m.contains_key("user"@) {
        Some(m["user"@])
    } else if m.contains_key("id"@) {
        Some(m["id"@])
    } else {
        None
    }
}

/// The argument names that copying requires, in prompting order.
pub open spec fn copy_names() -> Seq<Seq<char>> {
    seq!["from"@, "to"@]
}

/// The argument names that creating a file requires.
pub open spec fn touch_names() -> Seq<Seq<char>> {
    seq!["path"@]
}

/// `q` is the copy request that map `m` and user id `uid` call for.
pub open spec fn is_copy_request(q: Request, m: Map<Seq<char>, Seq<char>>, uid: u64) -> bool {
    &&& q.url@ == endpoint(m["instance"@], copy_op(m))
    &&& q.plain_http == m.contains_key("http"@)
    &&& q.body matches Body::FromTo { from, to, from_userid, token }
        && from@ == joined(prefix_of(m), m["from"@])
        && to@ == joined(prefix_of(m), m["to"@])
        && from_userid == uid
        && token@ == m["token"@]
}

/// `q` is the file-creation request that map `m` calls for.
pub open spec fn is_touch_request(q: Request, m: Map<Seq<char>, Seq<char>>) -> bool {
    &&& q.url@ == endpoint(m["instance"@], "touch"@)
    &&& q.plain_http == m.contains_key("http"@)
    &&& q.body matches Body::PathOnly { path, token }
        && path@ == joined(prefix_of(m), m["path"@])
        && token@ == m["token"@]
}

/// The confirmation of a copy to `to`.
pub open spec fn copied_message(to: Seq<char>) -> Seq<char> {
    "Copied to "@ + to
}

/// The confirmation of a file created at `path`.
pub open spec fn created_message(path: Seq<char>) -> Seq<char> {
    "Created "@ + path
}

/// The argument names that copying requires, in prompting order.
pub fn copy_args() -> (r: Vec<String>)
    ensures
        texts(r@) == copy_names(),
{
    let r = vec![String::from_str("from"), String::from_str("to")];
    assert(texts(r@) =~= copy_names());
    r
}

/// The argument names that creating a file requires.
pub fn touch_args() -> (r: Vec<String>)
    ensures
        texts(r@) == touch_names(),
{
    let r = vec![String::from_str("path")];
    assert(texts(r@) =~= touch_names());
    r
}

fn prefix(map: &ArgMap) -> (r: String)
    requires
        map.wf(),
    ensures
        r@ == prefix_of(map@),
{
    match map.get("prefix") {
        Some(p) => p.clone(),
        None => String::new(),
    }
}

fn endpoint_url(instance: &String, op: &str) -> (r: String)
    ensures
        r@ == endpoint(instance@, op@),
{
    let mut url = instance.clone();
    url.append("/api/storage/v1/");
    url.append(op);
    url
}

impl Request {
    /// The path the request acts on: the destination of a copy, or the one
    /// path of a single-path command.
    pub fn target(&self) -> (r: &String)
        ensures
            match self.body {
                Body::FromTo { to, .. } => *r == to,
                Body::PathOnly { path, .. } => *r == path,
            },
    {
        match &self.body {
            Body::FromTo { to, .. } => to,
            Body::PathOnly { path, .. } => path,
        }
    }
}

/// Reads a reply from its discriminator `tag` and, for an error, its `kind`:
/// `error`, `copied` and `file-item-created` are the variants the commands
/// know; any other tag is kept as it is.
pub fn decode_reply(tag: &str, kind: Option<String>) -> (r: Result<Reply, CliError>)
    ensures
        tag@ == "error"@ ==> match kind {
            Some(k) => r matches Ok(Reply::Error { kind: k2 }) && k2@ == k@,
            None => r matches Err(CliError::Deserialization(_)),
        },
        tag@ == "copied"@ ==> r matches Ok(Reply::Copied),
        tag@ == "file-item-created"@ ==> r matches Ok(Reply::FileItemCreated),
        tag@ != "error"@ && tag@ != "copied"@ && tag@ != "file-item-created"@ ==> (r matches Ok(
            Reply::Other { tag: t },
        ) && t@ == tag@),
{
    proof {
        reveal_strlit("error");
        reveal_strlit("copied");
        reveal_strlit("file-item-created");
        assert("error"@.len() != "copied"@.len());
        assert("error"@.len() != "file-item-created"@.len());
        assert("copied"@.len() != "file-item-created"@.len());
    }
    let t = String::from_str(tag);
    if t == String::from_str("error") {
        match kind {
            Some(k) => Ok(Reply::Error { kind: k }),
            None => Err(CliError::Deserialization(String::from_str("error reply without a kind"))),
        }
    } else if t == String::from_str("copied") {
        Ok(Reply::Copied)
    } else if t == String::from_str("file-item-created") {
        Ok(Reply::FileItemCreated)
    } else {
        Ok(Reply::Other { tag: t })
    }
}

/// Copies a user file: offers the positional `args` to `from` and `to`, checks
/// the session, asks for what is still missing, and otherwise builds the copy
/// request (overwriting where the map holds `overwrite`).
pub fn cp(map: &mut ArgMap, args: &Vec<String>) -> (r: Result<Step, CliError>)
    requires
        old(map).wf(),
    ensures
        final(map).wf(),
        final(map)@ == filled(old(map)@, copy_names(), texts(args@)),
        !logged_in(final(map)@) ==> r matches Err(CliError::NotLoggedIn),
        logged_in(final(map)@) && !given(final(map)@, "from"@) ==> (r matches Ok(
            Step::Prompt { label, name },
        ) && label@ == "From"@ && name@ == "from"@),
        logged_in(final(map)@) && given(final(map)@, "from"@) && !given(final(map)@, "to"@) ==> (
        r matches Ok(Step::Prompt { label, name }) && label@ == "To"@ && name@ == "to"@),
        logged_in(final(map)@) && given(final(map)@, "from"@) && given(final(map)@, "to"@) ==> {
            let m = final(map)@;
            match user_text(m) {
                None => r matches Err(CliError::MissingArgument(n)) && n@ == "id"@,
                Some(u) => match user_id_of(u) {
                    None => r matches Err(CliError::InvalidUserId(t)) && t@ == u,
                    Some(uid) => r matches Ok(Step::Send(q)) && is_copy_request(q, m, uid),
                },
            }
        },
{
    let names = copy_args();
    map_args(map, &names, args);
    if !AccountConfig::is_loggedin_map(map) {
        return Err(CliError::NotLoggedIn);
    }
    if !map.is_given("from") {
        return Ok(Step::Prompt { label: String::from_str("From"), name: String::from_str("from") });
    }
    if !map.is_given("to") {
        return Ok(Step::Prompt { label: String::from_str("To"), name: String::from_str("to") });
    }
    let user = match map.get("user") {
        Some(u) => u,
        None => match map.get("id") {
            Some(u) => u,
            None => {
                return Err(CliError::MissingArgument(String::from_str("id")));
            },
        },
    };
    let from_userid = match parse_user_id(user.as_str()) {
        Some(v) => v,
        None => {
            return Err(CliError::InvalidUserId(user.clone()));
        },
    };
    let op = if map.contains_key("overwrite") {
        "copy-overwrite"
    } else {
        "copy"
    };
    let instance = map.get("instance").unwrap();
    let url = endpoint_url(instance, op);
    let prefix = prefix(map);
    let from = join_path(prefix.as_str(), map.get("from").unwrap().as_str());
    let to = join_path(prefix.as_str(), map.get("to").unwrap().as_str());
    let token = map.get("token").unwrap().clone();
    let plain_http = map.contains_key("http");
    Ok(Step::Send(Request { url, body: Body::FromTo { from, to, from_userid, token }, plain_http }))
}

/// Creates an empty file: offers the positional `args` to `path`, checks the
/// session, asks for the path while it is missing, and rejects a path that,
/// joined onto the prefix, lacks the root marker; otherwise builds the request.
pub fn touch(map: &mut ArgMap, args: &Vec<String>) -> (r: Result<Step, CliError>)
    requires
        old(map).wf(),
    ensures
        final(map).wf(),
        final(map)@ == filled(old(map)@, touch_names(), texts(args@)),
        !logged_in(final(map)@) ==> r matches Err(CliError::NotLoggedIn),
        logged_in(final(map)@) && !given(final(map)@, "path"@) ==> (r matches Ok(
            Step::Prompt { label, name },
        ) && label@ == "Path"@ && name@ == "path"@),
        logged_in(final(map)@) && given(final(map)@, "path"@) ==> {
            let m = final(map)@;
            let p = joined(prefix_of(m), m["path"@]);
            if rooted(p) {
                r matches Ok(Step::Send(q)) && is_touch_request(q, m)
            } else {
                r matches Err(CliError::InvalidPath(t)) && t@ == p
            }
        },
{
    let names = touch_args();
    map_args(map, &names, args);
    if !AccountConfig::is_loggedin_map(map) {
        return Err(CliError::NotLoggedIn);
    }
    if !map.is_given("path") {
        return Ok(Step::Prompt { label: String::from_str("Path"), name: String::from_str("path") });
    }
    let prefix = prefix(map);
    let path = join_path(prefix.as_str(), map.get("path").unwrap().as_str());
    if !has_root(path.as_str()) {
        return Err(CliError::InvalidPath(path));
    }
    let instance = map.get("instance").unwrap();
    let url = endpoint_url(instance, "touch");
    let token = map.get("token").unwrap().clone();
    let plain_http = map.contains_key("http");
    Ok(Step::Send(Request { url, body: Body::PathOnly { path, token }, plain_http }))
}

/// The outcome of a copy to `to`: the service's error kind, the confirmation,
/// or, for any variant a copy does not produce, that variant back.
pub fn cp_outcome(reply: Reply, to: &str) -> (r: Result<String, CliError>)
    ensures
        match reply {
            Reply::Error { kind } => r matches Err(CliError::Server(k)) && k@ == kind@,
            Reply::Copied => r matches Ok(msg) && msg@ == copied_message(to@),
            _ => r == Err::<String, CliError>(CliError::UnexpectedReply(reply)),
        },
{
    match reply {
        Reply::Error { kind } => Err(CliError::Server(kind)),
        Reply::Copied => {
            let msg = String::from_str("Copied to ").concat(to);
            Ok(msg)
        },
        other => Err(CliError::UnexpectedReply(other)),
    }
}

/// The outcome of creating the file `path`: the service's error kind, the
/// confirmation, or, for any variant file creation does not produce, that
/// variant back.
pub fn touch_outcome(reply: Reply, path: &str) -> (r: Result<String, CliError>)
    ensures
        match reply {
            Reply::Error { kind } => r matches Err(CliError::Server(k)) && k@ == kind@,
            Reply::FileItemCreated => r matches Ok(msg) && msg@ == created_message(path@),
            _ => r == Err::<String, CliError>(CliError::UnexpectedReply(reply)),
        },
{
    match reply {
        Reply::Error { kind } => Err(CliError::Server(kind)),
        Reply::FileItemCreated => {
            let msg = String::from_str("Created ").concat(path);
            Ok(msg)
        },
        other => Err(CliError::UnexpectedReply(other)),
    }
}

} // verus!

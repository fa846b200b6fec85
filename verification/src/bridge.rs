//! Requests to the programs that listen for actions, and their replies.
use crate::json;
use crate::scan;
use crate::text;
use vstd::prelude::*;

verus! {

/// The name under which actions are sent.
pub const SENDER: &'static str = "tiny-dfr";

/// The reply to an action.
#[derive(Debug)]
pub struct ActionResponse {
    pub ok: bool,
    pub error: Option<String>,
}

/// Why an action failed.
#[derive(Debug)]
pub enum BridgeError {
    /// Nobody listens for actions.
    Unavailable,
    /// The reply is blank.
    Empty,
    /// The reply cannot be read.
    Malformed,
    /// The reply says that the action failed.
    Failed(String),
}

/// Whether `r` is what a reply says, where `response` is what was read from its line.
pub open spec fn reply_says(
    line: Seq<char>,
    response: Option<ActionResponse>,
    r: Result<(), BridgeError>,
) -> bool {
    match r {
        Ok(()) => scan::trimmed(line).len() > 0 && response is Some && response->0.ok,
        Err(BridgeError::Unavailable) => false,
        Err(BridgeError::Empty) => scan::trimmed(line).len() == 0,
        Err(BridgeError::Malformed) => scan::trimmed(line).len() > 0 && response is None,
        Err(BridgeError::Failed(e)) => scan::trimmed(line).len() > 0 && response is Some
            && !response->0.ok && e@ == match response->0.error {
            Some(t) => t@,
            None => "unknown error"@,
        },
    }
}

/// What a reply says, where `response` is what was read from its line.
pub fn check_reply(line: &str, response: Option<ActionResponse>) -> (r: Result<(), BridgeError>)
    ensures
        reply_says(line@, response, r),
{
    if text::is_empty(scan::trim(line).as_str()) {
        return Err(BridgeError::Empty);
    }
    match response {
        None => Err(BridgeError::Malformed),
        Some(reply) => if reply.ok {
            Ok(())
        } else {
            Err(
                BridgeError::Failed(
                    match reply.error {
                        Some(e) => e,
                        None => "unknown error".to_string(),
                    },
                ),
            )
        },
    }
}

/// A named text as the next entry of a JSON object.
pub open spec fn entry(name: Seq<char>, value: Seq<char>) -> Seq<char> {
    json::quoted(name) + ":"@ + value
}

/// A named value as an entry of a JSON object.
pub fn write_entry(name: &str, value: &str) -> (r: String)
    ensures
        r@ == entry(name@, value@),
{
    text::concat3(json::quote(name).as_str(), ":", value)
}

/// A JSON object with the given entries.
pub open spec fn object(entries: Seq<Seq<char>>) -> Seq<char> {
    "{"@ + scan::joined(entries, ","@) + "}"@
}

/// Texts with a separator between them.
pub fn join_with(parts: &Vec<String>, sep: &str) -> (r: String)
    ensures
        r@ == scan::joined(text::texts(parts@), sep@),
{
    let ghost all = text::texts(parts@);
    let total = parts.len();
    if total == 0 {
        let r = String::new();
        assert(r@ =~= scan::joined(all, sep@));
        return r;
    }
    let mut i: usize = total - 1;
    let mut out = parts[i].clone();
    assert(all.skip(i as int) =~= seq![all[i as int]]);
    while i > 0
        invariant
            0 <= i < total == parts@.len(),
            all == text::texts(parts@),
            out@ == scan::joined(all.skip(i as int), sep@),
        decreases i,
    {
        let ghost rest = all.skip(i as int);
        i -= 1;
        let ghost now = all.skip(i as int);
        assert(now.drop_first() =~= rest);
        assert(now[0] == parts@[i as int]@);
        out = text::concat3(parts[i].as_str(), sep, out.as_str());
    }
    assert(all.skip(0) =~= all);
    out
}

/// A JSON object with the given entries.
pub fn write_object(entries: &Vec<String>) -> (r: String)
    ensures
        r@ == object(text::texts(entries@)),
{
    text::concat3("{", join_with(entries, ",").as_str(), "}")
}

/// The entries of the request to Neovim to carry out an action, on a database where one is
/// named.
pub open spec fn nvim_entries(action: Seq<char>, db: Option<Seq<char>>) -> Seq<Seq<char>> {
    let head = seq![
        entry("id"@, json::quoted(SENDER@)),
        entry("action"@, json::quoted(action)),
    ];
    match db {
        Some(d) => head.push(entry("db_key_name"@, json::quoted(d))),
        None => head,
    }
}

/// What an optional text is.
pub open spec fn opt_str(s: Option<&str>) -> Option<Seq<char>> {
    match s {
        Some(s) => Some(s@),
        None => None,
    }
}

/// The entries of the request to Neovim.
fn nvim_parts(action: &str, db: Option<&str>) -> (r: Vec<String>)
    ensures
        text::texts(r@) == nvim_entries(action@, opt_str(db)),
{
    let mut parts: Vec<String> = Vec::new();
    parts.push(write_entry("id", json::quote(SENDER).as_str()));
    parts.push(write_entry("action", json::quote(action).as_str()));
    if let Some(d) = db {
        parts.push(write_entry("db_key_name", json::quote(d).as_str()));
    }
    assert(text::texts(parts@) =~= nvim_entries(action@, opt_str(db)));
    parts
}

/// The line that asks a local Neovim to carry out an action.
pub fn nvim_request(action: &str, db: Option<&str>) -> (r: String)
    ensures
        r@ == object(nvim_entries(action@, opt_str(db))) + "\n"@,
{
    let parts = nvim_parts(action, db);
    text::concat(write_object(&parts).as_str(), "\n")
}

/// The line that asks a remote session to carry out an action.
pub fn remote_request(action: &str, db: Option<&str>) -> (r: String)
    ensures
        r@ == object(
            nvim_entries(action@, opt_str(db)).push(entry("type"@, json::quoted("action"@))),
        ) + "\n"@,
{
    let mut parts = nvim_parts(action, db);
    let ghost before = text::texts(parts@);
    parts.push(write_entry("type", json::quote("action").as_str()));
    assert(text::texts(parts@) =~= before.push(entry("type"@, json::quoted("action"@))));
    text::concat(write_object(&parts).as_str(), "\n")
}

/// The entries of the request to an application to carry out an action, `params` being a
/// JSON object that is left out where it has no entries.
pub open spec fn app_entries(protocol: Seq<char>, action: Seq<char>, params: Option<Seq<char>>) -> Seq<
    Seq<char>,
> {
    let head = seq![
        entry("type"@, json::quoted("action"@)),
        entry("protocol"@, json::quoted(protocol)),
        entry("id"@, json::quoted(SENDER@)),
        entry("action"@, json::quoted(action)),
    ];
    match params {
        Some(p) => head.push(entry("params"@, p)),
        None => head,
    }
}

/// The line that asks an application to carry out an action.
pub fn app_request(protocol: &str, action: &str, params: Option<&str>) -> (r: String)
    ensures
        r@ == object(app_entries(protocol@, action@, opt_str(params))) + "\n"@,
{
    let mut parts: Vec<String> = Vec::new();
    parts.push(write_entry("type", json::quote("action").as_str()));
    parts.push(write_entry("protocol", json::quote(protocol).as_str()));
    parts.push(write_entry("id", json::quote(SENDER).as_str()));
    parts.push(write_entry("action", json::quote(action).as_str()));
    if let Some(p) = params {
        parts.push(write_entry("params", p));
    }
    assert(text::texts(parts@) =~= app_entries(protocol@, action@, opt_str(params)));
    text::concat(write_object(&parts).as_str(), "\n")
}

} // verus!

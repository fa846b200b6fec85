//! The files and sockets of the session.
use crate::scan;
use crate::text;
use vstd::prelude::*;

verus! {

/// A path below a directory. An absolute path is its own.
pub open spec fn below(dir: Seq<char>, rel: Seq<char>) -> Seq<char> {
    if dir.len() == 0 || (rel.len() > 0 && rel[0] == '/') {
        rel
    } else if dir.last() == '/' {
        dir + rel
    } else {
        dir + "/"@ + rel
    }
}

/// A path below a directory. An absolute path is its own.
pub fn join(dir: &str, rel: &str) -> (r: String)
    ensures
        r@ == below(dir@, rel@),
{
    let chars = text::chars_of(dir);
    let path = text::chars_of(rel);
    if chars.len() == 0 || (path.len() > 0 && path[0] == '/') {
        rel.to_string()
    } else if chars[chars.len() - 1] == '/' {
        text::concat(dir, rel)
    } else {
        text::concat3(dir, "/", rel)
    }
}

/// Whether a file with the given name holds a program's state: its name ends in `.json` and is
/// not that alone.
pub fn is_state_file(name: &str) -> (r: bool)
    ensures
        r == (".json"@.is_suffix_of(name@) && name@ != ".json"@),
{
    scan::ends_with(name, ".json") && !text::same(name, ".json")
}

/// The directory of the session's sockets: what the session names, or the user's.
pub open spec fn runtime_dir_of(xdg: Option<Seq<char>>, uid: u32) -> Seq<char> {
    match xdg {
        Some(dir) => dir,
        None => "/run/user/"@ + text::decimal(uid as nat),
    }
}

/// The directory of the session's sockets.
pub fn runtime_dir(xdg: Option<&str>, uid: u32) -> (r: String)
    ensures
        r@ == runtime_dir_of(
            match xdg {
                Some(d) => Some(d@),
                None => None,
            },
            uid,
        ),
{
    match xdg {
        Some(d) => d.to_string(),
        None => text::concat("/run/user/", text::to_decimal(uid as u64).as_str()),
    }
}

/// The directory of the application bridges: one of their own, or one in the session's
/// directory, or a temporary one of the user.
pub fn runtime_root(own: Option<&str>, xdg: Option<&str>, user: Option<&str>, uid: u32) -> (r: String)
    ensures
        r@ == match (own, xdg, user) {
            (Some(d), _, _) => d@,
            (None, Some(d), _) => below(d@, "tiny-dfr"@),
            (None, None, Some(u)) => "/tmp/tiny-dfr-"@ + u@,
            (None, None, None) => "/tmp/tiny-dfr-"@ + text::decimal(uid as nat),
        },
{
    if let Some(d) = own {
        return d.to_string();
    }
    if let Some(d) = xdg {
        return join(d, "tiny-dfr");
    }
    match user {
        Some(u) => text::concat("/tmp/tiny-dfr-", u),
        None => text::concat("/tmp/tiny-dfr-", text::to_decimal(uid as u64).as_str()),
    }
}

/// The socket on which remote sessions connect.
pub fn remote_socket(xdg: Option<&str>, uid: u32) -> (r: String)
    ensures
        r@ == below(
            runtime_dir_of(
                match xdg {
                    Some(d) => Some(d@),
                    None => None,
                },
                uid,
            ),
            "tiny-dfr/remote.sock"@,
        ),
{
    join(runtime_dir(xdg, uid).as_str(), "tiny-dfr/remote.sock")
}

/// The socket on which the compositor reports its events, where it is known.
pub fn compositor_socket(xdg: Option<&str>, instance: Option<&str>) -> (r: Option<String>)
    ensures
        r is Some <==> xdg is Some && instance is Some,
        r matches Some(p) ==> p@ == below(
            below(below(xdg->0@, "hypr"@), instance->0@),
            ".socket2.sock"@,
        ),
{
    match (xdg, instance) {
        (Some(dir), Some(his)) => {
            let hypr = join(dir, "hypr");
            let own = join(hypr.as_str(), his);
            Some(join(own.as_str(), ".socket2.sock"))
        },
        _ => None,
    }
}

/// A relative path below a directory starts with the directory's name and ends with its own.
pub proof fn law_below_stays_below(dir: Seq<char>, rel: Seq<char>)
    requires
        rel.len() > 0 ==> rel[0] != '/',
    ensures
        dir.is_prefix_of(below(dir, rel)),
        rel.is_suffix_of(below(dir, rel)),
{
    let all = below(dir, rel);
    assert(all.take(dir.len() as int) =~= dir);
    assert(all.skip(all.len() - rel.len()) =~= rel);
}

} // verus!

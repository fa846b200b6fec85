//! Applications that publish their state and listen for actions.
use crate::bridge;
use crate::terminal;
use crate::terminal::{ProcInfo, MAX_GENERATIONS};
use crate::text;
use vstd::prelude::*;

verus! {

/// The name of the protocol.
pub const PROTOCOL: &'static str = "tiny-dfr.app.v1";

/// What an application publishes of itself.
#[derive(Debug)]
pub struct AppBridgeState {
    pub message_type: Option<String>,
    pub protocol: Option<String>,
    pub instance_id: String,
    pub app: String,
    pub pid: Option<u32>,
    pub socket: Option<String>,
    pub cwd: Option<String>,
    pub surface: Option<String>,
    pub capabilities: Vec<String>,
    pub updated_at_ms: Option<i64>,
}

impl AppBridgeState {
    /// Whether this is a state in the protocol's sense. A message that does not say what it
    /// is, or in which protocol, is taken for one.
    pub open spec fn speaks_protocol(self) -> bool {
        &&& self.message_type is Some ==> self.message_type->0@ == "state"@
        &&& self.protocol is Some ==> self.protocol->0@ == PROTOCOL@
    }

    /// Whether this is a state in the protocol's sense.
    pub fn is_protocol_state(&self) -> (r: bool)
        ensures
            r == self.speaks_protocol(),
    {
        (self.message_type.is_none() || text::is_text(&self.message_type, "state")) && (
        self.protocol.is_none() || text::is_text(&self.protocol, PROTOCOL))
    }

    /// The socket on which the application listens for actions.
    pub fn action_socket(&self) -> (r: Option<String>)
        ensures
            text::opt_text(r) == if self.socket is Some && self.socket->0@.len() > 0 {
                Some(self.socket->0@)
            } else {
                None
            },
    {
        match &self.socket {
            Some(s) => if text::is_empty(s.as_str()) {
                None
            } else {
                Some(s.clone())
            },
            None => None,
        }
    }

    /// Whether this is a state of the wanted application, or of any where none is named.
    pub fn is_state_of(&self, app: Option<&str>) -> (r: bool)
        ensures
            r == (self.speaks_protocol() && (app is Some ==> self.app@ == app->0@)),
    {
        if !self.is_protocol_state() {
            return false;
        }
        match app {
            Some(a) => text::same(self.app.as_str(), a),
            None => true,
        }
    }
}

/// The first application from `i` on with the given process identifier.
pub open spec fn first_with_pid(states: Seq<AppBridgeState>, pid: u32, i: int) -> Option<int>
    decreases states.len() - i,
{
    if i >= states.len() {
        None
    } else if states[i].pid == Some(pid) {
        Some(i)
    } else {
        first_with_pid(states, pid, i + 1)
    }
}

/// The first application from `i` on that descends from the given process.
pub open spec fn first_below(
    states: Seq<AppBridgeState>,
    procs: Seq<ProcInfo>,
    pid: u32,
    i: int,
) -> Option<int>
    decreases states.len() - i,
{
    if i >= states.len() {
        None
    } else if states[i].pid is Some && terminal::ancestor_within(
        procs,
        pid,
        states[i].pid->0,
        MAX_GENERATIONS as nat,
    ) {
        Some(i)
    } else {
        first_below(states, procs, pid, i + 1)
    }
}

/// The first application from `i` on that runs in the given directory.
pub open spec fn first_in(states: Seq<AppBridgeState>, cwd: Seq<char>, i: int) -> Option<int>
    decreases states.len() - i,
{
    if i >= states.len() {
        None
    } else if text::opt_text(states[i].cwd) == Some(cwd) {
        Some(i)
    } else {
        first_in(states, cwd, i + 1)
    }
}

/// The last of the first `n` applications that published latest.
pub open spec fn latest(states: Seq<AppBridgeState>, n: int) -> Option<int>
    decreases n,
{
    if n <= 0 {
        None
    } else {
        match latest(states, n - 1) {
            Some(b) => if states[b].updated_at_ms.unwrap_or(0)
                > states[n - 1].updated_at_ms.unwrap_or(0) {
                Some(b)
            } else {
                Some(n - 1)
            },
            None => Some(n - 1),
        }
    }
}

/// The application that is meant: that of the given process, or one that descends from it;
/// else one that runs in the given directory; else the one that published latest.
pub open spec fn selected(
    states: Seq<AppBridgeState>,
    procs: Seq<ProcInfo>,
    pid: Option<u32>,
    cwd: Option<Seq<char>>,
) -> Option<int> {
    if pid is Some && first_with_pid(states, pid->0, 0) is Some {
        first_with_pid(states, pid->0, 0)
    } else if pid is Some && first_below(states, procs, pid->0, 0) is Some {
        first_below(states, procs, pid->0, 0)
    } else if cwd is Some && cwd->0.len() > 0 && first_in(states, cwd->0, 0) is Some {
        first_in(states, cwd->0, 0)
    } else {
        latest(states, states.len() as int)
    }
}

/// The application of the given process.
fn find_pid(states: &Vec<AppBridgeState>, pid: u32) -> (r: Option<usize>)
    ensures
        match r {
            Some(i) => i < states@.len() && first_with_pid(states@, pid, 0) == Some(i as int),
            None => first_with_pid(states@, pid, 0) is None,
        },
{
    let mut i: usize = 0;
    while i < states.len()
        invariant
            0 <= i <= states@.len(),
            first_with_pid(states@, pid, 0) == first_with_pid(states@, pid, i as int),
        decreases states@.len() - i,
    {
        match states[i].pid {
            Some(p) => {
                if p == pid {
                    return Some(i);
                }
            },
            None => {},
        }
        i += 1;
    }
    None
}

/// An application that descends from the given process.
fn find_below(states: &Vec<AppBridgeState>, procs: &Vec<ProcInfo>, pid: u32) -> (r: Option<usize>)
    ensures
        match r {
            Some(i) => i < states@.len() && first_below(states@, procs@, pid, 0) == Some(i as int),
            None => first_below(states@, procs@, pid, 0) is None,
        },
{
    let mut i: usize = 0;
    while i < states.len()
        invariant
            0 <= i <= states@.len(),
            first_below(states@, procs@, pid, 0) == first_below(states@, procs@, pid, i as int),
        decreases states@.len() - i,
    {
        match states[i].pid {
            Some(p) => {
                if terminal::is_ancestor(pid, p, procs) {
                    return Some(i);
                }
            },
            None => {},
        }
        i += 1;
    }
    None
}

/// An application that runs in the given directory.
fn find_in(states: &Vec<AppBridgeState>, cwd: &str) -> (r: Option<usize>)
    ensures
        match r {
            Some(i) => i < states@.len() && first_in(states@, cwd@, 0) == Some(i as int),
            None => first_in(states@, cwd@, 0) is None,
        },
{
    let mut i: usize = 0;
    while i < states.len()
        invariant
            0 <= i <= states@.len(),
            first_in(states@, cwd@, 0) == first_in(states@, cwd@, i as int),
        decreases states@.len() - i,
    {
        if text::is_text(&states[i].cwd, cwd) {
            return Some(i);
        }
        i += 1;
    }
    None
}

/// The application that published latest.
fn find_latest(states: &Vec<AppBridgeState>) -> (r: Option<usize>)
    ensures
        match r {
            Some(i) => i < states@.len() && latest(states@, states@.len() as int) == Some(i as int),
            None => latest(states@, states@.len() as int) is None,
        },
{
    let mut best: Option<usize> = None;
    let mut i: usize = 0;
    while i < states.len()
        invariant
            0 <= i <= states@.len(),
            match best {
                Some(b) => b < i && latest(states@, i as int) == Some(b as int),
                None => latest(states@, i as int) is None,
            },
        decreases states@.len() - i,
    {
        let stay = match best {
            Some(b) => {
                let tb: i64 = match states[b].updated_at_ms {
                    Some(t) => t,
                    None => 0,
                };
                let ti: i64 = match states[i].updated_at_ms {
                    Some(t) => t,
                    None => 0,
                };
                tb > ti
            },
            None => false,
        };
        if !stay {
            best = Some(i);
        }
        i += 1;
    }
    best
}

/// The application that is meant, by its place in the list.
pub fn select_app_state(
    states: &Vec<AppBridgeState>,
    procs: &Vec<ProcInfo>,
    preferred_pid: Option<u32>,
    preferred_cwd: Option<&str>,
) -> (r: Option<usize>)
    ensures
        match r {
            Some(i) => i < states@.len() && selected(
                states@,
                procs@,
                preferred_pid,
                bridge::opt_str(preferred_cwd),
            ) == Some(i as int),
            None => selected(states@, procs@, preferred_pid, bridge::opt_str(preferred_cwd)) is None,
        },
{
    if let Some(pid) = preferred_pid {
        if let Some(i) = find_pid(states, pid) {
            return Some(i);
        }
        if let Some(i) = find_below(states, procs, pid) {
            return Some(i);
        }
    }
    if let Some(cwd) = preferred_cwd {
        if !text::is_empty(cwd) {
            if let Some(i) = find_in(states, cwd) {
                return Some(i);
            }
        }
    }
    find_latest(states)
}

/// Where any application publishes its state, one is meant.
pub proof fn law_some_state_is_selected(
    states: Seq<AppBridgeState>,
    procs: Seq<ProcInfo>,
    pid: Option<u32>,
    cwd: Option<Seq<char>>,
)
    requires
        states.len() > 0,
    ensures
        selected(states, procs, pid, cwd) is Some,
{
    assert(latest(states, states.len() as int) is Some);
}

} // verus!

//! Neovim's state, as its bridges publish it, and which of several Neovims is meant.
use crate::action;
use crate::bridge;
use crate::bridge::BridgeError;
use crate::json;
use crate::scan;
use crate::terminal;
use crate::terminal::{ProcInfo, MAX_GENERATIONS};
use crate::text;
use vstd::prelude::*;

verus! {

/// The debugger.
#[derive(Debug)]
pub struct NvimDapState {
    pub active: bool,
    pub state: Option<String>,
    pub adapter: Option<String>,
    pub session: Option<String>,
    pub updated_at_ms: Option<i64>,
}

/// The debugger's windows.
#[derive(Clone, Copy, Debug)]
pub struct NvimDapUiState {
    pub available: bool,
    pub visible: bool,
}

/// The test runner.
#[derive(Clone, Copy, Debug)]
pub struct NvimNeotestState {
    pub available: bool,
    pub summary_visible: bool,
    pub updated_at_ms: Option<i64>,
}

/// A database connection.
#[derive(Debug)]
pub struct NvimDbConnection {
    pub name: String,
    pub source: String,
    pub key_name: String,
    pub is_connected: bool,
}

/// The database windows.
#[derive(Debug)]
pub struct NvimDbuiState {
    pub available: bool,
    pub visible: bool,
    pub in_buffer: bool,
    pub connections: Vec<NvimDbConnection>,
}

/// What a Neovim publishes.
#[derive(Debug)]
pub struct NvimBridgeState {
    pub pid: u32,
    pub socket: String,
    pub cwd: Option<String>,
    pub mode: Option<String>,
    pub file: Option<String>,
    pub filetype: Option<String>,
    pub dap: NvimDapState,
    pub dapui: NvimDapUiState,
    pub neotest: NvimNeotestState,
    pub dbui: NvimDbuiState,
}

/// The debugger, its texts taken as sequences.
pub struct DapView {
    pub active: bool,
    pub state: Option<Seq<char>>,
    pub adapter: Option<Seq<char>>,
    pub session: Option<Seq<char>>,
    pub updated_at_ms: Option<i64>,
}

/// A database connection, its texts taken as sequences.
pub struct ConnectionView {
    pub name: Seq<char>,
    pub source: Seq<char>,
    pub key_name: Seq<char>,
    pub is_connected: bool,
}

/// The database windows, their texts taken as sequences.
pub struct DbuiView {
    pub available: bool,
    pub visible: bool,
    pub in_buffer: bool,
    pub connections: Seq<ConnectionView>,
}

/// What a Neovim publishes, its texts taken as sequences.
pub struct NvimView {
    pub pid: u32,
    pub socket: Seq<char>,
    pub cwd: Option<Seq<char>>,
    pub mode: Option<Seq<char>>,
    pub file: Option<Seq<char>>,
    pub filetype: Option<Seq<char>>,
    pub dap: DapView,
    pub dapui: NvimDapUiState,
    pub neotest: NvimNeotestState,
    pub dbui: DbuiView,
}

impl View for NvimDbConnection {
    type V = ConnectionView;

    open spec fn view(&self) -> ConnectionView {
        ConnectionView {
            name: self.name@,
            source: self.source@,
            key_name: self.key_name@,
            is_connected: self.is_connected,
        }
    }
}

/// What a list of connections holds.
pub open spec fn connections(v: Seq<NvimDbConnection>) -> Seq<ConnectionView> {
    v.map_values(|c: NvimDbConnection| c@)
}

impl View for NvimBridgeState {
    type V = NvimView;

    open spec fn view(&self) -> NvimView {
        NvimView {
            pid: self.pid,
            socket: self.socket@,
            cwd: text::opt_text(self.cwd),
            mode: text::opt_text(self.mode),
            file: text::opt_text(self.file),
            filetype: text::opt_text(self.filetype),
            dap: DapView {
                active: self.dap.active,
                state: text::opt_text(self.dap.state),
                adapter: text::opt_text(self.dap.adapter),
                session: text::opt_text(self.dap.session),
                updated_at_ms: self.dap.updated_at_ms,
            },
            dapui: self.dapui,
            neotest: self.neotest,
            dbui: DbuiView {
                available: self.dbui.available,
                visible: self.dbui.visible,
                in_buffer: self.dbui.in_buffer,
                connections: connections(self.dbui.connections@),
            },
        }
    }
}

/// What a list of Neovims publishes.
pub open spec fn states_view(v: Seq<NvimBridgeState>) -> Seq<NvimView> {
    v.map_values(|s: NvimBridgeState| s@)
}

/// What an optional Neovim publishes.
pub open spec fn opt_state(s: Option<NvimBridgeState>) -> Option<NvimView> {
    match s {
        Some(s) => Some(s@),
        None => None,
    }
}

/// A copy of a list of connections.
fn copy_connections(v: &Vec<NvimDbConnection>) -> (r: Vec<NvimDbConnection>)
    ensures
        connections(r@) == connections(v@),
{
    let ghost all = connections(v@);
    let mut out: Vec<NvimDbConnection> = Vec::new();
    let mut i: usize = 0;
    assert(connections(out@) =~= all.take(0));
    while i < v.len()
        invariant
            0 <= i <= v@.len(),
            all == connections(v@),
            connections(out@) == all.take(i as int),
        decreases v@.len() - i,
    {
        let ghost before = connections(out@);
        let c = NvimDbConnection {
            name: v[i].name.clone(),
            source: v[i].source.clone(),
            key_name: v[i].key_name.clone(),
            is_connected: v[i].is_connected,
        };
        assert(c@ == all[i as int]);
        out.push(c);
        assert(connections(out@) =~= before.push(c@));
        i += 1;
        assert(all.take(i as int) =~= all.take(i - 1).push(all[i - 1]));
    }
    assert(all.take(i as int) =~= all);
    out
}

impl NvimBridgeState {
    /// A copy of what is published.
    pub fn copy(&self) -> (r: NvimBridgeState)
        ensures
            r@ == self@,
    {
        NvimBridgeState {
            pid: self.pid,
            socket: self.socket.clone(),
            cwd: action::clone_text(&self.cwd),
            mode: action::clone_text(&self.mode),
            file: action::clone_text(&self.file),
            filetype: action::clone_text(&self.filetype),
            dap: NvimDapState {
                active: self.dap.active,
                state: action::clone_text(&self.dap.state),
                adapter: action::clone_text(&self.dap.adapter),
                session: action::clone_text(&self.dap.session),
                updated_at_ms: self.dap.updated_at_ms,
            },
            dapui: self.dapui,
            neotest: self.neotest,
            dbui: NvimDbuiState {
                available: self.dbui.available,
                visible: self.dbui.visible,
                in_buffer: self.dbui.in_buffer,
                connections: copy_connections(&self.dbui.connections),
            },
        }
    }
}

// ---------------------------------------------------------------------------
// The connections as JSON
// ---------------------------------------------------------------------------

/// A connection as JSON.
pub open spec fn connection_json(c: ConnectionView) -> Seq<char> {
    bridge::object(
        seq![
            bridge::entry("name"@, json::quoted(c.name)),
            bridge::entry("source"@, json::quoted(c.source)),
            bridge::entry("key_name"@, json::quoted(c.key_name)),
            bridge::entry("is_connected"@, json::bool_text(c.is_connected)),
        ],
    )
}

/// Connections as a JSON array.
pub open spec fn connections_json(list: Seq<ConnectionView>) -> Seq<char> {
    "["@ + scan::joined(list.map_values(|c: ConnectionView| connection_json(c)), ","@) + "]"@
}

/// A connection as JSON.
fn write_connection(c: &NvimDbConnection) -> (r: String)
    ensures
        r@ == connection_json(c@),
{
    let mut parts: Vec<String> = Vec::new();
    parts.push(bridge::write_entry("name", json::quote(c.name.as_str()).as_str()));
    parts.push(bridge::write_entry("source", json::quote(c.source.as_str()).as_str()));
    parts.push(bridge::write_entry("key_name", json::quote(c.key_name.as_str()).as_str()));
    parts.push(bridge::write_entry("is_connected", json::write_bool(c.is_connected)));
    assert(text::texts(parts@) =~= seq![
        bridge::entry("name"@, json::quoted(c@.name)),
        bridge::entry("source"@, json::quoted(c@.source)),
        bridge::entry("key_name"@, json::quoted(c@.key_name)),
        bridge::entry("is_connected"@, json::bool_text(c@.is_connected)),
    ]);
    bridge::write_object(&parts)
}

/// Connections as a JSON array.
pub fn write_connections(list: &Vec<NvimDbConnection>) -> (r: String)
    ensures
        r@ == connections_json(connections(list@)),
{
    let ghost all = connections(list@).map_values(|c: ConnectionView| connection_json(c));
    let mut parts: Vec<String> = Vec::new();
    let mut i: usize = 0;
    assert(text::texts(parts@) =~= all.take(0));
    while i < list.len()
        invariant
            0 <= i <= list@.len(),
            all == connections(list@).map_values(|c: ConnectionView| connection_json(c)),
            text::texts(parts@) == all.take(i as int),
        decreases list@.len() - i,
    {
        let ghost before = text::texts(parts@);
        let one = write_connection(&list[i]);
        assert(one@ == all[i as int]);
        parts.push(one);
        assert(text::texts(parts@) =~= before.push(one@));
        i += 1;
        assert(all.take(i as int) =~= all.take(i - 1).push(all[i - 1]));
    }
    assert(all.take(i as int) =~= all);
    text::concat3("[", bridge::join_with(&parts, ",").as_str(), "]")
}

// ---------------------------------------------------------------------------
// Which Neovim is meant
// ---------------------------------------------------------------------------

/// The first Neovim from `i` on with the given process identifier.
pub open spec fn first_with_pid(states: Seq<NvimView>, pid: u32, i: int) -> Option<int>
    decreases states.len() - i,
{
    if i >= states.len() {
        None
    } else if states[i].pid == pid {
        Some(i)
    } else {
        first_with_pid(states, pid, i + 1)
    }
}

/// The first Neovim from `i` on that descends from the given process.
pub open spec fn first_below(states: Seq<NvimView>, procs: Seq<ProcInfo>, pid: u32, i: int) -> Option<
    int,
>
    decreases states.len() - i,
{
    if i >= states.len() {
        None
    } else if terminal::ancestor_within(procs, pid, states[i].pid, MAX_GENERATIONS as nat) {
        Some(i)
    } else {
        first_below(states, procs, pid, i + 1)
    }
}

/// Whether a Neovim is debugging.
pub open spec fn debugging(s: NvimView) -> bool {
    s.dap.active || s.dapui.visible
}

/// Whether `a` is shown rather than `b` where no process is given: one that is debugging
/// rather than one that is not, then the one whose debugger changed last.
pub open spec fn outranks(a: NvimView, b: NvimView) -> bool {
    if debugging(a) != debugging(b) {
        debugging(a)
    } else {
        a.dap.updated_at_ms.unwrap_or(0) > b.dap.updated_at_ms.unwrap_or(0)
    }
}

/// The last of the first `n` Neovims that no other of them outranks.
pub open spec fn top_ranked(states: Seq<NvimView>, n: int) -> Option<int>
    decreases n,
{
    if n <= 0 {
        None
    } else {
        match top_ranked(states, n - 1) {
            Some(b) => if outranks(states[b], states[n - 1]) {
                Some(b)
            } else {
                Some(n - 1)
            },
            None => Some(n - 1),
        }
    }
}

/// The Neovim that is meant: that of the given process, or else one that descends from it;
/// where no process is given, the one that is debugging.
pub open spec fn selected(states: Seq<NvimView>, procs: Seq<ProcInfo>, pid: Option<u32>) -> Option<
    int,
> {
    match pid {
        Some(p) => match first_with_pid(states, p, 0) {
            Some(i) => Some(i),
            None => first_below(states, procs, p, 0),
        },
        None => top_ranked(states, states.len() as int),
    }
}

/// Whether `a` is shown rather than `b`.
fn is_above(a: &NvimBridgeState, b: &NvimBridgeState) -> (r: bool)
    ensures
        r == outranks(a@, b@),
{
    let da = a.dap.active || a.dapui.visible;
    let db = b.dap.active || b.dapui.visible;
    if da != db {
        da
    } else {
        let ta: i64 = match a.dap.updated_at_ms {
            Some(t) => t,
            None => 0,
        };
        let tb: i64 = match b.dap.updated_at_ms {
            Some(t) => t,
            None => 0,
        };
        ta > tb
    }
}

/// The Neovim that is meant, by its place in the list.
pub fn selected_state(
    states: &Vec<NvimBridgeState>,
    procs: &Vec<ProcInfo>,
    preferred_pid: Option<u32>,
) -> (r: Option<usize>)
    ensures
        match r {
            Some(i) => i < states@.len() && selected(states_view(states@), procs@, preferred_pid)
                == Some(i as int),
            None => selected(states_view(states@), procs@, preferred_pid) is None,
        },
{
    let ghost all = states_view(states@);
    match preferred_pid {
        Some(pid) => {
            let mut i: usize = 0;
            while i < states.len()
                invariant
                    0 <= i <= states@.len(),
                    all == states_view(states@),
                    first_with_pid(all, pid, 0) == first_with_pid(all, pid, i as int),
                    preferred_pid == Some(pid),
                decreases states@.len() - i,
            {
                assert(all[i as int] == states@[i as int]@);
                if states[i].pid == pid {
                    return Some(i);
                }
                i += 1;
            }
            let mut j: usize = 0;
            while j < states.len()
                invariant
                    0 <= j <= states@.len(),
                    all == states_view(states@),
                    preferred_pid == Some(pid),
                    first_with_pid(all, pid, 0) is None,
                    first_below(all, procs@, pid, 0) == first_below(all, procs@, pid, j as int),
                decreases states@.len() - j,
            {
                assert(all[j as int] == states@[j as int]@);
                if terminal::is_ancestor(pid, states[j].pid, procs) {
                    return Some(j);
                }
                j += 1;
            }
            None
        },
        None => {
            let mut best: Option<usize> = None;
            let mut i: usize = 0;
            while i < states.len()
                invariant
                    0 <= i <= states@.len(),
                    all == states_view(states@),
                    match best {
                        Some(b) => b < i && top_ranked(all, i as int) == Some(b as int),
                        None => top_ranked(all, i as int) is None,
                    },
                decreases states@.len() - i,
            {
                assert(all[i as int] == states@[i as int]@);
                match best {
                    Some(b) => {
                        assert(all[b as int] == states@[b as int]@);
                        if !is_above(&states[b], &states[i]) {
                            best = Some(i);
                        }
                    },
                    None => {
                        best = Some(i);
                    },
                }
                i += 1;
            }
            best
        },
    }
}

/// What is known of the Neovims: whether there is one, and the one that is meant.
#[derive(Debug)]
pub struct NvimBridgeSnapshot {
    pub available: bool,
    pub selected: Option<NvimBridgeState>,
}

/// The Neovims that publish their state.
#[derive(Debug)]
pub struct NvimBridgeClient {
    pub states: Vec<NvimBridgeState>,
}

impl NvimBridgeClient {
    /// A client that knows of no Neovim.
    pub fn new() -> (r: NvimBridgeClient)
        ensures
            r.states@ == Seq::<NvimBridgeState>::empty(),
    {
        NvimBridgeClient { states: Vec::new() }
    }

    /// Takes note of the Neovims that were found, and picks the one that is meant.
    pub fn refresh(
        &mut self,
        found: Vec<NvimBridgeState>,
        procs: &Vec<ProcInfo>,
        preferred_pid: Option<u32>,
    ) -> (r: NvimBridgeSnapshot)
        ensures
            final(self).states == found,
            r.available == (found@.len() > 0),
            opt_state(r.selected) == match selected(
                states_view(found@),
                procs@,
                preferred_pid,
            ) {
                Some(i) => Some(states_view(found@)[i]),
                None => None,
            },
    {
        let available = found.len() > 0;
        let at = selected_state(&found, procs, preferred_pid);
        let chosen = match at {
            Some(i) => Some(found[i].copy()),
            None => None,
        };
        self.states = found;
        NvimBridgeSnapshot { available, selected: chosen }
    }

    /// The socket of the Neovim that is meant.
    pub fn target(&self, procs: &Vec<ProcInfo>, preferred_pid: Option<u32>) -> (r: Result<
        String,
        BridgeError,
    >)
        ensures
            match r {
                Ok(socket) => selected(states_view(self.states@), procs@, preferred_pid) is Some
                    && socket@ == states_view(self.states@)[selected(
                    states_view(self.states@),
                    procs@,
                    preferred_pid,
                )->0].socket,
                Err(e) => e is Unavailable && selected(
                    states_view(self.states@),
                    procs@,
                    preferred_pid,
                ) is None,
            },
    {
        match selected_state(&self.states, procs, preferred_pid) {
            Some(i) => Ok(self.states[i].socket.clone()),
            None => Err(BridgeError::Unavailable),
        }
    }
}

/// Where no process is given, no other Neovim outranks the one that is meant; where one is
/// given, no other Neovim than one of its descendants is meant.
pub proof fn law_selected_state(states: Seq<NvimView>, procs: Seq<ProcInfo>, pid: Option<u32>)
    ensures
        match (selected(states, procs, pid), pid) {
            (Some(i), Some(p)) => 0 <= i < states.len() && terminal::ancestor_within(
                procs,
                p,
                states[i].pid,
                MAX_GENERATIONS as nat,
            ),
            (Some(i), None) => 0 <= i < states.len() && forall|j: int|
                0 <= j < states.len() ==> !outranks(#[trigger] states[j], states[i]),
            (None, None) => states.len() == 0,
            (None, Some(p)) => forall|j: int|
                0 <= j < states.len() ==> (#[trigger] states[j]).pid != p,
        },
{
    match pid {
        Some(p) => {
            lemma_first_with_pid(states, p, 0);
            lemma_first_below(states, procs, p, 0);
        },
        None => {
            lemma_top_ranked(states, states.len() as int);
        },
    }
}

proof fn lemma_first_with_pid(states: Seq<NvimView>, p: u32, i: int)
    requires
        0 <= i <= states.len(),
    ensures
        match first_with_pid(states, p, i) {
            Some(k) => i <= k < states.len() && states[k].pid == p,
            None => forall|j: int| i <= j < states.len() ==> (#[trigger] states[j]).pid != p,
        },
    decreases states.len() - i,
{
    if i < states.len() && states[i].pid != p {
        lemma_first_with_pid(states, p, i + 1);
    }
}

proof fn lemma_first_below(states: Seq<NvimView>, procs: Seq<ProcInfo>, p: u32, i: int)
    requires
        0 <= i <= states.len(),
    ensures
        first_below(states, procs, p, i) matches Some(k) ==> i <= k < states.len()
            && terminal::ancestor_within(procs, p, states[k].pid, MAX_GENERATIONS as nat),
    decreases states.len() - i,
{
    if i < states.len() {
        lemma_first_below(states, procs, p, i + 1);
    }
}

proof fn lemma_top_ranked(states: Seq<NvimView>, n: int)
    requires
        0 <= n <= states.len(),
    ensures
        match top_ranked(states, n) {
            Some(b) => 0 <= b < n && forall|j: int|
                0 <= j < n ==> !outranks(#[trigger] states[j], states[b]),
            None => n == 0,
        },
    decreases n,
{
    if n > 0 {
        lemma_top_ranked(states, n - 1);
    }
}

} // verus!

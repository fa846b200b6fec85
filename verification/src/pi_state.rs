//! The coding agent's state, as its application bridge publishes it.
use crate::action;
use crate::app_bridge::AppBridgeState;
use crate::bridge;
use crate::text;
use vstd::prelude::*;

verus! {

/// What an agent publishes.
#[derive(Debug)]
pub struct PiState {
    pub pid: u32,
    pub model: Option<String>,
    pub provider: Option<String>,
    pub thinking: Option<String>,
    pub workflow_mode: Option<String>,
    pub cwd: Option<String>,
    pub updated_at_ms: Option<i64>,
    pub app_bridge_socket: Option<String>,
    pub capabilities: Vec<String>,
}

/// What an agent publishes, its texts taken as sequences.
pub struct PiView {
    pub pid: u32,
    pub model: Option<Seq<char>>,
    pub provider: Option<Seq<char>>,
    pub thinking: Option<Seq<char>>,
    pub workflow_mode: Option<Seq<char>>,
    pub cwd: Option<Seq<char>>,
    pub updated_at_ms: Option<i64>,
    pub app_bridge_socket: Option<Seq<char>>,
    pub capabilities: Seq<Seq<char>>,
}

impl View for PiState {
    type V = PiView;

    open spec fn view(&self) -> PiView {
        PiView {
            pid: self.pid,
            model: text::opt_text(self.model),
            provider: text::opt_text(self.provider),
            thinking: text::opt_text(self.thinking),
            workflow_mode: text::opt_text(self.workflow_mode),
            cwd: text::opt_text(self.cwd),
            updated_at_ms: self.updated_at_ms,
            app_bridge_socket: text::opt_text(self.app_bridge_socket),
            capabilities: text::texts(self.capabilities@),
        }
    }
}

/// What a list of agents publishes.
pub open spec fn states_view(v: Seq<PiState>) -> Seq<PiView> {
    v.map_values(|s: PiState| s@)
}

/// What an optional agent publishes.
pub open spec fn opt_state(s: Option<PiState>) -> Option<PiView> {
    match s {
        Some(s) => Some(s@),
        None => None,
    }
}

/// The part of an application's state that an agent fills.
#[derive(Debug)]
pub struct PiAppState {
    pub provider: Option<String>,
    pub model: Option<String>,
    pub thinking: Option<String>,
    pub workflow_mode: Option<String>,
}

impl PiState {
    /// The agent that an application's state describes, where that has a process and the
    /// part that agents fill.
    pub fn from_app_bridge(state: AppBridgeState, app: Option<PiAppState>) -> (r: Option<PiState>)
        ensures
            r is Some <==> app is Some && state.pid is Some,
            r matches Some(p) ==> p == (PiState {
                pid: state.pid->0,
                model: app->0.model,
                provider: app->0.provider,
                thinking: app->0.thinking,
                workflow_mode: app->0.workflow_mode,
                cwd: state.cwd,
                updated_at_ms: state.updated_at_ms,
                app_bridge_socket: state.socket,
                capabilities: state.capabilities,
            }),
    {
        match (app, state.pid) {
            (Some(app), Some(pid)) => Some(
                PiState {
                    pid,
                    model: app.model,
                    provider: app.provider,
                    thinking: app.thinking,
                    workflow_mode: app.workflow_mode,
                    cwd: state.cwd,
                    updated_at_ms: state.updated_at_ms,
                    app_bridge_socket: state.socket,
                    capabilities: state.capabilities,
                },
            ),
            _ => None,
        }
    }

    /// A copy of what is published.
    pub fn copy(&self) -> (r: PiState)
        ensures
            r@ == self@,
    {
        let mut capabilities: Vec<String> = Vec::new();
        let ghost all = text::texts(self.capabilities@);
        let mut i: usize = 0;
        assert(text::texts(capabilities@) =~= all.take(0));
        while i < self.capabilities.len()
            invariant
                0 <= i <= self.capabilities@.len(),
                all == text::texts(self.capabilities@),
                text::texts(capabilities@) == all.take(i as int),
            decreases self.capabilities@.len() - i,
        {
            let ghost before = text::texts(capabilities@);
            let one = self.capabilities[i].clone();
            capabilities.push(one);
            assert(text::texts(capabilities@) =~= before.push(one@));
            i += 1;
            assert(all.take(i as int) =~= all.take(i - 1).push(all[i - 1]));
        }
        assert(all.take(i as int) =~= all);
        PiState {
            pid: self.pid,
            model: action::clone_text(&self.model),
            provider: action::clone_text(&self.provider),
            thinking: action::clone_text(&self.thinking),
            workflow_mode: action::clone_text(&self.workflow_mode),
            cwd: action::clone_text(&self.cwd),
            updated_at_ms: self.updated_at_ms,
            app_bridge_socket: action::clone_text(&self.app_bridge_socket),
            capabilities,
        }
    }
}

/// The first agent from `i` on with the given process identifier.
pub open spec fn first_with_pid(states: Seq<PiView>, pid: u32, i: int) -> Option<int>
    decreases states.len() - i,
{
    if i >= states.len() {
        None
    } else if states[i].pid == pid {
        Some(i)
    } else {
        first_with_pid(states, pid, i + 1)
    }
}

/// The first agent from `i` on that runs in the given directory.
pub open spec fn first_in(states: Seq<PiView>, cwd: Seq<char>, i: int) -> Option<int>
    decreases states.len() - i,
{
    if i >= states.len() {
        None
    } else if states[i].cwd == Some(cwd) {
        Some(i)
    } else {
        first_in(states, cwd, i + 1)
    }
}

/// The last of the first `n` agents that published latest.
pub open spec fn latest(states: Seq<PiView>, n: int) -> Option<int>
    decreases n,
{
    if n <= 0 {
        None
    } else {
        match latest(states, n - 1) {
            Some(b) => if states[b].updated_at_ms.unwrap_or(0)
                > states[n - 1].updated_at_ms.unwrap_or(0) {
                Some(b)
            } else {
                Some(n - 1)
            },
            None => Some(n - 1),
        }
    }
}

/// The agent that is meant: that of the given process; else one that runs in the given
/// directory; else the one that published latest.
pub open spec fn selected(states: Seq<PiView>, pid: Option<u32>, cwd: Option<Seq<char>>) -> Option<
    int,
> {
    if pid is Some && first_with_pid(states, pid->0, 0) is Some {
        first_with_pid(states, pid->0, 0)
    } else if cwd is Some && cwd->0.len() > 0 && first_in(states, cwd->0, 0) is Some {
        first_in(states, cwd->0, 0)
    } else {
        latest(states, states.len() as int)
    }
}

/// The agent that is meant, by its place in the list.
pub fn select_state(
    states: &Vec<PiState>,
    preferred_pid: Option<u32>,
    preferred_cwd: Option<&str>,
) -> (r: Option<usize>)
    ensures
        match r {
            Some(i) => i < states@.len() && selected(
                states_view(states@),
                preferred_pid,
                bridge::opt_str(preferred_cwd),
            ) == Some(i as int),
            None => selected(
                states_view(states@),
                preferred_pid,
                bridge::opt_str(preferred_cwd),
            ) is None,
        },
{
    let ghost all = states_view(states@);
    if let Some(pid) = preferred_pid {
        let mut i: usize = 0;
        while i < states.len()
            invariant
                0 <= i <= states@.len(),
                all == states_view(states@),
                preferred_pid == Some(pid),
                first_with_pid(all, pid, 0) == first_with_pid(all, pid, i as int),
            decreases states@.len() - i,
        {
            assert(all[i as int] == states@[i as int]@);
            if states[i].pid == pid {
                return Some(i);
            }
            i += 1;
        }
    }
    if let Some(cwd) = preferred_cwd {
        if !text::is_empty(cwd) {
            let mut i: usize = 0;
            while i < states.len()
                invariant
                    0 <= i <= states@.len(),
                    all == states_view(states@),
                    cwd@.len() > 0,
                    preferred_cwd == Some(cwd),
                    preferred_pid is Some ==> first_with_pid(all, preferred_pid->0, 0) is None,
                    first_in(all, cwd@, 0) == first_in(all, cwd@, i as int),
                decreases states@.len() - i,
            {
                assert(all[i as int] == states@[i as int]@);
                if text::is_text(&states[i].cwd, cwd) {
                    return Some(i);
                }
                i += 1;
            }
        }
    }
    let mut best: Option<usize> = None;
    let mut i: usize = 0;
    while i < states.len()
        invariant
            0 <= i <= states@.len(),
            all == states_view(states@),
            match best {
                Some(b) => b < i && latest(all, i as int) == Some(b as int),
                None => latest(all, i as int) is None,
            },
        decreases states@.len() - i,
    {
        assert(all[i as int] == states@[i as int]@);
        let stay = match best {
            Some(b) => {
                assert(all[b as int] == states@[b as int]@);
                let tb: i64 = match states[b].updated_at_ms {
                    Some(t) => t,
                    None => 0,
                };
                let ti: i64 = match states[i].updated_at_ms {
                    Some(t) => t,
                    None => 0,
                };
                tb > ti
            },
            None => false,
        };
        if !stay {
            best = Some(i);
        }
        i += 1;
    }
    best
}

/// Why no action can be sent to an agent.
#[derive(Clone, Copy, Debug, PartialEq, Eq, Structural)]
pub enum PiError {
    /// No agent publishes its state.
    NoState,
    /// The agent that is meant has no socket.
    NoSocket,
}

/// The agents that publish their state.
#[derive(Debug)]
pub struct PiStateClient {
    pub states: Vec<PiState>,
}

/// Whether an agent listens for an action.
pub open spec fn listens(agent: Option<PiView>, name: Seq<char>) -> bool {
    match agent {
        Some(s) => s.app_bridge_socket is Some && s.app_bridge_socket->0.len() > 0
            && s.capabilities.contains(name),
        None => false,
    }
}

/// Whether `r` is where an agent is reached.
pub open spec fn reached_at(agent: Option<PiView>, r: Result<String, PiError>) -> bool {
    match agent {
        None => r == Err::<String, PiError>(PiError::NoState),
        Some(s) => match s.app_bridge_socket {
            None => r == Err::<String, PiError>(PiError::NoSocket),
            Some(socket) => r matches Ok(t) && t@ == socket,
        },
    }
}

impl PiStateClient {
    /// The agent that is meant.
    pub open spec fn meant(self, pid: Option<u32>, cwd: Option<Seq<char>>) -> Option<PiView> {
        match selected(states_view(self.states@), pid, cwd) {
            Some(i) => Some(states_view(self.states@)[i]),
            None => None,
        }
    }

    /// A client that knows of no agent.
    pub fn new() -> (r: PiStateClient)
        ensures
            r.states@ == Seq::<PiState>::empty(),
    {
        PiStateClient { states: Vec::new() }
    }

    /// Takes note of the agents that were found, and picks the one that is meant.
    pub fn refresh(
        &mut self,
        found: Vec<PiState>,
        preferred_pid: Option<u32>,
        preferred_cwd: Option<&str>,
    ) -> (r: Option<PiState>)
        ensures
            final(self).states == found,
            opt_state(r) == final(self).meant(preferred_pid, bridge::opt_str(preferred_cwd)),
    {
        self.states = found;
        match select_state(&self.states, preferred_pid, preferred_cwd) {
            Some(i) => Some(self.states[i].copy()),
            None => None,
        }
    }

    /// Whether the agent that is meant listens for an action.
    pub fn can_send_action(
        &self,
        name: &str,
        preferred_pid: Option<u32>,
        preferred_cwd: Option<&str>,
    ) -> (r: bool)
        ensures
            r == listens(self.meant(preferred_pid, bridge::opt_str(preferred_cwd)), name@),
    {
        match select_state(&self.states, preferred_pid, preferred_cwd) {
            Some(i) => {
                let socket = match &self.states[i].app_bridge_socket {
                    Some(s) => !text::is_empty(s.as_str()),
                    None => false,
                };
                socket && text::holds_text(&self.states[i].capabilities, name)
            },
            None => false,
        }
    }

    /// The socket of the agent that is meant.
    pub fn target(&self, preferred_pid: Option<u32>, preferred_cwd: Option<&str>) -> (r: Result<
        String,
        PiError,
    >)
        ensures
            reached_at(self.meant(preferred_pid, bridge::opt_str(preferred_cwd)), r),
    {
        match select_state(&self.states, preferred_pid, preferred_cwd) {
            Some(i) => match &self.states[i].app_bridge_socket {
                Some(s) => Ok(s.clone()),
                None => Err(PiError::NoSocket),
            },
            None => Err(PiError::NoState),
        }
    }
}

/// Where any agent publishes its state, one is meant.
pub proof fn law_some_agent_is_selected(states: Seq<PiView>, pid: Option<u32>, cwd: Option<Seq<char>>)
    requires
        states.len() > 0,
    ensures
        selected(states, pid, cwd) is Some,
{
    assert(latest(states, states.len() as int) is Some);
}

} // verus!

//! Which Neovim, agent, player or remote session is meant.
use crate::app_bridge;
use crate::app_bridge::AppBridgeState;
use crate::mpris;
use crate::mpris::MediaView;
use crate::number::Number;
use crate::nvim_bridge;
use crate::nvim_bridge::NvimView;
use crate::pi_state;
use crate::pi_state::PiView;
use crate::remote;
use crate::remote::RemoteView;
use crate::terminal;
use crate::terminal::ProcInfo;
use vstd::prelude::*;

verus! {

/// The Neovim of the given process is meant where there is one, and otherwise one that this
/// process is an ancestor of; none is where neither is there.
pub proof fn law_neovim_of_a_process(states: Seq<NvimView>, procs: Seq<ProcInfo>, pid: u32)
    ensures
        match nvim_bridge::selected(states, procs, Some(pid)) {
            Some(i) => {
                &&& 0 <= i < states.len()
                &&& states[i].pid == pid || ((forall|j: int|
                    0 <= j < states.len() ==> (#[trigger] states[j]).pid != pid)
                    && terminal::ancestor_within(procs, pid, states[i].pid, 128))
            },
            None => forall|j: int|
                0 <= j < states.len() ==> (#[trigger] states[j]).pid != pid
                    && !terminal::ancestor_within(procs, pid, states[j].pid, 128),
        },
{
    lemma_nvim_pid(states, pid, 0);
    lemma_nvim_below(states, procs, pid, 0);
}

proof fn lemma_nvim_pid(states: Seq<NvimView>, pid: u32, i: int)
    requires
        0 <= i <= states.len(),
    ensures
        match nvim_bridge::first_with_pid(states, pid, i) {
            Some(k) => i <= k < states.len() && states[k].pid == pid,
            None => forall|j: int| i <= j < states.len() ==> (#[trigger] states[j]).pid != pid,
        },
    decreases states.len() - i,
{
    if i < states.len() && states[i].pid != pid {
        lemma_nvim_pid(states, pid, i + 1);
    }
}

proof fn lemma_nvim_below(states: Seq<NvimView>, procs: Seq<ProcInfo>, pid: u32, i: int)
    requires
        0 <= i <= states.len(),
    ensures
        match nvim_bridge::first_below(states, procs, pid, i) {
            Some(k) => i <= k < states.len() && terminal::ancestor_within(
                procs,
                pid,
                states[k].pid,
                128,
            ),
            None => forall|j: int|
                i <= j < states.len() ==> !terminal::ancestor_within(
                    procs,
                    pid,
                    (#[trigger] states[j]).pid,
                    128,
                ),
        },
    decreases states.len() - i,
{
    if i < states.len() && !terminal::ancestor_within(procs, pid, states[i].pid, 128) {
        lemma_nvim_below(states, procs, pid, i + 1);
    }
}

/// Where no process is given, a Neovim that debugs is meant before one that does not, and of
/// several the one whose debugger changed last.
pub proof fn law_neovim_that_debugs(states: Seq<NvimView>, procs: Seq<ProcInfo>)
    ensures
        ({
            let debugs = |s: NvimView| s.dap.active || s.dapui.visible;
            let time = |s: NvimView|
                if s.dap.updated_at_ms is Some {
                    s.dap.updated_at_ms->0
                } else {
                    0i64
                };
            match nvim_bridge::selected(states, procs, None) {
                Some(i) => {
                    &&& 0 <= i < states.len()
                    &&& forall|j: int|
                        #![trigger states[j]]
                        0 <= j < states.len() ==> (debugs(states[j]) ==> debugs(states[i])) && (
                        debugs(states[j]) == debugs(states[i]) ==> time(states[j]) <= time(
                            states[i],
                        ))
                },
                None => states.len() == 0,
            }
        }),
{
    lemma_top_ranked(states, states.len() as int);
}

proof fn lemma_top_ranked(states: Seq<NvimView>, n: int)
    requires
        0 <= n <= states.len(),
    ensures
        match nvim_bridge::top_ranked(states, n) {
            Some(i) => {
                &&& 0 <= i < n
                &&& forall|j: int|
                    0 <= j < n ==> !nvim_bridge::outranks(#[trigger] states[j], states[i])
            },
            None => n == 0,
        },
    decreases n,
{
    if n > 0 {
        lemma_top_ranked(states, n - 1);
    }
}

/// A process is its own ancestor; and one whose parent is known is below its parent's
/// ancestors, within 128 generations.
pub proof fn law_ancestors(procs: Seq<ProcInfo>, ancestor: u32, pid: u32, n: nat)
    requires
        n > 0,
    ensures
        terminal::ancestor_within(procs, pid, pid, n),
        terminal::MAX_GENERATIONS == 128,
        pid != ancestor ==> ({
            let i = terminal::proc_place(procs, pid) as int;
            terminal::ancestor_within(procs, ancestor, pid, n) <==> i < procs.len()
                && procs[i].ppid != 0 && procs[i].ppid != pid && terminal::ancestor_within(
                procs,
                ancestor,
                procs[i].ppid,
                (n - 1) as nat,
            )
        }),
{
}

/// The agent of the given process is meant where there is one; else one that runs in the given
/// directory, where that is not empty; else one that published as late as any. None is meant
/// where there is none.
pub proof fn law_agent_that_is_meant(states: Seq<PiView>, pid: Option<u32>, cwd: Option<Seq<char>>)
    ensures
        ({
            let by_pid = |s: PiView| pid is Some && s.pid == pid->0;
            let by_cwd = |s: PiView| cwd is Some && cwd->0.len() > 0 && s.cwd == cwd;
            let time = |s: PiView|
                if s.updated_at_ms is Some {
                    s.updated_at_ms->0 as int
                } else {
                    0
                };
            match pi_state::selected(states, pid, cwd) {
                Some(i) => {
                    &&& 0 <= i < states.len()
                    &&& (exists|j: int|
                        0 <= j < states.len() && by_pid(#[trigger] states[j])) ==> by_pid(states[i])
                    &&& !(exists|j: int| 0 <= j < states.len() && by_pid(#[trigger] states[j])) && (
                    exists|j: int| 0 <= j < states.len() && by_cwd(#[trigger] states[j])) ==> by_cwd(
                        states[i],
                    )
                    &&& !(exists|j: int| 0 <= j < states.len() && by_pid(#[trigger] states[j]))
                        && !(exists|j: int|
                        0 <= j < states.len() && by_cwd(#[trigger] states[j])) ==> forall|j: int|
                        0 <= j < states.len() ==> time(#[trigger] states[j]) <= time(states[i])
                },
                None => states.len() == 0,
            }
        }),
{
    if pid is Some {
        lemma_pi_pid(states, pid->0, 0);
    }
    if cwd is Some {
        lemma_pi_cwd(states, cwd->0, 0);
    }
    lemma_pi_latest(states, states.len() as int);
}

proof fn lemma_pi_pid(states: Seq<PiView>, pid: u32, i: int)
    requires
        0 <= i <= states.len(),
    ensures
        match pi_state::first_with_pid(states, pid, i) {
            Some(k) => i <= k < states.len() && states[k].pid == pid,
            None => forall|j: int| i <= j < states.len() ==> (#[trigger] states[j]).pid != pid,
        },
    decreases states.len() - i,
{
    if i < states.len() && states[i].pid != pid {
        lemma_pi_pid(states, pid, i + 1);
    }
}

proof fn lemma_pi_cwd(states: Seq<PiView>, cwd: Seq<char>, i: int)
    requires
        0 <= i <= states.len(),
    ensures
        match pi_state::first_in(states, cwd, i) {
            Some(k) => i <= k < states.len() && states[k].cwd == Some(cwd),
            None => forall|j: int| i <= j < states.len() ==> (#[trigger] states[j]).cwd != Some(cwd),
        },
    decreases states.len() - i,
{
    if i < states.len() && states[i].cwd != Some(cwd) {
        lemma_pi_cwd(states, cwd, i + 1);
    }
}

proof fn lemma_pi_latest(states: Seq<PiView>, n: int)
    requires
        0 <= n <= states.len(),
    ensures
        match pi_state::latest(states, n) {
            Some(i) => 0 <= i < n && forall|j: int|
                0 <= j < n ==> (#[trigger] states[j]).updated_at_ms.unwrap_or(0)
                    <= states[i].updated_at_ms.unwrap_or(0),
            None => n == 0,
        },
    decreases n,
{
    if n > 0 {
        lemma_pi_latest(states, n - 1);
    }
}

/// The application of the given process is meant where there is one.
pub proof fn law_application_of_a_process(
    states: Seq<AppBridgeState>,
    procs: Seq<ProcInfo>,
    pid: u32,
    cwd: Option<Seq<char>>,
    k: int,
)
    requires
        0 <= k < states.len(),
        states[k].pid == Some(pid),
    ensures
        app_bridge::selected(states, procs, Some(pid), cwd) matches Some(i) && 0 <= i
            < states.len() && states[i].pid == Some(pid),
{
    lemma_app_pid(states, pid, 0);
    assert(states[k].pid == Some(pid));
}

proof fn lemma_app_pid(states: Seq<AppBridgeState>, pid: u32, i: int)
    requires
        0 <= i <= states.len(),
    ensures
        match app_bridge::first_with_pid(states, pid, i) {
            Some(k) => i <= k < states.len() && states[k].pid == Some(pid),
            None => forall|j: int|
                i <= j < states.len() ==> (#[trigger] states[j]).pid != Some(pid),
        },
    decreases states.len() - i,
{
    if i < states.len() && states[i].pid != Some(pid) {
        lemma_app_pid(states, pid, i + 1);
    }
}

/// Where no application has the given process, one that this process is an ancestor of is meant;
/// where there is none either, one that runs in the given directory, where that is not empty.
pub proof fn law_application_below_or_beside(
    states: Seq<AppBridgeState>,
    procs: Seq<ProcInfo>,
    pid: Option<u32>,
    cwd: Option<Seq<char>>,
    k: int,
)
    requires
        0 <= k < states.len(),
        pid is Some ==> forall|j: int|
            0 <= j < states.len() ==> (#[trigger] states[j]).pid != Some(pid->0),
    ensures
        ({
            let below = |s: AppBridgeState|
                pid is Some && s.pid is Some && terminal::ancestor_within(
                    procs,
                    pid->0,
                    s.pid->0,
                    128,
                );
            let beside = |s: AppBridgeState|
                cwd is Some && cwd->0.len() > 0 && s.cwd is Some && s.cwd->0@ == cwd->0;
            let meant = app_bridge::selected(states, procs, pid, cwd);
            &&& below(states[k]) ==> (meant matches Some(i) && 0 <= i < states.len() && below(
                states[i],
            ))
            &&& (forall|j: int| 0 <= j < states.len() ==> !below(#[trigger] states[j])) && beside(
                states[k],
            ) ==> (meant matches Some(i) && 0 <= i < states.len() && beside(states[i]))
        }),
{
    if pid is Some {
        lemma_app_pid(states, pid->0, 0);
        lemma_app_below(states, procs, pid->0, 0);
    }
    if cwd is Some {
        lemma_app_cwd(states, cwd->0, 0);
    }
    assert(states[k] == states[k]);
}

proof fn lemma_app_below(states: Seq<AppBridgeState>, procs: Seq<ProcInfo>, pid: u32, i: int)
    requires
        0 <= i <= states.len(),
    ensures
        match app_bridge::first_below(states, procs, pid, i) {
            Some(k) => i <= k < states.len() && states[k].pid is Some && terminal::ancestor_within(
                procs,
                pid,
                states[k].pid->0,
                128,
            ),
            None => forall|j: int|
                i <= j < states.len() ==> !((#[trigger] states[j]).pid is Some
                    && terminal::ancestor_within(procs, pid, states[j].pid->0, 128)),
        },
    decreases states.len() - i,
{
    if i < states.len() {
        if !(states[i].pid is Some && terminal::ancestor_within(procs, pid, states[i].pid->0, 128)) {
            lemma_app_below(states, procs, pid, i + 1);
        }
    }
}

proof fn lemma_app_cwd(states: Seq<AppBridgeState>, cwd: Seq<char>, i: int)
    requires
        0 <= i <= states.len(),
    ensures
        match app_bridge::first_in(states, cwd, i) {
            Some(k) => i <= k < states.len() && states[k].cwd is Some && states[k].cwd->0@ == cwd,
            None => forall|j: int|
                i <= j < states.len() ==> !((#[trigger] states[j]).cwd is Some && states[j].cwd->0@
                    == cwd),
        },
    decreases states.len() - i,
{
    if i < states.len() {
        if !(states[i].cwd is Some && states[i].cwd->0@ == cwd) {
            lemma_app_cwd(states, cwd, i + 1);
        }
    }
}

/// A published state is one of the protocol where it says so or says nothing of it.
pub proof fn law_states_of_the_protocol(s: AppBridgeState)
    ensures
        s.message_type is None && s.protocol is None ==> s.speaks_protocol(),
        s.message_type is Some && s.message_type->0@ != "state"@ ==> !s.speaks_protocol(),
        s.protocol is Some && s.protocol->0@ != "tiny-dfr.app.v1"@ ==> !s.speaks_protocol(),
        s.message_type is Some && s.message_type->0@ == "state"@ && s.protocol is Some
            && s.protocol->0@ == "tiny-dfr.app.v1"@ ==> s.speaks_protocol(),
{
}

/// Where no process and no directory is given, the application that published last is meant.
pub proof fn law_application_that_published_last(states: Seq<AppBridgeState>, procs: Seq<ProcInfo>)
    ensures
        match app_bridge::selected(states, procs, None, None) {
            Some(i) => 0 <= i < states.len() && forall|j: int|
                0 <= j < states.len() ==> (#[trigger] states[j]).updated_at_ms.unwrap_or(0)
                    <= states[i].updated_at_ms.unwrap_or(0),
            None => states.len() == 0,
        },
{
    lemma_app_latest(states, states.len() as int);
}

proof fn lemma_app_latest(states: Seq<AppBridgeState>, n: int)
    requires
        0 <= n <= states.len(),
    ensures
        match app_bridge::latest(states, n) {
            Some(i) => 0 <= i < n && forall|j: int|
                0 <= j < n ==> (#[trigger] states[j]).updated_at_ms.unwrap_or(0)
                    <= states[i].updated_at_ms.unwrap_or(0),
            None => n == 0,
        },
    decreases n,
{
    if n > 0 {
        lemma_app_latest(states, n - 1);
    }
}

/// The player to show is the first that plays, whatever else is there; where none plays, the
/// first that has a cover and a track with a length; and none otherwise.
pub proof fn law_player_to_show(players: Seq<MediaView>)
    ensures
        ({
            let plays = |m: MediaView| m.status == "Playing"@;
            let shows = |m: MediaView|
                m.art_url.len() > 0 && !m.length_us.is_nan() && !m.length_us.at_most_zero();
            match mpris::chosen(players) {
                Some(i) => {
                    &&& 0 <= i < players.len()
                    &&& plays(players[i]) ==> forall|j: int|
                        0 <= j < i ==> !plays(#[trigger] players[j])
                    &&& !plays(players[i]) ==> shows(players[i]) && (forall|j: int|
                        0 <= j < players.len() ==> !plays(#[trigger] players[j])) && (forall|
                        j: int,
                    | 0 <= j < i ==> !shows(#[trigger] players[j]))
                },
                None => forall|j: int|
                    0 <= j < players.len() ==> !plays(#[trigger] players[j]) && !shows(players[j]),
            }
        }),
{
    lemma_first_playing(players, 0);
    lemma_first_showable(players, 0);
}

proof fn lemma_first_playing(players: Seq<MediaView>, i: int)
    requires
        0 <= i <= players.len(),
    ensures
        match mpris::first_playing(players, i) {
            Some(k) => i <= k < players.len() && players[k].status == "Playing"@ && forall|j: int|
                i <= j < k ==> (#[trigger] players[j]).status != "Playing"@,
            None => forall|j: int|
                i <= j < players.len() ==> (#[trigger] players[j]).status != "Playing"@,
        },
    decreases players.len() - i,
{
    if i < players.len() && players[i].status != "Playing"@ {
        lemma_first_playing(players, i + 1);
    }
}

proof fn lemma_first_showable(players: Seq<MediaView>, i: int)
    requires
        0 <= i <= players.len(),
    ensures
        match mpris::first_showable(players, i) {
            Some(k) => i <= k < players.len() && mpris::showable(players[k]) && forall|j: int|
                i <= j < k ==> !mpris::showable(#[trigger] players[j]),
            None => forall|j: int|
                i <= j < players.len() ==> !mpris::showable(#[trigger] players[j]),
        },
    decreases players.len() - i,
{
    if i < players.len() && !mpris::showable(players[i]) {
        lemma_first_showable(players, i + 1);
    }
}

/// What a player leaves out is taken from the page that plays, and what it says stays.
pub proof fn law_page_fills_in(player: Number, page: Number)
    ensures
        player.is_zero() ==> mpris::given_or(player, page) == page,
        !player.is_zero() ==> mpris::given_or(player, page) == player,
{
}

/// A session's new report takes the place of its old one, and the reports of the others stay.
pub proof fn law_new_report(contexts: Seq<RemoteView>, new: RemoteView, id: Seq<char>)
    requires
        remote::sessions_differ(contexts),
    ensures
        ({
            let after = remote::reported(contexts, new);
            &&& after.contains(new)
            &&& forall|i: int|
                0 <= i < contexts.len() && (#[trigger] contexts[i]).session_id != new.session_id
                    ==> after.contains(contexts[i])
            &&& forall|i: int|
                0 <= i < after.len() ==> #[trigger] after[i] == new || (contexts.contains(after[i])
                    && after[i].session_id != new.session_id)
        }),
        ({
            let left = remote::forgotten(contexts, id);
            &&& forall|i: int|
                0 <= i < contexts.len() && (#[trigger] contexts[i]).session_id != id
                    ==> left.contains(contexts[i])
            &&& forall|i: int|
                0 <= i < left.len() ==> contexts.contains(#[trigger] left[i])
                    && left[i].session_id != id
        }),
{
    remote::lemma_place(contexts, new.session_id);
    remote::lemma_place(contexts, id);
    let after = remote::reported(contexts, new);
    let k = remote::place_of(contexts, new.session_id) as int;
    if k < contexts.len() {
        assert(after[k] == new);
    } else {
        assert(after[contexts.len() as int] == new);
    }
    assert forall|i: int|
        0 <= i < contexts.len() && (#[trigger] contexts[i]).session_id
            != new.session_id implies after.contains(contexts[i]) by {
        assert(after[i] == contexts[i]);
    }
    assert forall|i: int| 0 <= i < after.len() implies #[trigger] after[i] == new || (
    contexts.contains(after[i]) && after[i].session_id != new.session_id) by {
        if i < contexts.len() && i != k {
            assert(after[i] == contexts[i]);
            assert(contexts.contains(contexts[i]));
            if k < contexts.len() {
                assert(contexts[k].session_id == new.session_id);
            }
        }
    }
    let left = remote::forgotten(contexts, id);
    let m = remote::place_of(contexts, id) as int;
    assert forall|i: int|
        0 <= i < contexts.len() && (#[trigger] contexts[i]).session_id != id implies left.contains(
        contexts[i],
    ) by {
        if m < contexts.len() && i > m {
            assert(left[i - 1] == contexts[i]);
        } else {
            assert(left[i] == contexts[i]);
        }
    }
    assert forall|i: int| 0 <= i < left.len() implies contexts.contains(#[trigger] left[i])
        && left[i].session_id != id by {
        let j = if m < contexts.len() && i >= m {
            i + 1
        } else {
            i
        };
        assert(left[i] == contexts[j]);
        if m < contexts.len() {
            assert(contexts[m].session_id == id);
            assert(j != m);
        }
    }
}

/// A change of what is shown of a remote session changes its signature's parts: the session,
/// the host, the kind, the program, the command, the directory, Neovim's process, and what its
/// debugger, its tests and its databases show.
pub proof fn law_parts_of_a_signature(c: RemoteView)
    ensures
        ({
            let p = remote::signature_parts(c);
            &&& p.len() == 12
            &&& p[0] == c.session_id
            &&& p[1] == c.host
            &&& p[2] == c.kind
            &&& p[3] == c.app
            &&& p[4] == c.command
            &&& p[5] == c.cwd
            &&& p[6] == crate::text::decimal(c.nvim_pid.unwrap_or(0) as nat)
            &&& c.nvim_bridge matches Some(n) ==> {
                &&& p[7] == crate::json::bool_text(n.dap.active)
                &&& p[8] == n.dap.state.unwrap_or(Seq::empty())
                &&& p[9] == crate::json::bool_text(n.dapui.visible)
                &&& p[10] == crate::json::bool_text(n.neotest.summary_visible)
                &&& p[11] == crate::json::bool_text(n.dbui.visible || n.dbui.in_buffer)
            }
        }),
{
}

} // verus!

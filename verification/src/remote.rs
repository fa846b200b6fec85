//! Remote sessions: what runs in terminals on other machines, as they report it.
use crate::action;
use crate::bridge;
use crate::context;
use crate::json;
use crate::nvim_bridge;
use crate::nvim_bridge::{NvimBridgeState, NvimView};
use crate::order;
use crate::pi_state;
use crate::pi_state::{PiState, PiView};
use crate::scan;
use crate::text;
use vstd::prelude::*;

verus! {

/// The tmux pane that is in front in a remote session.
#[derive(Debug)]
pub struct RemoteTmuxState {
    pub pane_id: String,
    pub pane_command: String,
    pub pane_path: String,
    pub pane_pid: Option<u32>,
    pub client_tty: String,
}

/// What a remote session reports.
#[derive(Debug)]
pub struct RemoteContext {
    pub session_id: String,
    pub host: String,
    pub kind: String,
    pub app: String,
    pub command: String,
    pub cwd: String,
    pub updated_at_ms: i64,
    pub nvim_pid: Option<u32>,
    pub nvim_bridge: Option<NvimBridgeState>,
    pub pi_state: Option<PiState>,
    pub tmux_match_source: Option<String>,
    pub nvim_match_source: Option<String>,
    pub tmux: Option<RemoteTmuxState>,
}

/// A remote tmux pane, its texts taken as sequences.
pub struct RemoteTmuxView {
    pub pane_id: Seq<char>,
    pub pane_command: Seq<char>,
    pub pane_path: Seq<char>,
    pub pane_pid: Option<u32>,
    pub client_tty: Seq<char>,
}

/// What a remote session reports, its texts taken as sequences.
pub struct RemoteView {
    pub session_id: Seq<char>,
    pub host: Seq<char>,
    pub kind: Seq<char>,
    pub app: Seq<char>,
    pub command: Seq<char>,
    pub cwd: Seq<char>,
    pub updated_at_ms: i64,
    pub nvim_pid: Option<u32>,
    pub nvim_bridge: Option<NvimView>,
    pub pi_state: Option<PiView>,
    pub tmux_match_source: Option<Seq<char>>,
    pub nvim_match_source: Option<Seq<char>>,
    pub tmux: Option<RemoteTmuxView>,
}

impl View for RemoteTmuxState {
    type V = RemoteTmuxView;

    open spec fn view(&self) -> RemoteTmuxView {
        RemoteTmuxView {
            pane_id: self.pane_id@,
            pane_command: self.pane_command@,
            pane_path: self.pane_path@,
            pane_pid: self.pane_pid,
            client_tty: self.client_tty@,
        }
    }
}

impl View for RemoteContext {
    type V = RemoteView;

    open spec fn view(&self) -> RemoteView {
        RemoteView {
            session_id: self.session_id@,
            host: self.host@,
            kind: self.kind@,
            app: self.app@,
            command: self.command@,
            cwd: self.cwd@,
            updated_at_ms: self.updated_at_ms,
            nvim_pid: self.nvim_pid,
            nvim_bridge: nvim_bridge::opt_state(self.nvim_bridge),
            pi_state: pi_state::opt_state(self.pi_state),
            tmux_match_source: text::opt_text(self.tmux_match_source),
            nvim_match_source: text::opt_text(self.nvim_match_source),
            tmux: match self.tmux {
                Some(t) => Some(t@),
                None => None,
            },
        }
    }
}

/// What an optional remote session reports.
pub open spec fn opt_context(c: Option<RemoteContext>) -> Option<RemoteView> {
    match c {
        Some(c) => Some(c@),
        None => None,
    }
}

/// What a list of remote sessions reports.
pub open spec fn contexts_view(v: Seq<RemoteContext>) -> Seq<RemoteView> {
    v.map_values(|c: RemoteContext| c@)
}

impl RemoteContext {
    /// A copy of the report.
    pub fn copy(&self) -> (r: RemoteContext)
        ensures
            r@ == self@,
    {
        RemoteContext {
            session_id: self.session_id.clone(),
            host: self.host.clone(),
            kind: self.kind.clone(),
            app: self.app.clone(),
            command: self.command.clone(),
            cwd: self.cwd.clone(),
            updated_at_ms: self.updated_at_ms,
            nvim_pid: self.nvim_pid,
            nvim_bridge: match &self.nvim_bridge {
                Some(s) => Some(s.copy()),
                None => None,
            },
            pi_state: match &self.pi_state {
                Some(s) => Some(s.copy()),
                None => None,
            },
            tmux_match_source: action::clone_text(&self.tmux_match_source),
            nvim_match_source: action::clone_text(&self.nvim_match_source),
            tmux: match &self.tmux {
                Some(t) => Some(
                    RemoteTmuxState {
                        pane_id: t.pane_id.clone(),
                        pane_command: t.pane_command.clone(),
                        pane_path: t.pane_path.clone(),
                        pane_pid: t.pane_pid,
                        client_tty: t.client_tty.clone(),
                    },
                ),
                None => None,
            },
        }
    }
}

// ---------------------------------------------------------------------------
// Signatures
// ---------------------------------------------------------------------------

/// What a change of a report is told by, part by part.
pub open spec fn signature_parts(c: RemoteView) -> Seq<Seq<char>> {
    let nvim = c.nvim_bridge;
    seq![
        c.session_id,
        c.host,
        c.kind,
        c.app,
        c.command,
        c.cwd,
        text::decimal(c.nvim_pid.unwrap_or(0) as nat),
        json::bool_text(nvim is Some && nvim->0.dap.active),
        match nvim {
            Some(s) => s.dap.state.unwrap_or(Seq::empty()),
            None => Seq::empty(),
        },
        json::bool_text(nvim is Some && nvim->0.dapui.visible),
        json::bool_text(nvim is Some && nvim->0.neotest.summary_visible),
        json::bool_text(nvim is Some && (nvim->0.dbui.visible || nvim->0.dbui.in_buffer)),
    ]
}

/// What a change of a report is told by.
pub open spec fn signature_of(c: RemoteView) -> Seq<char> {
    scan::joined(signature_parts(c), "|"@)
}

/// What a change of any report, or of the number of sessions, is told by. It does not depend
/// on the order of the reports.
pub open spec fn signature_of_all(contexts: Seq<RemoteView>, connected: nat) -> Seq<char> {
    "connected="@ + text::decimal(connected) + ";"@ + scan::joined(
        order::in_order(contexts.map_values(|c: RemoteView| signature_of(c))),
        ";"@,
    )
}

/// What a change of a report is told by.
pub fn context_signature(c: &RemoteContext) -> (r: String)
    ensures
        r@ == signature_of(c@),
{
    let mut parts: Vec<String> = Vec::new();
    parts.push(c.session_id.clone());
    parts.push(c.host.clone());
    parts.push(c.kind.clone());
    parts.push(c.app.clone());
    parts.push(c.command.clone());
    parts.push(c.cwd.clone());
    let pid: u32 = match c.nvim_pid {
        Some(p) => p,
        None => 0,
    };
    parts.push(text::to_decimal(pid as u64));
    match &c.nvim_bridge {
        Some(s) => {
            parts.push(json::write_bool(s.dap.active).to_string());
            parts.push(text::or_empty(action::clone_text(&s.dap.state)));
            parts.push(json::write_bool(s.dapui.visible).to_string());
            parts.push(json::write_bool(s.neotest.summary_visible).to_string());
            parts.push(json::write_bool(s.dbui.visible || s.dbui.in_buffer).to_string());
        },
        None => {
            let none = String::new();
            assert(none@ =~= Seq::<char>::empty());
            parts.push(json::write_bool(false).to_string());
            parts.push(none);
            parts.push(json::write_bool(false).to_string());
            parts.push(json::write_bool(false).to_string());
            parts.push(json::write_bool(false).to_string());
        },
    }
    assert(text::texts(parts@) =~= signature_parts(c@));
    bridge::join_with(&parts, "|")
}

/// What a change of any report, or of the number of sessions, is told by.
pub fn contexts_signature(contexts: &Vec<RemoteContext>, connected: usize) -> (r: String)
    ensures
        r@ == signature_of_all(contexts_view(contexts@), connected as nat),
{
    let ghost all = contexts_view(contexts@).map_values(|c: RemoteView| signature_of(c));
    let mut values: Vec<String> = Vec::new();
    let mut i: usize = 0;
    assert(text::texts(values@) =~= all.take(0));
    while i < contexts.len()
        invariant
            0 <= i <= contexts@.len(),
            all == contexts_view(contexts@).map_values(|c: RemoteView| signature_of(c)),
            text::texts(values@) == all.take(i as int),
        decreases contexts@.len() - i,
    {
        let ghost before = text::texts(values@);
        let one = context_signature(&contexts[i]);
        assert(one@ == all[i as int]);
        values.push(one);
        assert(text::texts(values@) =~= before.push(one@));
        i += 1;
        assert(all.take(i as int) =~= all.take(i - 1).push(all[i - 1]));
    }
    assert(all.take(i as int) =~= all);
    let sorted = order::sort(values);
    let head = text::concat3("connected=", text::to_decimal(connected as u64).as_str(), ";");
    text::concat(head.as_str(), bridge::join_with(&sorted, ";").as_str())
}

// ---------------------------------------------------------------------------
// The sessions
// ---------------------------------------------------------------------------

/// What all remote sessions report, each session once.
#[derive(Debug)]
pub struct RemoteSharedState {
    contexts: Vec<RemoteContext>,
    signature: String,
    connected_sessions: usize,
}

/// What all remote sessions report.
pub struct SharedView {
    pub contexts: Seq<RemoteView>,
    pub signature: Seq<char>,
    pub connected_sessions: nat,
}

/// Where the report of a session stands, or the number of reports where there is none.
pub open spec fn place_of(contexts: Seq<RemoteView>, id: Seq<char>) -> nat
    decreases contexts.len(),
{
    if contexts.len() == 0 || contexts[0].session_id == id {
        0
    } else {
        1 + place_of(contexts.drop_first(), id)
    }
}

/// The reports with a new one, which replaces the one of the same session.
pub open spec fn reported(contexts: Seq<RemoteView>, new: RemoteView) -> Seq<RemoteView> {
    let i = place_of(contexts, new.session_id) as int;
    if i < contexts.len() {
        contexts.update(i, new)
    } else {
        contexts.push(new)
    }
}

/// The reports without that of a session.
pub open spec fn forgotten(contexts: Seq<RemoteView>, id: Seq<char>) -> Seq<RemoteView> {
    let i = place_of(contexts, id) as int;
    if i < contexts.len() {
        contexts.remove(i)
    } else {
        contexts
    }
}

impl SharedView {
    /// This state with other reports or another number of sessions.
    pub open spec fn with(contexts: Seq<RemoteView>, connected: nat) -> SharedView {
        SharedView {
            contexts,
            signature: signature_of_all(contexts, connected),
            connected_sessions: connected,
        }
    }
}

impl View for RemoteSharedState {
    type V = SharedView;

    closed spec fn view(&self) -> SharedView {
        SharedView {
            contexts: contexts_view(self.contexts@),
            signature: self.signature@,
            connected_sessions: self.connected_sessions as nat,
        }
    }
}

/// Whether no session has two reports.
pub open spec fn sessions_differ(contexts: Seq<RemoteView>) -> bool {
    forall|i: int, j: int|
        #![trigger contexts[i], contexts[j]]
        0 <= i < contexts.len() && 0 <= j < contexts.len() && contexts[i].session_id
            == contexts[j].session_id ==> i == j
}

/// The place of the report that came last, and of several that came last any.
pub open spec fn is_latest(contexts: Seq<RemoteView>, i: int) -> bool {
    0 <= i < contexts.len() && forall|j: int|
        0 <= j < contexts.len() ==> (#[trigger] contexts[j]).updated_at_ms
            <= contexts[i].updated_at_ms
}

/// What `place_of` gives is the report of that session, or the end.
pub proof fn lemma_place(contexts: Seq<RemoteView>, id: Seq<char>)
    ensures
        place_of(contexts, id) <= contexts.len(),
        place_of(contexts, id) < contexts.len() ==> contexts[place_of(
            contexts,
            id,
        ) as int].session_id == id,
        forall|i: int|
            0 <= i < place_of(contexts, id) ==> (#[trigger] contexts[i]).session_id != id,
    decreases contexts.len(),
{
    if contexts.len() > 0 && contexts[0].session_id != id {
        let rest = contexts.drop_first();
        lemma_place(rest, id);
        assert forall|i: int| 0 <= i < place_of(contexts, id) implies (
        #[trigger] contexts[i]).session_id != id by {
            if i > 0 {
                assert(contexts[i] == rest[i - 1]);
            }
        }
    }
}

/// Reporting and forgetting leave no session with two reports.
proof fn lemma_sessions_differ(contexts: Seq<RemoteView>, new: RemoteView, id: Seq<char>)
    requires
        sessions_differ(contexts),
    ensures
        sessions_differ(reported(contexts, new)),
        sessions_differ(forgotten(contexts, id)),
{
    lemma_place(contexts, new.session_id);
    lemma_place(contexts, id);
    let more = reported(contexts, new);
    let at = place_of(contexts, new.session_id) as int;
    assert forall|i: int, j: int|
        #![trigger more[i], more[j]]
        0 <= i < more.len() && 0 <= j < more.len() && more[i].session_id == more[j].session_id
            implies i == j by {
        if i != at {
            assert(more[i] == contexts[i]);
        }
        if j != at {
            assert(more[j] == contexts[j]);
        }
        if i == at && j != at && at < contexts.len() {
            assert(contexts[at].session_id == contexts[j].session_id);
        }
        if j == at && i != at && at < contexts.len() {
            assert(contexts[at].session_id == contexts[i].session_id);
        }
    }
    let fewer = forgotten(contexts, id);
    let gone = place_of(contexts, id) as int;
    assert forall|i: int, j: int|
        #![trigger fewer[i], fewer[j]]
        0 <= i < fewer.len() && 0 <= j < fewer.len() && fewer[i].session_id == fewer[j].session_id
            implies i == j by {
        let oi = if i < gone {
            i
        } else {
            i + 1
        };
        let oj = if j < gone {
            j
        } else {
            j + 1
        };
        if gone < contexts.len() {
            assert(fewer[i] == contexts[oi] && fewer[j] == contexts[oj]);
        }
    }
}

impl RemoteSharedState {
    /// No session has two reports.
    pub open spec fn wf(self) -> bool {
        sessions_differ(self@.contexts)
    }

    /// A state without sessions.
    pub fn new() -> (r: RemoteSharedState)
        ensures
            r.wf(),
            r@ == (SharedView {
                contexts: Seq::empty(),
                signature: Seq::empty(),
                connected_sessions: 0,
            }),
    {
        let r = RemoteSharedState {
            contexts: Vec::new(),
            signature: String::new(),
            connected_sessions: 0,
        };
        assert(r@.contexts =~= Seq::<RemoteView>::empty());
        assert(r@.signature =~= Seq::<char>::empty());
        r
    }

    /// Works out the signature, and says whether it has changed.
    fn update_signature(&mut self) -> (r: bool)
        ensures
            final(self)@ == SharedView::with(old(self)@.contexts, old(self)@.connected_sessions),
            final(self).contexts == old(self).contexts,
            r == (final(self)@.signature != old(self)@.signature),
    {
        let signature = contexts_signature(&self.contexts, self.connected_sessions);
        let changed = !text::same(signature.as_str(), self.signature.as_str());
        self.signature = signature;
        changed
    }

    /// Where the report of a session stands.
    fn position(&self, id: &str) -> (r: usize)
        ensures
            r == place_of(self@.contexts, id@),
            r <= self.contexts@.len() == self@.contexts.len(),
    {
        let ghost all = self@.contexts;
        let mut i: usize = 0;
        assert(all.skip(0) =~= all);
        while i < self.contexts.len()
            invariant
                0 <= i <= self.contexts@.len(),
                all == contexts_view(self.contexts@),
                place_of(all, id@) == i + place_of(all.skip(i as int), id@),
            decreases self.contexts@.len() - i,
        {
            assert(all.skip(i as int)[0] == self.contexts@[i as int]@);
            if text::same(self.contexts[i].session_id.as_str(), id) {
                return i;
            }
            assert(all.skip(i as int).drop_first() =~= all.skip(i + 1));
            i += 1;
        }
        i
    }

    /// Takes note of a report, and says whether that changes the signature.
    pub fn upsert_context(&mut self, new: RemoteContext) -> (r: bool)
        requires
            old(self).wf(),
        ensures
            final(self).wf(),
            final(self)@ == SharedView::with(
                reported(old(self)@.contexts, new@),
                old(self)@.connected_sessions,
            ),
            r == (final(self)@.signature != old(self)@.signature),
    {
        let ghost before = self@.contexts;
        proof {
            lemma_sessions_differ(before, new@, new@.session_id);
        }
        let at = self.position(new.session_id.as_str());
        if at < self.contexts.len() {
            self.contexts.set(at, new);
            assert(self@.contexts =~= before.update(at as int, new@));
        } else {
            self.contexts.push(new);
            assert(self@.contexts =~= before.push(new@));
        }
        self.update_signature()
    }

    /// Forgets a session, and says whether that changes the signature.
    pub fn remove_context(&mut self, id: &str) -> (r: bool)
        requires
            old(self).wf(),
        ensures
            final(self).wf(),
            final(self)@ == SharedView::with(
                forgotten(old(self)@.contexts, id@),
                old(self)@.connected_sessions,
            ),
            r == (final(self)@.signature != old(self)@.signature),
    {
        let ghost before = self@.contexts;
        proof {
            if before.len() > 0 {
                lemma_sessions_differ(before, before[0], id@);
            }
        }
        let at = self.position(id);
        if at < self.contexts.len() {
            self.contexts.remove(at);
            assert(self@.contexts =~= before.remove(at as int));
        }
        self.update_signature()
    }

    /// Takes note of the number of connected sessions, and says whether that changes the
    /// signature.
    pub fn update_connected_count(&mut self, count: usize) -> (r: bool)
        requires
            old(self).wf(),
        ensures
            final(self).wf(),
            final(self)@ == SharedView::with(old(self)@.contexts, count as nat),
            r == (final(self)@.signature != old(self)@.signature),
    {
        self.connected_sessions = count;
        self.update_signature()
    }

    /// The place of the report that came last.
    fn latest(&self) -> (r: Option<usize>)
        ensures
            r is Some <==> self@.contexts.len() > 0,
            r matches Some(i) ==> is_latest(self@.contexts, i as int) && i < self.contexts@.len(),
    {
        let ghost all = self@.contexts;
        let mut best: Option<usize> = None;
        let mut i: usize = 0;
        while i < self.contexts.len()
            invariant
                0 <= i <= self.contexts@.len(),
                all == contexts_view(self.contexts@),
                best is Some <==> i > 0,
                best matches Some(b) ==> b < i && forall|j: int|
                    0 <= j < i ==> (#[trigger] all[j]).updated_at_ms
                        <= all[b as int].updated_at_ms,
            decreases self.contexts@.len() - i,
        {
            assert(all[i as int] == self.contexts@[i as int]@);
            match best {
                Some(b) => {
                    assert(all[b as int] == self.contexts@[b as int]@);
                    if self.contexts[b].updated_at_ms <= self.contexts[i].updated_at_ms {
                        best = Some(i);
                    }
                },
                None => {
                    best = Some(i);
                },
            }
            i += 1;
        }
        best
    }

    /// The report that came last.
    pub fn latest_context(&self) -> (r: Option<RemoteContext>)
        ensures
            r is Some <==> self@.contexts.len() > 0,
            r matches Some(c) ==> exists|i: int| #[trigger]
                is_latest(self@.contexts, i) && c@ == self@.contexts[i],
    {
        match self.latest() {
            Some(i) => {
                let c = self.contexts[i].copy();
                assert(is_latest(self@.contexts, i as int) && c@ == self@.contexts[i as int]);
                Some(c)
            },
            None => None,
        }
    }

    /// What a change of any report, or of the number of sessions, is told by.
    pub fn signature(&self) -> (r: String)
        ensures
            r@ == self@.signature,
    {
        self.signature.clone()
    }

    /// Whether any session is connected or has reported.
    pub fn is_active(&self) -> (r: bool)
        ensures
            r == (self@.connected_sessions > 0 || self@.contexts.len() > 0),
    {
        self.connected_sessions > 0 || self.contexts.len() > 0
    }

    /// The connection over which an action reaches the session that reported last, where
    /// `sessions` gives the session of each connection.
    pub fn action_target(&self, sessions: &Vec<Option<String>>) -> (r: Result<usize, SendError>)
        ensures
            match r {
                Ok(k) => exists|i: int| #[trigger]
                    is_latest(self@.contexts, i) && connection_of(
                        sessions@,
                        self@.contexts[i].session_id,
                        0,
                    ) == Some(k as int) && k < sessions@.len(),
                Err(SendError::NoContext) => self@.contexts.len() == 0,
                Err(SendError::NotConnected(id)) => exists|i: int| #[trigger]
                    is_latest(self@.contexts, i) && id@ == self@.contexts[i].session_id
                        && connection_of(sessions@, id@, 0) is None,
            },
    {
        let i = match self.latest() {
            Some(i) => i,
            None => return Err(SendError::NoContext),
        };
        let id = self.contexts[i].session_id.clone();
        assert(is_latest(self@.contexts, i as int) && id@ == self@.contexts[i as int].session_id);
        let mut k: usize = 0;
        while k < sessions.len()
            invariant
                0 <= k <= sessions@.len(),
                is_latest(self@.contexts, i as int) && id@ == self@.contexts[i as int].session_id,
                connection_of(sessions@, id@, 0) == connection_of(sessions@, id@, k as int),
            decreases sessions@.len() - k,
        {
            if text::is_text(&sessions[k], id.as_str()) {
                return Ok(k);
            }
            k += 1;
        }
        Err(SendError::NotConnected(id))
    }
}

/// Why an action does not reach a remote session.
#[derive(Debug)]
pub enum SendError {
    /// No session has reported.
    NoContext,
    /// The session that reported last is not connected.
    NotConnected(String),
}

/// The first connection from `k` on that is one of the given session.
pub open spec fn connection_of(sessions: Seq<Option<String>>, id: Seq<char>, k: int) -> Option<int>
    decreases sessions.len() - k,
{
    if k >= sessions.len() {
        None
    } else if text::opt_text(sessions[k]) == Some(id) {
        Some(k)
    } else {
        connection_of(sessions, id, k + 1)
    }
}

/// What the application last saw of the remote sessions.
#[derive(Debug)]
pub struct RemoteClient {
    pub last_signature: String,
}

impl RemoteClient {
    /// A client that has seen nothing.
    pub fn new() -> (r: RemoteClient)
        ensures
            r.last_signature@ == Seq::<char>::empty(),
    {
        let r = RemoteClient { last_signature: String::new() };
        assert(r.last_signature@ =~= Seq::<char>::empty());
        r
    }

    /// Whether the remote sessions have changed since the last time.
    pub fn refresh(&mut self, signature: String) -> (r: bool)
        ensures
            r == (signature@ != old(self).last_signature@),
            final(self).last_signature@ == signature@,
    {
        if text::same(signature.as_str(), self.last_signature.as_str()) {
            false
        } else {
            self.last_signature = signature;
            true
        }
    }
}

// ---------------------------------------------------------------------------
// Messages
// ---------------------------------------------------------------------------

/// Takes the first complete line out of a buffer, without the white space around it.
pub fn pop_line(buffer: &mut Vec<u8>) -> (r: Option<String>)
    ensures
        ({
            let end = context::line_end(old(buffer)@) as int;
            if end < old(buffer)@.len() {
                &&& r matches Some(line) && line@ == scan::trimmed(
                    text::utf8_lossy(old(buffer)@.take(end)),
                )
                &&& final(buffer)@ == old(buffer)@.skip(end + 1)
            } else {
                &&& r is None
                &&& final(buffer)@ == old(buffer)@
            }
        }),
{
    let total = buffer.len();
    let end = context::find_line_end(buffer, 0);
    assert(buffer@.skip(0) =~= buffer@);
    if end == total {
        return None;
    }
    let line = text::from_utf8_lossy(&context::bytes_of(buffer, 0, end));
    assert(buffer@.subrange(0, end as int) =~= buffer@.take(end as int));
    let rest = context::bytes_of(buffer, end + 1, total);
    assert(rest@ =~= buffer@.skip(end + 1));
    *buffer = rest;
    Some(scan::trim(line.as_str()))
}

/// What a message is.
#[derive(Debug)]
pub enum RemoteMessage {
    /// Not a message.
    Invalid,
    /// A greeting.
    Hello,
    /// A report.
    Context,
    /// The outcome of an action.
    ActionResult { failed: bool },
    /// A message of an unknown kind.
    Unknown(String),
}

/// A message, and the session that it says it is from.
#[derive(Debug)]
pub struct RemoteLine {
    pub session_id: Option<String>,
    pub message: RemoteMessage,
}

/// Whether `r` is what a message is in which this stands.
pub open spec fn line_says(
    valid: bool,
    kind: Option<Seq<char>>,
    session_id: Option<Seq<char>>,
    ok: Option<bool>,
    r: RemoteLine,
) -> bool {
    if !valid {
        r.session_id is None && r.message is Invalid
    } else {
        let k = kind.unwrap_or(Seq::empty());
        &&& text::opt_text(r.session_id) == session_id
        &&& if k == "hello"@ {
            r.message is Hello
        } else if k == "context"@ {
            r.message is Context
        } else if k == "action_result"@ {
            r.message == RemoteMessage::ActionResult { failed: ok == Some(false) }
        } else {
            r.message matches RemoteMessage::Unknown(t) && t@ == k
        }
    }
}

/// What a message is, from what stands in it.
pub fn classify_line(
    valid: bool,
    kind: Option<String>,
    session_id: Option<String>,
    ok: Option<bool>,
) -> (r: RemoteLine)
    ensures
        line_says(valid, text::opt_text(kind), text::opt_text(session_id), ok, r),
{
    if !valid {
        return RemoteLine { session_id: None, message: RemoteMessage::Invalid };
    }
    let k = text::or_empty(kind);
    let message = if text::same(k.as_str(), "hello") {
        RemoteMessage::Hello
    } else if text::same(k.as_str(), "context") {
        RemoteMessage::Context
    } else if text::same(k.as_str(), "action_result") {
        RemoteMessage::ActionResult {
            failed: match ok {
                Some(b) => !b,
                None => false,
            },
        }
    } else {
        RemoteMessage::Unknown(k)
    };
    RemoteLine { session_id, message }
}

/// What a line is.
pub fn read_line(line: &Vec<u8>) -> (r: RemoteLine)
    ensures
        line_says(
            json::is_document(line@),
            json::text_at(line@, "/type"@),
            json::text_at(line@, "/session_id"@),
            json::bool_at(line@, "/ok"@),
            r,
        ),
{
    let kind = json::read_text(line, "/type");
    let session_id = json::read_text(line, "/session_id");
    classify_line(json::can_read(line), kind, session_id, json::read_bool(line, "/ok"))
}

/// A report is there until it is forgotten: after a session reported, its report is that one,
/// and after it was forgotten it has none.
pub proof fn law_reports_are_kept(contexts: Seq<RemoteView>, new: RemoteView)
    requires
        sessions_differ(contexts),
    ensures
        ({
            let after = reported(contexts, new);
            let i = place_of(after, new.session_id) as int;
            &&& i < after.len()
            &&& after[i] == new
        }),
        ({
            let left = forgotten(contexts, new.session_id);
            place_of(left, new.session_id) == left.len()
        }),
{
    let id = new.session_id;
    lemma_place(contexts, id);
    let at = place_of(contexts, id) as int;
    let after = reported(contexts, new);
    lemma_place(after, id);
    let i = place_of(after, id) as int;
    assert(after[at] == new);
    if i < at {
        assert(after[i] == contexts[i]);
    } else if i > at {
        assert(after[at].session_id != id);
    }
    let left = forgotten(contexts, id);
    lemma_place(left, id);
    let j = place_of(left, id) as int;
    if j < left.len() {
        if at < contexts.len() {
            let oj = if j < at {
                j
            } else {
                j + 1
            };
            assert(left[j] == contexts[oj]);
            assert(contexts[oj].session_id == contexts[at].session_id);
        }
    }
}

/// The signature does not depend on the order in which sessions reported.
pub proof fn law_signature_forgets_order(a: Seq<RemoteView>, b: Seq<RemoteView>, connected: nat)
    requires
        a.map_values(|c: RemoteView| signature_of(c)).to_multiset() == b.map_values(
            |c: RemoteView| signature_of(c),
        ).to_multiset(),
    ensures
        signature_of_all(a, connected) == signature_of_all(b, connected),
{
    order::law_order_forgets_order(
        a.map_values(|c: RemoteView| signature_of(c)),
        b.map_values(|c: RemoteView| signature_of(c)),
    );
}

} // verus!

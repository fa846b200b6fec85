//! What runs in the focused terminal window: the program in front, directly or within tmux.
use crate::json;
use crate::scan;
use crate::text;
use vstd::prelude::*;

verus! {

/// How the program in front runs.
#[derive(Clone, Copy, Debug, PartialEq, Eq, Structural)]
pub enum TerminalKind {
    Direct,
    Tmux,
    Unknown,
}

impl TerminalKind {
    /// The name of the kind.
    pub open spec fn name(self) -> Seq<char> {
        match self {
            TerminalKind::Direct => "direct"@,
            TerminalKind::Tmux => "tmux"@,
            TerminalKind::Unknown => "unknown"@,
        }
    }

    /// The name of the kind.
    pub fn as_str(self) -> (r: &'static str)
        ensures
            r@ == self.name(),
    {
        match self {
            TerminalKind::Direct => "direct",
            TerminalKind::Tmux => "tmux",
            TerminalKind::Unknown => "unknown",
        }
    }
}

/// The program in front.
#[derive(Clone, Copy, Debug, PartialEq, Eq, Structural)]
pub enum TerminalApp {
    Nvim,
    Pi,
    Ssh,
    Shell,
    Unknown,
}

impl TerminalApp {
    /// The name of the program.
    pub open spec fn name(self) -> Seq<char> {
        match self {
            TerminalApp::Nvim => "nvim"@,
            TerminalApp::Pi => "pi"@,
            TerminalApp::Ssh => "ssh"@,
            TerminalApp::Shell => "shell"@,
            TerminalApp::Unknown => "unknown"@,
        }
    }

    /// The name of the program.
    pub fn as_str(self) -> (r: &'static str)
        ensures
            r@ == self.name(),
    {
        match self {
            TerminalApp::Nvim => "nvim",
            TerminalApp::Pi => "pi",
            TerminalApp::Ssh => "ssh",
            TerminalApp::Shell => "shell",
            TerminalApp::Unknown => "unknown",
        }
    }
}

/// The pane of a tmux client that is in front.
#[derive(Debug)]
pub struct TmuxPaneState {
    pub client_pid: Option<u32>,
    pub client_tty: String,
    pub session: String,
    pub window: String,
    pub pane_index: String,
    pub pane_id: String,
    pub pane_pid: Option<u32>,
    pub pane_command: String,
    pub pane_path: String,
    pub pane_title: String,
}

/// A tmux pane, its texts taken as sequences.
pub struct TmuxPaneView {
    pub client_pid: Option<u32>,
    pub client_tty: Seq<char>,
    pub session: Seq<char>,
    pub window: Seq<char>,
    pub pane_index: Seq<char>,
    pub pane_id: Seq<char>,
    pub pane_pid: Option<u32>,
    pub pane_command: Seq<char>,
    pub pane_path: Seq<char>,
    pub pane_title: Seq<char>,
}

impl View for TmuxPaneState {
    type V = TmuxPaneView;

    open spec fn view(&self) -> TmuxPaneView {
        TmuxPaneView {
            client_pid: self.client_pid,
            client_tty: self.client_tty@,
            session: self.session@,
            window: self.window@,
            pane_index: self.pane_index@,
            pane_id: self.pane_id@,
            pane_pid: self.pane_pid,
            pane_command: self.pane_command@,
            pane_path: self.pane_path@,
            pane_title: self.pane_title@,
        }
    }
}

/// What an optional tmux pane is.
pub open spec fn opt_pane(p: Option<TmuxPaneState>) -> Option<TmuxPaneView> {
    match p {
        Some(p) => Some(p@),
        None => None,
    }
}

/// What a list of tmux panes holds.
pub open spec fn panes(v: Seq<TmuxPaneState>) -> Seq<TmuxPaneView> {
    v.map_values(|p: TmuxPaneState| p@)
}

impl TmuxPaneState {
    /// A copy of the pane's state.
    pub fn copy(&self) -> (r: TmuxPaneState)
        ensures
            r@ == self@,
    {
        TmuxPaneState {
            client_pid: self.client_pid,
            client_tty: self.client_tty.clone(),
            session: self.session.clone(),
            window: self.window.clone(),
            pane_index: self.pane_index.clone(),
            pane_id: self.pane_id.clone(),
            pane_pid: self.pane_pid,
            pane_command: self.pane_command.clone(),
            pane_path: self.pane_path.clone(),
            pane_title: self.pane_title.clone(),
        }
    }
}

/// What is known of the focused terminal.
#[derive(Debug)]
pub struct TerminalState {
    pub available: bool,
    pub terminal: String,
    pub kind: TerminalKind,
    pub root_pid: Option<u32>,
    pub command: String,
    pub cwd: String,
    pub app: TerminalApp,
    pub app_pid: Option<u32>,
    pub nvim_pid: Option<u32>,
    pub tmux: Option<TmuxPaneState>,
    pub ghostty_pid_window_count: usize,
    pub ambiguous: bool,
}

/// What is known of the focused terminal, its texts taken as sequences.
pub struct TerminalView {
    pub available: bool,
    pub terminal: Seq<char>,
    pub kind: TerminalKind,
    pub root_pid: Option<u32>,
    pub command: Seq<char>,
    pub cwd: Seq<char>,
    pub app: TerminalApp,
    pub app_pid: Option<u32>,
    pub nvim_pid: Option<u32>,
    pub tmux: Option<TmuxPaneView>,
    pub ghostty_pid_window_count: usize,
    pub ambiguous: bool,
}

impl View for TerminalState {
    type V = TerminalView;

    open spec fn view(&self) -> TerminalView {
        TerminalView {
            available: self.available,
            terminal: self.terminal@,
            kind: self.kind,
            root_pid: self.root_pid,
            command: self.command@,
            cwd: self.cwd@,
            app: self.app,
            app_pid: self.app_pid,
            nvim_pid: self.nvim_pid,
            tmux: opt_pane(self.tmux),
            ghostty_pid_window_count: self.ghostty_pid_window_count,
            ambiguous: self.ambiguous,
        }
    }
}

/// Nothing known: no terminal is focused.
pub open spec fn no_terminal() -> TerminalView {
    TerminalView {
        available: false,
        terminal: Seq::empty(),
        kind: TerminalKind::Unknown,
        root_pid: None,
        command: Seq::empty(),
        cwd: Seq::empty(),
        app: TerminalApp::Unknown,
        app_pid: None,
        nvim_pid: None,
        tmux: None,
        ghostty_pid_window_count: 0,
        ambiguous: false,
    }
}

impl Default for TerminalState {
    fn default() -> (r: TerminalState)
        ensures
            r@ == no_terminal(),
    {
        let r = TerminalState {
            available: false,
            terminal: String::new(),
            kind: TerminalKind::Unknown,
            root_pid: None,
            command: String::new(),
            cwd: String::new(),
            app: TerminalApp::Unknown,
            app_pid: None,
            nvim_pid: None,
            tmux: None,
            ghostty_pid_window_count: 0,
            ambiguous: false,
        };
        assert(r@.terminal =~= Seq::<char>::empty());
        r
    }
}

// ---------------------------------------------------------------------------
// Windows
// ---------------------------------------------------------------------------

/// The focused window.
#[derive(Debug)]
pub struct ActiveWindowInfo {
    pub class: String,
    pub pid: u32,
}

/// A window.
#[derive(Debug)]
pub struct HyprlandWindowInfo {
    pub class: String,
    pub initial_class: String,
    pub pid: u32,
}

/// Whether a window of this class is a Ghostty terminal.
pub open spec fn ghostty(class: Seq<char>) -> bool {
    scan::occurs(text::lowercase(class), "ghostty"@)
}

/// Whether a window of this class is a Ghostty terminal.
pub fn is_ghostty_class(class: &str) -> (r: bool)
    ensures
        r == ghostty(class@),
{
    scan::contains(text::to_lowercase(class).as_str(), "ghostty")
}

/// A process identifier, where the number is one.
pub open spec fn as_pid(n: Option<u64>) -> Option<u32> {
    match n {
        Some(n) => if n <= u32::MAX {
            Some(n as u32)
        } else {
            None
        },
        None => None,
    }
}

/// A process identifier, where the number is one.
pub fn to_pid(n: Option<u64>) -> (r: Option<u32>)
    ensures
        r == as_pid(n),
{
    match n {
        Some(n) => if n <= 0xffff_ffff {
            Some(n as u32)
        } else {
            None
        },
        None => None,
    }
}

/// The focused window that a class and a number stand for, where both are there.
pub fn active_window(class: Option<String>, pid: Option<u64>) -> (r: Option<ActiveWindowInfo>)
    ensures
        r is Some <==> class is Some && as_pid(pid) is Some,
        r matches Some(w) ==> w.class@ == class->0@ && Some(w.pid) == as_pid(pid),
{
    match (class, to_pid(pid)) {
        (Some(class), Some(pid)) => Some(ActiveWindowInfo { class, pid }),
        _ => None,
    }
}

/// The focused window, from what the compositor says of it.
pub fn parse_active_window(document: &Vec<u8>) -> (r: Option<ActiveWindowInfo>)
    ensures
        r is Some <==> json::text_at(document@, "/class"@) is Some && as_pid(
            json::integer_at(document@, "/pid"@),
        ) is Some,
        r matches Some(w) ==> Some(w.class@) == json::text_at(document@, "/class"@) && Some(w.pid)
            == as_pid(json::integer_at(document@, "/pid"@)),
{
    active_window(json::read_text(document, "/class"), json::read_integer(document, "/pid"))
}

/// Whether a window is a Ghostty window of the given process.
pub open spec fn ghostty_of(pid: Option<u32>, class: Seq<char>, initial: Seq<char>, root: u32) -> bool {
    pid == Some(root) && (ghostty(class) || ghostty(initial))
}

/// How many of the first `n` windows are Ghostty windows of the given process.
pub open spec fn ghostty_count(windows: Seq<HyprlandWindowInfo>, root: u32, n: int) -> nat
    decreases n,
{
    if n <= 0 {
        0
    } else {
        ghostty_count(windows, root, n - 1) + if ghostty_of(
            Some(windows[n - 1].pid),
            windows[n - 1].class@,
            windows[n - 1].initial_class@,
            root,
        ) {
            1nat
        } else {
            0
        }
    }
}

/// How many windows are Ghostty windows of the given process.
pub fn ghostty_windows_for_pid(windows: &Vec<HyprlandWindowInfo>, root: u32) -> (r: usize)
    ensures
        r == ghostty_count(windows@, root, windows@.len() as int),
{
    let mut count: usize = 0;
    let mut i: usize = 0;
    let total = windows.len();
    while i < total
        invariant
            0 <= i <= total == windows@.len(),
            count <= i,
            count == ghostty_count(windows@, root, i as int),
        decreases total - i,
    {
        let w = &windows[i];
        if w.pid == root && (is_ghostty_class(w.class.as_str()) || is_ghostty_class(
            w.initial_class.as_str(),
        )) {
            count += 1;
        }
        i += 1;
    }
    count
}

/// A window, its texts taken as sequences.
pub struct WindowView {
    pub class: Seq<char>,
    pub initial_class: Seq<char>,
    pub pid: u32,
}

/// What a list of windows holds.
pub open spec fn windows_view(v: Seq<HyprlandWindowInfo>) -> Seq<WindowView> {
    v.map_values(
        |w: HyprlandWindowInfo|
            WindowView { class: w.class@, initial_class: w.initial_class@, pid: w.pid },
    )
}

/// The windows among the first `n` entries of the compositor's list: those that have a
/// process identifier.
pub open spec fn windows_in(document: Seq<u8>, n: nat) -> Seq<WindowView>
    decreases n,
{
    if n == 0 {
        Seq::empty()
    } else {
        let before = windows_in(document, (n - 1) as nat);
        let i = (n - 1) as nat;
        match as_pid(json::integer_at(document, json::element(""@, i, "/pid"@))) {
            Some(pid) => before.push(
                WindowView {
                    class: json::text_at(document, json::element(""@, i, "/class"@)).unwrap_or(
                        Seq::empty(),
                    ),
                    initial_class: json::text_at(
                        document,
                        json::element(""@, i, "/initialClass"@),
                    ).unwrap_or(Seq::empty()),
                    pid,
                },
            ),
            None => before,
        }
    }
}

/// The windows, from the compositor's list of them.
pub fn parse_windows(document: &Vec<u8>) -> (r: Option<Vec<HyprlandWindowInfo>>)
    ensures
        r is Some <==> json::length_at(document@, ""@) is Some,
        r matches Some(v) ==> windows_view(v@) == windows_in(
            document@,
            json::length_at(document@, ""@)->0 as nat,
        ),
{
    let total = match json::read_length(document, "") {
        Some(n) => n,
        None => return None,
    };
    let mut out: Vec<HyprlandWindowInfo> = Vec::new();
    let mut i: usize = 0;
    assert(windows_view(out@) =~= Seq::<WindowView>::empty());
    while i < total
        invariant
            i <= total,
            windows_view(out@) == windows_in(document@, i as nat),
        decreases total - i,
    {
        let pid = json::read_integer(document, json::element_pointer("", i, "/pid").as_str());
        if let Some(pid) = to_pid(pid) {
            let class = text::or_empty(
                json::read_text(document, json::element_pointer("", i, "/class").as_str()),
            );
            let initial_class = text::or_empty(
                json::read_text(document, json::element_pointer("", i, "/initialClass").as_str()),
            );
            let ghost before = windows_view(out@);
            let window = HyprlandWindowInfo { class, initial_class, pid };
            out.push(window);
            assert(windows_view(out@) =~= before.push(
                WindowView { class: class@, initial_class: initial_class@, pid },
            ));
        }
        i += 1;
    }
    Some(out)
}

// ---------------------------------------------------------------------------
// Processes
// ---------------------------------------------------------------------------

/// A process.
#[derive(Debug)]
pub struct ProcInfo {
    pub pid: u32,
    pub ppid: u32,
    pub comm: String,
    pub cwd: String,
}

/// The parent of a process, from the kernel's line on it: the second word behind the last
/// `") "`, since the program's name before it may hold anything.
pub open spec fn ppid_in(stat: Seq<char>) -> Option<u32> {
    match scan::after_last_mark(stat, ") "@) {
        Some(rest) => {
            let fields = scan::words(rest);
            if fields.len() < 2 {
                None
            } else {
                text::decimal_u32(fields[1])
            }
        },
        None => None,
    }
}

/// The parent of a process, from the kernel's line on it.
pub fn parse_ppid(stat: &str) -> (r: Option<u32>)
    ensures
        r == ppid_in(stat@),
{
    match scan::after_last_of(stat, ") ") {
        Some(rest) => {
            let fields = scan::split_whitespace(rest.as_str());
            if fields.len() < 2 {
                return None;
            }
            assert(text::texts(fields@)[1] == fields@[1]@);
            text::parse_u32(fields[1].as_str())
        },
        None => None,
    }
}

/// Whether `path` leads from a child of `root` from parent to child.
pub open spec fn line_from(procs: Seq<ProcInfo>, root: u32, path: Seq<int>) -> bool {
    &&& path.len() > 0
    &&& forall|k: int| 0 <= k < path.len() ==> 0 <= #[trigger] path[k] < procs.len()
    &&& procs[path[0]].ppid == root
    &&& forall|k: int|
        0 < k < path.len() ==> procs[#[trigger] path[k]].ppid == procs[path[k - 1]].pid
}

/// Whether process `i` descends from `root`.
pub open spec fn descends(procs: Seq<ProcInfo>, root: u32, i: int) -> bool {
    exists|path: Seq<int>| #[trigger] line_from(procs, root, path) && path.last() == i
}

/// A child of `root` descends from it.
pub proof fn lemma_child_of_root(procs: Seq<ProcInfo>, root: u32, i: int)
    requires
        0 <= i < procs.len(),
        procs[i].ppid == root,
    ensures
        descends(procs, root, i),
{
    assert(line_from(procs, root, seq![i]));
}

/// A child of a descendant is a descendant.
pub proof fn lemma_child_descends(procs: Seq<ProcInfo>, root: u32, j: int, i: int)
    requires
        descends(procs, root, j),
        0 <= i < procs.len(),
        procs[j].pid == procs[i].ppid,
    ensures
        descends(procs, root, i),
{
    let path = choose|path: Seq<int>| #[trigger] line_from(procs, root, path) && path.last() == j;
    let longer = path.push(i);
    assert forall|k: int| 0 < k < longer.len() implies procs[#[trigger] longer[k]].ppid
        == procs[longer[k - 1]].pid by {
        if k < path.len() {
            assert(procs[path[k]].ppid == procs[path[k - 1]].pid);
        }
    }
    assert(line_from(procs, root, longer));
}

/// A list that holds the children of `root` and of its own members holds all descendants.
proof fn lemma_closed_is_all(
    procs: Seq<ProcInfo>,
    root: u32,
    found: Seq<usize>,
    path: Seq<int>,
    n: int,
)
    requires
        forall|k: int|
            0 <= k < procs.len() && (#[trigger] procs[k]).ppid == root ==> found.contains(k as usize),
        forall|a: int, k: int|
            #![trigger found[a], procs[k]]
            0 <= a < found.len() && 0 <= k < procs.len() && found[a] < procs.len()
                && procs[found[a] as int].pid == procs[k].ppid ==> found.contains(k as usize),
        line_from(procs, root, path),
        0 <= n < path.len(),
        procs.len() <= usize::MAX,
    ensures
        found.contains(path[n] as usize),
    decreases n,
{
    if n > 0 {
        lemma_closed_is_all(procs, root, found, path, n - 1);
        let j = path[n - 1];
        let a = choose|a: int| 0 <= a < found.len() && found[a] == j as usize;
        assert(found[a] == j);
        assert(procs[path[n]].ppid == procs[found[a] as int].pid);
    } else {
        assert(procs[path[0]].ppid == root);
    }
}

/// Whether `list` holds `i`.
fn holds(list: &Vec<usize>, i: usize) -> (r: bool)
    ensures
        r == list@.contains(i),
{
    let mut k: usize = 0;
    while k < list.len()
        invariant
            0 <= k <= list@.len(),
            forall|a: int| 0 <= a < k ==> list@[a] != i,
        decreases list@.len() - k,
    {
        if list[k] == i {
            return true;
        }
        k += 1;
    }
    false
}

/// A list without repetitions of places in a table is no longer than the table.
proof fn lemma_distinct_is_short(list: Seq<usize>, n: nat)
    requires
        list.no_duplicates(),
        forall|a: int| 0 <= a < list.len() ==> #[trigger] list[a] < n,
    ensures
        list.len() <= n,
{
    let ints = list.map_values(|u: usize| u as int);
    assert(ints.no_duplicates());
    ints.unique_seq_to_set();
    vstd::set_lib::lemma_int_range(0, n as int);
    assert(ints.to_set().subset_of(vstd::set_lib::set_int_range(0, n as int)));
    vstd::set_lib::lemma_len_subset(ints.to_set(), vstd::set_lib::set_int_range(0, n as int));
}

/// Adds the children of `parent` that are not in the list yet.
fn add_children(procs: &Vec<ProcInfo>, parent: u32, found: &mut Vec<usize>)
    requires
        old(found)@.no_duplicates(),
        forall|a: int| 0 <= a < old(found)@.len() ==> #[trigger] old(found)@[a] < procs@.len(),
    ensures
        final(found)@.no_duplicates(),
        old(found)@.is_prefix_of(final(found)@),
        forall|a: int| 0 <= a < final(found)@.len() ==> #[trigger] final(found)@[a] < procs@.len(),
        forall|a: int|
            old(found)@.len() <= a < final(found)@.len() ==> procs@[(
            #[trigger] final(found)@[a]) as int].ppid == parent,
        forall|k: int|
            0 <= k < procs@.len() && (#[trigger] procs@[k]).ppid == parent
                ==> final(found)@.contains(k as usize),
{
    let ghost before = found@;
    let total = procs.len();
    let mut i: usize = 0;
    while i < total
        invariant
            0 <= i <= total == procs@.len(),
            found@.no_duplicates(),
            before.is_prefix_of(found@),
            forall|a: int| 0 <= a < found@.len() ==> #[trigger] found@[a] < procs@.len(),
            forall|a: int|
                before.len() <= a < found@.len() ==> procs@[(#[trigger] found@[a]) as int].ppid
                    == parent,
            forall|k: int|
                0 <= k < i && (#[trigger] procs@[k]).ppid == parent ==> found@.contains(k as usize),
        decreases total - i,
    {
        if procs[i].ppid == parent && !holds(found, i) {
            let ghost now = found@;
            found.push(i);
            proof {
                assert(found@[now.len() as int] == i);
                assert forall|k: int|
                    0 <= k < i + 1 && (#[trigger] procs@[k]).ppid == parent implies found@.contains(
                    k as usize,
                ) by {
                    if k < i {
                        let a = choose|a: int| 0 <= a < now.len() && now[a] == k as usize;
                        assert(found@[a] == k as usize);
                    }
                }
            }
        }
        i += 1;
    }
}

/// The places in the table of the processes that descend from `root`, each once.
pub fn descendants_of(root: u32, procs: &Vec<ProcInfo>) -> (r: Vec<usize>)
    ensures
        r@.no_duplicates(),
        forall|a: int| 0 <= a < r@.len() ==> #[trigger] r@[a] < procs@.len() && descends(
            procs@,
            root,
            r@[a] as int,
        ),
        forall|i: int| #[trigger] descends(procs@, root, i) ==> r@.contains(i as usize),
{
    let total = procs.len();
    let mut found: Vec<usize> = Vec::new();
    add_children(procs, root, &mut found);
    proof {
        assert forall|a: int| 0 <= a < found@.len() implies descends(
            procs@,
            root,
            #[trigger] found@[a] as int,
        ) by {
            lemma_child_of_root(procs@, root, found@[a] as int);
        }
    }
    let mut at: usize = 0;
    while at < found.len()
        invariant
            0 <= at <= found@.len(),
            total == procs@.len(),
            found@.no_duplicates(),
            forall|a: int| 0 <= a < found@.len() ==> #[trigger] found@[a] < procs@.len(),
            forall|a: int|
                0 <= a < found@.len() ==> descends(procs@, root, #[trigger] found@[a] as int),
            forall|k: int|
                0 <= k < procs@.len() && (#[trigger] procs@[k]).ppid == root ==> found@.contains(
                    k as usize,
                ),
            forall|a: int, k: int|
                #![trigger found@[a], procs@[k]]
                0 <= a < at && 0 <= k < procs@.len() && procs@[found@[a] as int].pid
                    == procs@[k].ppid ==> found@.contains(k as usize),
        decreases total - at,
    {
        let ghost before = found@;
        proof {
            lemma_distinct_is_short(found@, procs@.len());
        }
        let parent = found[at];
        add_children(procs, procs[parent].pid, &mut found);
        proof {
            assert forall|a: int| 0 <= a < before.len() implies #[trigger] found@[a] == before[a] by {
                assert(before =~= found@.take(before.len() as int));
            }
            assert forall|k: usize| before.contains(k) implies #[trigger] found@.contains(k) by {
                let a = choose|a: int| 0 <= a < before.len() && before[a] == k;
                assert(found@[a] == k);
            }
            assert forall|a: int| 0 <= a < found@.len() implies descends(
                procs@,
                root,
                #[trigger] found@[a] as int,
            ) by {
                if a < before.len() {
                    assert(descends(procs@, root, before[a] as int));
                } else {
                    lemma_child_descends(procs@, root, parent as int, found@[a] as int);
                }
            }
        }
        at += 1;
    }
    proof {
        assert forall|i: int| #[trigger] descends(procs@, root, i) implies found@.contains(
            i as usize,
        ) by {
            let path = choose|path: Seq<int>| #[trigger]
                line_from(procs@, root, path) && path.last() == i;
            lemma_closed_is_all(procs@, root, found@, path, path.len() - 1);
        }
    }
    found
}

/// Whether a process runs the given program.
pub open spec fn runs(comm: Seq<char>, wanted: Seq<char>) -> bool {
    comm == wanted || ("/"@ + wanted).is_suffix_of(comm)
}

/// Whether a process runs the given program.
pub fn command_matches(comm: &str, wanted: &str) -> (r: bool)
    ensures
        r == runs(comm@, wanted@),
{
    text::same(comm, wanted) || scan::ends_with(comm, text::concat("/", wanted).as_str())
}

/// The program that a command names.
pub open spec fn app_of(command: Seq<char>) -> TerminalApp {
    let name = scan::last_piece(command, '/');
    if runs(name, "nvim"@) || runs(name, "vim"@) {
        TerminalApp::Nvim
    } else if runs(name, "pi"@) {
        TerminalApp::Pi
    } else if runs(name, "ssh"@) {
        TerminalApp::Ssh
    } else if name == "zsh"@ || name == "bash"@ || name == "fish"@ || name == "sh"@ {
        TerminalApp::Shell
    } else {
        TerminalApp::Unknown
    }
}

/// The program that a command names.
pub fn classify_command(command: &str) -> (r: TerminalApp)
    ensures
        r == app_of(command@),
{
    let last = scan::after_last(command, '/');
    let name = last.as_str();
    if command_matches(name, "nvim") || command_matches(name, "vim") {
        TerminalApp::Nvim
    } else if command_matches(name, "pi") {
        TerminalApp::Pi
    } else if command_matches(name, "ssh") {
        TerminalApp::Ssh
    } else if text::same(name, "zsh") || text::same(name, "bash") || text::same(name, "fish")
        || text::same(name, "sh") {
        TerminalApp::Shell
    } else {
        TerminalApp::Unknown
    }
}

/// Whether process `i` descends from `root` and runs the given program.
pub open spec fn runs_under(procs: Seq<ProcInfo>, root: u32, wanted: Seq<char>, i: int) -> bool {
    0 <= i < procs.len() && descends(procs, root, i) && runs(procs[i].comm@, wanted)
}

/// Whether any process that descends from `root` runs the given program.
pub open spec fn any_runs(procs: Seq<ProcInfo>, root: u32, wanted: Seq<char>) -> bool {
    exists|i: int| runs_under(procs, root, wanted, i)
}

/// The place of a process among `among`, the descendants of `root`, that runs the given
/// program.
fn find_running(procs: &Vec<ProcInfo>, root: u32, among: &Vec<usize>, wanted: &str) -> (r: Option<
    usize,
>)
    requires
        forall|a: int| 0 <= a < among@.len() ==> #[trigger] among@[a] < procs@.len() && descends(
            procs@,
            root,
            among@[a] as int,
        ),
        forall|i: int| #[trigger] descends(procs@, root, i) ==> among@.contains(i as usize),
    ensures
        r is Some <==> any_runs(procs@, root, wanted@),
        r matches Some(i) ==> runs_under(procs@, root, wanted@, i as int),
{
    let total = procs.len();
    let mut k: usize = 0;
    while k < among.len()
        invariant
            0 <= k <= among@.len(),
            total == procs@.len(),
            forall|a: int|
                0 <= a < among@.len() ==> #[trigger] among@[a] < procs@.len() && descends(
                    procs@,
                    root,
                    among@[a] as int,
                ),
            forall|a: int|
                0 <= a < k ==> !runs(procs@[(#[trigger] among@[a]) as int].comm@, wanted@),
        decreases among@.len() - k,
    {
        let i = among[k];
        if command_matches(procs[i].comm.as_str(), wanted) {
            assert(runs_under(procs@, root, wanted@, i as int));
            return Some(i);
        }
        k += 1;
    }
    proof {
        assert forall|i: int| !runs_under(procs@, root, wanted@, i) by {
            if runs_under(procs@, root, wanted@, i) {
                let a = choose|a: int| 0 <= a < among@.len() && among@[a] == i as usize;
                assert(among@[a] == i);
            }
        }
    }
    None
}

/// Whether a process identifier is that of a process that descends from `root` and runs the
/// given program; none where there is no such process.
pub open spec fn running_pid(
    procs: Seq<ProcInfo>,
    root: u32,
    wanted: Seq<char>,
    pid: Option<u32>,
) -> bool {
    match pid {
        Some(p) => exists|i: int| #[trigger] runs_under(procs, root, wanted, i) && procs[i].pid == p,
        None => !any_runs(procs, root, wanted),
    }
}

/// A process that descends from `root` and runs the given program.
pub fn find_descendant_command(root: u32, procs: &Vec<ProcInfo>, command: &str) -> (r: Option<u32>)
    ensures
        running_pid(procs@, root, command@, r),
{
    let among = descendants_of(root, procs);
    match find_running(procs, root, &among, command) {
        Some(i) => Some(procs[i].pid),
        None => None,
    }
}

/// How telling a program is of what a terminal is used for, the most telling first; nothing
/// where it tells nothing.
pub open spec fn rank(comm: Seq<char>) -> Option<int> {
    if runs(comm, "nvim"@) {
        Some(0)
    } else if runs(comm, "pi"@) {
        Some(1)
    } else if runs(comm, "ssh"@) {
        Some(2)
    } else if runs(comm, "zsh"@) {
        Some(3)
    } else if runs(comm, "bash"@) {
        Some(4)
    } else if runs(comm, "fish"@) {
        Some(5)
    } else {
        None
    }
}

/// How telling a program is of what a terminal is used for.
fn rank_of(comm: &str) -> (r: Option<u8>)
    ensures
        match r {
            Some(n) => rank(comm@) == Some(n as int),
            None => rank(comm@) is None,
        },
{
    if command_matches(comm, "nvim") {
        Some(0)
    } else if command_matches(comm, "pi") {
        Some(1)
    } else if command_matches(comm, "ssh") {
        Some(2)
    } else if command_matches(comm, "zsh") {
        Some(3)
    } else if command_matches(comm, "bash") {
        Some(4)
    } else if command_matches(comm, "fish") {
        Some(5)
    } else {
        None
    }
}

/// How telling the process is that stands at place `k` of a list of processes; nothing where
/// there is none.
pub open spec fn rank_at(procs: Seq<ProcInfo>, list: Seq<usize>, k: int) -> Option<int> {
    if 0 <= k < list.len() && list[k] < procs.len() {
        rank(procs[list[k] as int].comm@)
    } else {
        None
    }
}

/// Whether the process at place `k` of a list is in front: none in the list is more telling,
/// and none that is as telling stands before it.
pub open spec fn in_front(procs: Seq<ProcInfo>, list: Seq<usize>, k: int) -> bool {
    &&& rank_at(procs, list, k) is Some
    &&& forall|j: int|
        (#[trigger] rank_at(procs, list, j)) is Some ==> {
            &&& rank_at(procs, list, k)->0 <= rank_at(procs, list, j)->0
            &&& rank_at(procs, list, k)->0 == rank_at(procs, list, j)->0 ==> k <= j
        }
}

/// Whether `choice` is the place of a process that descends from `root`, tells something, and
/// no such process tells more; none where no such process tells anything.
pub open spec fn direct_choice(procs: Seq<ProcInfo>, root: u32, choice: Option<int>) -> bool {
    match choice {
        Some(i) => {
            &&& 0 <= i < procs.len()
            &&& descends(procs, root, i)
            &&& rank(procs[i].comm@) is Some
            &&& forall|j: int| #[trigger]
                descends(procs, root, j) && rank(procs[j].comm@) is Some ==> rank(
                    procs[i].comm@,
                )->0 <= rank(procs[j].comm@)->0
        },
        None => forall|j: int| #[trigger]
            descends(procs, root, j) ==> rank(procs[j].comm@) is None,
    }
}

/// What an optional place is.
pub open spec fn opt_place(i: Option<usize>) -> Option<int> {
    match i {
        Some(i) => Some(i as int),
        None => None,
    }
}

/// The process in front of a terminal without tmux, where `descendants` are the places of the
/// processes that run in the terminal: the earliest of the most telling ones.
pub fn direct_terminal_app(procs: &Vec<ProcInfo>, descendants: &Vec<usize>) -> (r: Option<usize>)
    ensures
        match r {
            Some(i) => i < procs@.len() && exists|k: int| #[trigger]
                in_front(procs@, descendants@, k) && descendants@[k] == i,
            None => forall|k: int| (#[trigger] rank_at(procs@, descendants@, k)) is None,
        },
{
    let mut best: Option<(usize, u8)> = None;
    let ghost mut at: int = 0;
    let mut k: usize = 0;
    while k < descendants.len()
        invariant
            0 <= k <= descendants@.len(),
            match best {
                Some((i, n)) => {
                    &&& 0 <= at < k
                    &&& descendants@[at] == i
                    &&& i < procs@.len()
                    &&& rank_at(procs@, descendants@, at) == Some(n as int)
                    &&& forall|j: int|
                        j < k && (#[trigger] rank_at(procs@, descendants@, j)) is Some ==> {
                            &&& n <= rank_at(procs@, descendants@, j)->0
                            &&& n == rank_at(procs@, descendants@, j)->0 ==> at <= j
                        }
                },
                None => forall|j: int|
                    j < k ==> (#[trigger] rank_at(procs@, descendants@, j)) is None,
            },
        decreases descendants@.len() - k,
    {
        let i = descendants[k];
        if i < procs.len() {
            if let Some(n) = rank_of(procs[i].comm.as_str()) {
                assert(rank_at(procs@, descendants@, k as int) == Some(n as int));
                let better = match best {
                    Some((_, m)) => n < m,
                    None => true,
                };
                if better {
                    best = Some((i, n));
                    proof {
                        at = k as int;
                    }
                }
            }
        }
        k += 1;
    }
    match best {
        Some((i, _)) => {
            assert(in_front(procs@, descendants@, at));
            Some(i)
        },
        None => None,
    }
}

/// The place of the process with the given identifier, or the number of processes.
pub open spec fn proc_place(procs: Seq<ProcInfo>, pid: u32) -> nat
    decreases procs.len(),
{
    if procs.len() == 0 || procs[0].pid == pid {
        0
    } else {
        1 + proc_place(procs.drop_first(), pid)
    }
}

/// The place of the process with the given identifier, or the number of processes.
fn find_proc(procs: &Vec<ProcInfo>, pid: u32) -> (r: usize)
    ensures
        r == proc_place(procs@, pid),
        r <= procs@.len(),
{
    let mut i: usize = 0;
    assert(procs@.skip(0) =~= procs@);
    while i < procs.len()
        invariant
            0 <= i <= procs@.len(),
            proc_place(procs@, pid) == i + proc_place(procs@.skip(i as int), pid),
        decreases procs@.len() - i,
    {
        assert(procs@.skip(i as int)[0] == procs@[i as int]);
        if procs[i].pid == pid {
            return i;
        }
        assert(procs@.skip(i as int).drop_first() =~= procs@.skip(i + 1));
        i += 1;
    }
    i
}

/// How many generations a search for an ancestor goes back.
pub const MAX_GENERATIONS: usize = 128;

/// Whether `ancestor` is `pid` or one of its ancestors, `n` processes being looked at.
pub open spec fn ancestor_within(procs: Seq<ProcInfo>, ancestor: u32, pid: u32, n: nat) -> bool
    decreases n,
{
    if n == 0 {
        false
    } else if pid == ancestor {
        true
    } else {
        let i = proc_place(procs, pid) as int;
        i < procs.len() && procs[i].ppid != 0 && procs[i].ppid != pid && ancestor_within(
            procs,
            ancestor,
            procs[i].ppid,
            (n - 1) as nat,
        )
    }
}

/// Whether `ancestor` is `pid` or one of its near ancestors.
pub fn is_ancestor(ancestor: u32, pid: u32, procs: &Vec<ProcInfo>) -> (r: bool)
    ensures
        r == ancestor_within(procs@, ancestor, pid, MAX_GENERATIONS as nat),
{
    let mut current: u32 = pid;
    let mut left: usize = MAX_GENERATIONS;
    while left > 0
        invariant
            ancestor_within(procs@, ancestor, pid, MAX_GENERATIONS as nat) == ancestor_within(
                procs@,
                ancestor,
                current,
                left as nat,
            ),
        decreases left,
    {
        if current == ancestor {
            return true;
        }
        let i = find_proc(procs, current);
        if i == procs.len() {
            return false;
        }
        let parent = procs[i].ppid;
        if parent == 0 || parent == current {
            return false;
        }
        current = parent;
        left -= 1;
    }
    false
}

// ---------------------------------------------------------------------------
// tmux
// ---------------------------------------------------------------------------

/// The pane that a line of tmux's list of clients describes.
pub open spec fn pane_of(line: Seq<char>) -> Option<TmuxPaneView> {
    let f = scan::pieces(line, '\t');
    if f.len() < 10 {
        None
    } else {
        Some(
            TmuxPaneView {
                client_pid: text::decimal_u32(f[0]),
                client_tty: f[1],
                session: f[2],
                window: f[3],
                pane_index: f[4],
                pane_id: f[5],
                pane_pid: text::decimal_u32(f[6]),
                pane_command: f[7],
                pane_path: f[8],
                pane_title: f[9],
            },
        )
    }
}

/// The pane that a line of tmux's list of clients describes.
pub fn parse_tmux_client(line: &str) -> (r: Option<TmuxPaneState>)
    ensures
        opt_pane(r) == pane_of(line@),
{
    let fields = scan::split(line, '\t');
    let ghost f = scan::pieces(line@, '\t');
    if fields.len() < 10 {
        return None;
    }
    assert forall|i: int| 0 <= i < 10 implies (#[trigger] fields@[i])@ == f[i] by {
        assert(text::texts(fields@)[i] == fields@[i]@);
    }
    Some(
        TmuxPaneState {
            client_pid: text::parse_u32(fields[0].as_str()),
            client_tty: fields[1].clone(),
            session: fields[2].clone(),
            window: fields[3].clone(),
            pane_index: fields[4].clone(),
            pane_id: fields[5].clone(),
            pane_pid: text::parse_u32(fields[6].as_str()),
            pane_command: fields[7].clone(),
            pane_path: fields[8].clone(),
            pane_title: fields[9].clone(),
        },
    )
}

/// The panes that the first `n` lines describe.
pub open spec fn panes_of(lines: Seq<Seq<char>>, n: int) -> Seq<TmuxPaneView>
    decreases n,
{
    if n <= 0 {
        Seq::empty()
    } else {
        match pane_of(lines[n - 1]) {
            Some(p) => panes_of(lines, n - 1).push(p),
            None => panes_of(lines, n - 1),
        }
    }
}

/// The panes that tmux's list of clients describes.
pub fn parse_tmux_clients(list: &str) -> (r: Vec<TmuxPaneState>)
    ensures
        panes(r@) == panes_of(scan::lines_of(list@), scan::lines_of(list@).len() as int),
{
    let lines = scan::lines(list);
    let ghost all = scan::lines_of(list@);
    let mut out: Vec<TmuxPaneState> = Vec::new();
    let mut i: usize = 0;
    assert(panes(out@) =~= Seq::<TmuxPaneView>::empty());
    while i < lines.len()
        invariant
            0 <= i <= lines@.len(),
            text::texts(lines@) == all,
            panes(out@) == panes_of(all, i as int),
        decreases lines@.len() - i,
    {
        assert(all[i as int] == lines@[i as int]@);
        let ghost before = panes(out@);
        if let Some(p) = parse_tmux_client(lines[i].as_str()) {
            out.push(p);
            assert(panes(out@) =~= before.push(p@));
        }
        i += 1;
    }
    out
}

/// Whether a tmux client belongs to the terminal `root`.
pub open spec fn client_of(procs: Seq<ProcInfo>, root: u32, client: TmuxPaneView) -> bool {
    match client.client_pid {
        Some(pid) => (exists|i: int|
            0 <= i < procs.len() && (#[trigger] procs[i]).pid == pid && descends(procs, root, i))
            || ancestor_within(procs, root, pid, MAX_GENERATIONS as nat),
        None => false,
    }
}

/// The tmux client that belongs to the terminal `root`, among the first `n`: the one with
/// the highest process identifier, and of several with the same the last.
pub open spec fn best_client(
    procs: Seq<ProcInfo>,
    root: u32,
    clients: Seq<TmuxPaneView>,
    n: int,
) -> Option<int>
    decreases n,
{
    if n <= 0 {
        None
    } else {
        let before = best_client(procs, root, clients, n - 1);
        if client_of(procs, root, clients[n - 1]) && (before is None
            || clients[before->0].client_pid->0 <= clients[n - 1].client_pid->0) {
            Some(n - 1)
        } else {
            before
        }
    }
}

/// Whether a tmux client belongs to the terminal `root`, whose descendants are `among`.
fn is_client_of(procs: &Vec<ProcInfo>, root: u32, among: &Vec<usize>, client: &TmuxPaneState) -> (r:
    bool)
    requires
        forall|a: int| 0 <= a < among@.len() ==> #[trigger] among@[a] < procs@.len() && descends(
            procs@,
            root,
            among@[a] as int,
        ),
        forall|i: int| #[trigger] descends(procs@, root, i) ==> among@.contains(i as usize),
    ensures
        r == client_of(procs@, root, client@),
{
    let pid = match client.client_pid {
        Some(pid) => pid,
        None => return false,
    };
    let total = procs.len();
    let mut k: usize = 0;
    while k < among.len()
        invariant
            0 <= k <= among@.len(),
            total == procs@.len(),
            client.client_pid == Some(pid),
            forall|a: int|
                0 <= a < among@.len() ==> #[trigger] among@[a] < procs@.len() && descends(
                    procs@,
                    root,
                    among@[a] as int,
                ),
            forall|a: int| 0 <= a < k ==> procs@[(#[trigger] among@[a]) as int].pid != pid,
        decreases among@.len() - k,
    {
        let i = among[k];
        if procs[i].pid == pid {
            assert(procs@[i as int].pid == pid && descends(procs@, root, i as int));
            return true;
        }
        k += 1;
    }
    proof {
        assert forall|i: int|
            0 <= i < procs@.len() && (#[trigger] procs@[i]).pid == pid implies !descends(
            procs@,
            root,
            i,
        ) by {
            if descends(procs@, root, i) {
                let a = choose|a: int| 0 <= a < among@.len() && among@[a] == i as usize;
                assert(among@[a] == i);
            }
        }
    }
    is_ancestor(root, pid, procs)
}

/// The tmux client that belongs to the terminal `root`.
pub fn focused_tmux_pane(root: u32, procs: &Vec<ProcInfo>, clients: &Vec<TmuxPaneState>) -> (r:
    Option<usize>)
    ensures
        opt_place(r) == best_client(procs@, root, panes(clients@), clients@.len() as int),
        r matches Some(i) ==> i < clients@.len(),
{
    let among = descendants_of(root, procs);
    let ghost all = panes(clients@);
    let mut best: Option<usize> = None;
    let mut i: usize = 0;
    while i < clients.len()
        invariant
            0 <= i <= clients@.len(),
            all == panes(clients@),
            best matches Some(b) ==> b < i && client_of(procs@, root, all[b as int]),
            opt_place(best) == best_client(procs@, root, all, i as int),
            forall|a: int|
                0 <= a < among@.len() ==> #[trigger] among@[a] < procs@.len() && descends(
                    procs@,
                    root,
                    among@[a] as int,
                ),
            forall|i: int| #[trigger] descends(procs@, root, i) ==> among@.contains(i as usize),
        decreases clients@.len() - i,
    {
        assert(all[i as int] == clients@[i as int]@);
        if is_client_of(procs, root, &among, &clients[i]) {
            match best {
                None => {
                    best = Some(i);
                },
                Some(b) => {
                    assert(all[b as int] == clients@[b as int]@);
                    match (clients[b].client_pid, clients[i].client_pid) {
                        (Some(old_pid), Some(new_pid)) => {
                            if old_pid <= new_pid {
                                best = Some(i);
                            }
                        },
                        _ => {},
                    }
                },
            }
        }
        i += 1;
    }
    best
}

// ---------------------------------------------------------------------------
// The state of the terminal
// ---------------------------------------------------------------------------

/// A Ghostty terminal of which nothing more is known.
pub open spec fn bare_ghostty() -> TerminalView {
    TerminalView { available: true, terminal: "ghostty"@, ..no_terminal() }
}

/// What has to be found out next.
#[derive(Debug)]
pub enum Inquiry {
    /// Nothing: this is the state.
    Done(TerminalState),
    /// How many windows the terminal has.
    Windows { root_pid: u32 },
    /// Which processes and tmux clients there are.
    Processes { root_pid: u32, window_count: usize },
}

/// Whether a Ghostty terminal is focused, by the class that was reported or by that of the
/// active window.
pub open spec fn ghostty_focused(focused_class: Seq<char>, active: Option<ActiveWindowInfo>) -> bool {
    ghostty(focused_class) || ghostty(
        match active {
            Some(w) => w.class@,
            None => Seq::empty(),
        },
    )
}

/// What the focused window says, or what has to be found out next.
pub fn inspect_focus(focused_class: &str, active: Option<ActiveWindowInfo>) -> (r: Inquiry)
    ensures
        ({
            if !ghostty_focused(focused_class@, active) {
                r matches Inquiry::Done(s) && s@ == no_terminal()
            } else {
                match active {
                    None => r matches Inquiry::Done(s) && s@ == bare_ghostty(),
                    Some(w) => r == Inquiry::Windows { root_pid: w.pid },
                }
            }
        }),
{
    let active_is = match &active {
        Some(w) => is_ghostty_class(w.class.as_str()),
        None => is_ghostty_class(""),
    };
    assert(""@ =~= Seq::<char>::empty()) by {
        reveal_strlit("");
    }
    if !is_ghostty_class(focused_class) && !active_is {
        return Inquiry::Done(TerminalState::default());
    }
    match active {
        None => {
            let mut s = TerminalState::default();
            s.available = true;
            s.terminal = "ghostty".to_string();
            Inquiry::Done(s)
        },
        Some(w) => Inquiry::Windows { root_pid: w.pid },
    }
}

/// The state of a terminal whose process has several windows.
pub open spec fn ambiguous_state(root: u32, count: usize) -> TerminalView {
    TerminalView {
        root_pid: Some(root),
        ghostty_pid_window_count: count,
        ambiguous: true,
        ..bare_ghostty()
    }
}

/// What the number of windows says: with several windows of one process it is not known
/// which of them is focused. One window is taken for granted where the number is unknown.
pub fn inspect_windows(root_pid: u32, count: Option<usize>) -> (r: Inquiry)
    ensures
        ({
            let n = count.unwrap_or(1);
            if n > 1 {
                r matches Inquiry::Done(s) && s@ == ambiguous_state(root_pid, n)
            } else {
                r == Inquiry::Processes { root_pid, window_count: n }
            }
        }),
{
    let n: usize = match count {
        Some(n) => n,
        None => 1,
    };
    if n > 1 {
        let mut s = TerminalState::default();
        s.available = true;
        s.terminal = "ghostty".to_string();
        s.root_pid = Some(root_pid);
        s.ghostty_pid_window_count = n;
        s.ambiguous = true;
        return Inquiry::Done(s);
    }
    Inquiry::Processes { root_pid, window_count: n }
}

/// The program in front of a tmux pane, where Neovim may run below the pane's shell.
pub open spec fn pane_app(nvim_pid: Option<u32>, command: Seq<char>) -> TerminalApp {
    if nvim_pid is Some {
        TerminalApp::Nvim
    } else {
        app_of(command)
    }
}

/// The state of a terminal with tmux in front, where `nvim_pid` runs below the pane.
pub open spec fn tmux_state(root: u32, count: usize, pane: TmuxPaneView, nvim_pid: Option<u32>) -> TerminalView {
    let app = pane_app(nvim_pid, pane.pane_command);
    TerminalView {
        kind: TerminalKind::Tmux,
        root_pid: Some(root),
        command: pane.pane_command,
        cwd: pane.pane_path,
        app,
        app_pid: if app == TerminalApp::Nvim && nvim_pid is Some {
            nvim_pid
        } else {
            pane.pane_pid
        },
        nvim_pid,
        tmux: Some(pane),
        ghostty_pid_window_count: count,
        ..bare_ghostty()
    }
}

/// The state of a terminal without tmux, where the process at `choice` is in front.
pub open spec fn direct_state(
    root: u32,
    count: usize,
    procs: Seq<ProcInfo>,
    choice: Option<int>,
) -> TerminalView {
    let plain = TerminalView {
        kind: TerminalKind::Direct,
        root_pid: Some(root),
        ghostty_pid_window_count: count,
        ..bare_ghostty()
    };
    match choice {
        Some(i) => TerminalView {
            command: procs[i].comm@,
            cwd: procs[i].cwd@,
            app: app_of(procs[i].comm@),
            app_pid: Some(procs[i].pid),
            nvim_pid: if app_of(procs[i].comm@) == TerminalApp::Nvim {
                Some(procs[i].pid)
            } else {
                None
            },
            ..plain
        },
        None => plain,
    }
}

/// Whether `state` is what processes and tmux clients say of the terminal `root`. Which of
/// several processes that run the same program is taken is left open.
pub open spec fn process_state(
    root: u32,
    count: usize,
    procs: Seq<ProcInfo>,
    clients: Seq<TmuxPaneView>,
    state: TerminalView,
) -> bool {
    match best_client(procs, root, clients, clients.len() as int) {
        Some(c) => exists|nvim_pid: Option<u32>|
            state == #[trigger] tmux_state(root, count, clients[c], nvim_pid)
                && match clients[c].pane_pid {
                Some(pane) => running_pid(procs, pane, "nvim"@, nvim_pid),
                None => nvim_pid is None,
            },
        None => exists|choice: Option<int>|
            state == #[trigger] direct_state(root, count, procs, choice) && direct_choice(
                procs,
                root,
                choice,
            ),
    }
}

/// The earliest of the most telling descendants is one of the most telling descendants.
proof fn lemma_direct_choice(
    procs: Seq<ProcInfo>,
    root: u32,
    among: Seq<usize>,
    choice: Option<usize>,
)
    requires
        procs.len() <= usize::MAX,
        forall|a: int| 0 <= a < among.len() ==> #[trigger] among[a] < procs.len() && descends(
            procs,
            root,
            among[a] as int,
        ),
        forall|i: int| #[trigger] descends(procs, root, i) ==> among.contains(i as usize),
        match choice {
            Some(i) => i < procs.len() && exists|k: int| #[trigger]
                in_front(procs, among, k) && among[k] == i,
            None => forall|k: int| (#[trigger] rank_at(procs, among, k)) is None,
        },
    ensures
        direct_choice(procs, root, opt_place(choice)),
{
    assert forall|j: int| #[trigger] descends(procs, root, j) implies exists|a: int|
        0 <= a < among.len() && #[trigger] rank_at(procs, among, a) == rank(procs[j].comm@) by {
        let a = choose|a: int| 0 <= a < among.len() && among[a] == j as usize;
        assert(among[a] == j);
        assert(rank_at(procs, among, a) == rank(procs[j].comm@));
    }
    if let Some(i) = choice {
        let k = choose|k: int| #[trigger] in_front(procs, among, k) && among[k] == i;
        assert(rank_at(procs, among, k) == rank(procs[i as int].comm@));
        assert(descends(procs, root, among[k] as int));
    }
}

/// What processes and tmux clients say of the terminal `root`.
pub fn inspect_processes(
    root: u32,
    count: usize,
    procs: &Vec<ProcInfo>,
    clients: &Vec<TmuxPaneState>,
) -> (r: TerminalState)
    ensures
        process_state(root, count, procs@, panes(clients@), r@),
{
    let mut s = TerminalState::default();
    s.available = true;
    s.terminal = "ghostty".to_string();
    s.root_pid = Some(root);
    s.ghostty_pid_window_count = count;
    match focused_tmux_pane(root, procs, clients) {
        Some(c) => {
            let tmux = clients[c].copy();
            assert(panes(clients@)[c as int] == tmux@);
            let pane_pid = tmux.pane_pid;
            let nvim_pid = match pane_pid {
                Some(pid) => find_descendant_command(pid, procs, "nvim"),
                None => None,
            };
            let app = if nvim_pid.is_some() {
                TerminalApp::Nvim
            } else {
                classify_command(tmux.pane_command.as_str())
            };
            s.kind = TerminalKind::Tmux;
            s.app_pid = match nvim_pid {
                Some(pid) => Some(pid),
                None => pane_pid,
            };
            s.command = tmux.pane_command.clone();
            s.cwd = tmux.pane_path.clone();
            s.app = app;
            s.nvim_pid = nvim_pid;
            s.tmux = Some(tmux);
            assert(s@ == tmux_state(root, count, tmux@, nvim_pid));
            s
        },
        None => {
            s.kind = TerminalKind::Direct;
            let among = descendants_of(root, procs);
            let total = procs.len();
            let choice = direct_terminal_app(procs, &among);
            proof {
                assert(procs@.len() == total);
                lemma_direct_choice(procs@, root, among@, choice);
            }
            if let Some(i) = choice {
                s.command = procs[i].comm.clone();
                s.cwd = procs[i].cwd.clone();
                let app = classify_command(procs[i].comm.as_str());
                s.app = app;
                s.app_pid = Some(procs[i].pid);
                if app == TerminalApp::Nvim {
                    s.nvim_pid = Some(procs[i].pid);
                }
            }
            assert(s@ == direct_state(root, count, procs@, opt_place(choice)));
            s
        },
    }
}

/// Whether `state` is what is known of the focused terminal: the active window, the number of
/// its process's windows, the processes and the tmux clients are looked at in turn.
pub open spec fn refreshed(
    focused_class: Seq<char>,
    active: Option<ActiveWindowInfo>,
    windows: Option<usize>,
    procs: Seq<ProcInfo>,
    clients: Seq<TmuxPaneView>,
    state: TerminalView,
) -> bool {
    if !ghostty_focused(focused_class, active) {
        state == no_terminal()
    } else if active is None {
        state == bare_ghostty()
    } else if windows.unwrap_or(1) > 1 {
        state == ambiguous_state(active->0.pid, windows->0)
    } else {
        process_state(active->0.pid, windows.unwrap_or(1), procs, clients, state)
    }
}

/// The one who asks for the state of the focused terminal.
#[derive(Clone, Copy, Debug, PartialEq, Eq, Structural)]
pub struct TerminalContextClient;

impl TerminalContextClient {
    /// One who asks for the state of the focused terminal.
    pub fn new() -> (r: TerminalContextClient)
        ensures
            r == TerminalContextClient,
    {
        TerminalContextClient
    }

    /// The state of the focused terminal, where all that may have to be found out for it is
    /// at hand.
    pub fn refresh(
        &self,
        focused_class: &str,
        active: Option<ActiveWindowInfo>,
        windows: Option<usize>,
        procs: &Vec<ProcInfo>,
        clients: &Vec<TmuxPaneState>,
    ) -> (r: TerminalState)
        ensures
            refreshed(focused_class@, active, windows, procs@, panes(clients@), r@),
    {
        match inspect_focus(focused_class, active) {
            Inquiry::Windows { root_pid } => match inspect_windows(root_pid, windows) {
                Inquiry::Processes { root_pid, window_count } => inspect_processes(
                    root_pid,
                    window_count,
                    procs,
                    clients,
                ),
                Inquiry::Done(s) => s,
                Inquiry::Windows { .. } => TerminalState::default(),
            },
            Inquiry::Done(s) => s,
            Inquiry::Processes { .. } => TerminalState::default(),
        }
    }
}

/// Of every state of the terminal it holds that it is available exactly where a Ghostty
/// terminal is focused, and blank otherwise; that it is ambiguous exactly where the process
/// has several windows; that it has a tmux pane exactly where tmux is in front, and a root
/// process unless its kind is unknown; and that a Neovim process is known only where that
/// process is in front.
pub proof fn law_terminal_state(
    focused_class: Seq<char>,
    active: Option<ActiveWindowInfo>,
    windows: Option<usize>,
    procs: Seq<ProcInfo>,
    clients: Seq<TmuxPaneView>,
    state: TerminalView,
)
    requires
        refreshed(focused_class, active, windows, procs, clients, state),
    ensures
        state.available == ghostty_focused(focused_class, active),
        !state.available ==> state == no_terminal(),
        state.ambiguous == (state.ghostty_pid_window_count > 1),
        state.tmux is Some <==> state.kind == TerminalKind::Tmux,
        state.kind != TerminalKind::Unknown ==> state.root_pid is Some,
        state.nvim_pid is Some ==> state.app == TerminalApp::Nvim && state.app_pid
            == state.nvim_pid,
{
}

} // verus!

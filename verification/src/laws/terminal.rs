//! Which program is in front in the focused terminal.
use crate::scan;
use crate::terminal;
use crate::terminal::{
    ActiveWindowInfo, HyprlandWindowInfo, ProcInfo, TerminalApp, TerminalKind, TerminalView,
    TmuxPaneView,
};
use crate::text;
use vstd::prelude::*;

verus! {

/// A command runs a program where it is its name, or a path that ends in it.
pub proof fn law_command_runs_a_program(dir: Seq<char>, comm: Seq<char>, name: Seq<char>)
    ensures
        terminal::runs(name, name),
        terminal::runs(dir + "/"@ + name, name),
        terminal::runs(comm, name) <==> comm == name || ("/"@ + name).is_suffix_of(comm),
{
    let path = dir + "/"@ + name;
    let tail = "/"@ + name;
    assert(path.skip(path.len() - tail.len()) =~= tail);
}

/// The program that a command names is told by the last part of its path.
proof fn lemma_named(comm: Seq<char>, name: Seq<char>)
    requires
        terminal::runs(comm, name),
        forall|i: int| 0 <= i < name.len() ==> name[i] != '/',
    ensures
        scan::last_piece(comm, '/') == name,
{
    reveal_strlit("/");
    if comm == name {
        scan::lemma_last_piece(comm, '/', 0);
        assert(comm.skip(0) =~= name);
    } else {
        let tail = "/"@ + name;
        let n = comm.len() - name.len();
        assert(comm.skip(comm.len() - tail.len()) =~= tail);
        assert forall|i: int| n <= i < comm.len() implies comm[i] != '/' by {
            assert(comm[i] == comm.skip(comm.len() - tail.len())[i - (comm.len() - tail.len())]);
            assert(tail[i - n + 1] == name[i - n]);
        }
        assert(comm[n - 1] == comm.skip(comm.len() - tail.len())[0]);
        scan::lemma_last_piece(comm, '/', n as int);
        assert(comm.skip(n as int) =~= name) by {
            assert forall|i: int| 0 <= i < name.len() implies comm.skip(n as int)[i] == name[i] by {
                assert(comm.skip(comm.len() - tail.len())[i + 1] == tail[i + 1]);
            }
        }
    }
}

/// Commands are classified by the program that they run: Neovim and Vim, the agent, ssh, the
/// shells.
pub proof fn law_commands_are_classified(comm: Seq<char>)
    ensures
        terminal::runs(comm, "nvim"@) ==> terminal::app_of(comm) == TerminalApp::Nvim,
        terminal::runs(comm, "vim"@) ==> terminal::app_of(comm) == TerminalApp::Nvim,
        terminal::runs(comm, "pi"@) ==> terminal::app_of(comm) == TerminalApp::Pi,
        terminal::runs(comm, "ssh"@) ==> terminal::app_of(comm) == TerminalApp::Ssh,
        terminal::runs(comm, "zsh"@) ==> terminal::app_of(comm) == TerminalApp::Shell,
        terminal::runs(comm, "bash"@) ==> terminal::app_of(comm) == TerminalApp::Shell,
        terminal::runs(comm, "fish"@) ==> terminal::app_of(comm) == TerminalApp::Shell,
        terminal::runs(comm, "sh"@) ==> terminal::app_of(comm) == TerminalApp::Shell,
{
    reveal_strlit("nvim");
    reveal_strlit("vim");
    reveal_strlit("pi");
    reveal_strlit("ssh");
    reveal_strlit("zsh");
    reveal_strlit("bash");
    reveal_strlit("fish");
    reveal_strlit("sh");
    reveal_strlit("/");
    assert("nvim"@[0] == 'n' && "bash"@[0] == 'b' && "fish"@[0] == 'f');
    assert("vim"@[0] == 'v' && "ssh"@[0] == 's' && "zsh"@[0] == 'z');
    assert("pi"@[0] == 'p' && "sh"@[0] == 's');
    lemma_only_itself("nvim"@);
    lemma_only_itself("vim"@);
    lemma_only_itself("pi"@);
    lemma_only_itself("ssh"@);
    lemma_only_itself("zsh"@);
    lemma_only_itself("bash"@);
    lemma_only_itself("fish"@);
    lemma_only_itself("sh"@);
    if terminal::runs(comm, "nvim"@) {
        lemma_named(comm, "nvim"@);
    }
    if terminal::runs(comm, "vim"@) {
        lemma_named(comm, "vim"@);
    }
    if terminal::runs(comm, "pi"@) {
        lemma_named(comm, "pi"@);
    }
    if terminal::runs(comm, "ssh"@) {
        lemma_named(comm, "ssh"@);
    }
    if terminal::runs(comm, "zsh"@) {
        lemma_named(comm, "zsh"@);
    }
    if terminal::runs(comm, "bash"@) {
        lemma_named(comm, "bash"@);
    }
    if terminal::runs(comm, "fish"@) {
        lemma_named(comm, "fish"@);
    }
    if terminal::runs(comm, "sh"@) {
        lemma_named(comm, "sh"@);
    }
}

/// A name without a slash runs nothing but the program of that name.
proof fn lemma_only_itself(name: Seq<char>)
    requires
        forall|i: int| 0 <= i < name.len() ==> name[i] != '/',
    ensures
        forall|other: Seq<char>| #[trigger] terminal::runs(name, other) <==> other == name,
{
    reveal_strlit("/");
    assert forall|other: Seq<char>| #[trigger] terminal::runs(name, other) implies other
        == name by {
        let tail = "/"@ + other;
        if tail.is_suffix_of(name) {
            assert(name.skip(name.len() - tail.len())[0] == tail[0]);
        }
    }
}

/// Whether some process that runs in the terminal runs a program.
pub open spec fn runs_in(procs: Seq<ProcInfo>, root: u32, name: Seq<char>) -> bool {
    exists|i: int|
        #![trigger procs[i]]
        0 <= i < procs.len() && terminal::descends(procs, root, i) && terminal::runs(
            procs[i].comm@,
            name,
        )
}

/// In a terminal without tmux, the program in front is the first of Neovim, the agent, ssh,
/// zsh, bash and fish that any process in the terminal runs, whatever runs beside it. What is
/// known of it is what is known of a process that runs it. Where none of them runs, no program
/// is in front.
pub proof fn law_program_in_front(
    root: u32,
    count: usize,
    procs: Seq<ProcInfo>,
    s: TerminalView,
)
    requires
        terminal::process_state(root, count, procs, Seq::empty(), s),
    ensures
        ({
            let nvim = runs_in(procs, root, "nvim"@);
            let pi = runs_in(procs, root, "pi"@);
            let ssh = runs_in(procs, root, "ssh"@);
            let zsh = runs_in(procs, root, "zsh"@);
            let bash = runs_in(procs, root, "bash"@);
            let fish = runs_in(procs, root, "fish"@);
            &&& s.kind == TerminalKind::Direct
            &&& s.tmux is None
            &&& s.root_pid == Some(root)
            &&& s.ghostty_pid_window_count == count
            &&& nvim ==> s.app == TerminalApp::Nvim && terminal::runs(s.command, "nvim"@)
                && s.nvim_pid == s.app_pid && s.app_pid is Some
            &&& !nvim ==> s.nvim_pid is None
            &&& !nvim && pi ==> s.app == TerminalApp::Pi && terminal::runs(s.command, "pi"@)
            &&& !nvim && !pi && ssh ==> s.app == TerminalApp::Ssh && terminal::runs(
                s.command,
                "ssh"@,
            )
            &&& !nvim && !pi && !ssh && zsh ==> s.app == TerminalApp::Shell && terminal::runs(
                s.command,
                "zsh"@,
            )
            &&& !nvim && !pi && !ssh && !zsh && bash ==> s.app == TerminalApp::Shell
                && terminal::runs(s.command, "bash"@)
            &&& !nvim && !pi && !ssh && !zsh && !bash && fish ==> s.app == TerminalApp::Shell
                && terminal::runs(s.command, "fish"@)
            &&& !nvim && !pi && !ssh && !zsh && !bash && !fish ==> s.app == TerminalApp::Unknown
                && s.app_pid is None && s.command.len() == 0
            &&& s.app_pid matches Some(p) ==> exists|i: int|
                0 <= i < procs.len() && terminal::descends(procs, root, i) && (#[trigger] procs[i]).pid
                    == p && procs[i].comm@ == s.command && procs[i].cwd@ == s.cwd
        }),
{
    let choice = choose|choice: Option<int>|
        s == #[trigger] terminal::direct_state(root, count, procs, choice)
            && terminal::direct_choice(procs, root, choice);
    lemma_rank(procs, root, choice);
    if let Some(i) = choice {
        law_commands_are_classified(procs[i].comm@);
        assert(procs[i].pid == s.app_pid->0);
    }
}

/// The rank of the process that is chosen, by the names of the programs.
proof fn lemma_rank(procs: Seq<ProcInfo>, root: u32, choice: Option<int>)
    requires
        terminal::direct_choice(procs, root, choice),
    ensures
        choice is None ==> !runs_in(procs, root, "nvim"@) && !runs_in(procs, root, "pi"@)
            && !runs_in(procs, root, "ssh"@) && !runs_in(procs, root, "zsh"@) && !runs_in(
            procs,
            root,
            "bash"@,
        ) && !runs_in(procs, root, "fish"@),
        choice matches Some(i) ==> {
            let c = procs[i].comm@;
            &&& 0 <= i < procs.len()
            &&& runs_in(procs, root, "nvim"@) <==> terminal::runs(c, "nvim"@)
            &&& !runs_in(procs, root, "nvim"@) ==> (runs_in(procs, root, "pi"@) <==> terminal::runs(
                c,
                "pi"@,
            ))
            &&& !runs_in(procs, root, "nvim"@) && !runs_in(procs, root, "pi"@) ==> (runs_in(
                procs,
                root,
                "ssh"@,
            ) <==> terminal::runs(c, "ssh"@))
            &&& !runs_in(procs, root, "nvim"@) && !runs_in(procs, root, "pi"@) && !runs_in(
                procs,
                root,
                "ssh"@,
            ) ==> (runs_in(procs, root, "zsh"@) <==> terminal::runs(c, "zsh"@))
            &&& !runs_in(procs, root, "nvim"@) && !runs_in(procs, root, "pi"@) && !runs_in(
                procs,
                root,
                "ssh"@,
            ) && !runs_in(procs, root, "zsh"@) ==> (runs_in(procs, root, "bash"@) <==> terminal::runs(
                c,
                "bash"@,
            ))
            &&& !runs_in(procs, root, "nvim"@) && !runs_in(procs, root, "pi"@) && !runs_in(
                procs,
                root,
                "ssh"@,
            ) && !runs_in(procs, root, "zsh"@) && !runs_in(procs, root, "bash"@) ==> terminal::runs(
                c,
                "fish"@,
            ) && runs_in(procs, root, "fish"@)
        },
{
    assert forall|j: int| #[trigger]
        terminal::descends(procs, root, j) implies 0 <= j < procs.len() by {
        let path = choose|path: Seq<int>| #[trigger]
            terminal::line_from(procs, root, path) && path.last() == j;
        assert(0 <= path[path.len() - 1] < procs.len());
    }
    if let Some(i) = choice {
        assert(procs[i] == procs[i]);
        assert(terminal::descends(procs, root, i));
    }
}

/// A process runs in a terminal where it is a child of the terminal's process, or of a process
/// that runs in it; and only then.
pub proof fn law_descendants(procs: Seq<ProcInfo>, root: u32, i: int, j: int)
    requires
        0 <= i < procs.len(),
    ensures
        procs[i].ppid == root ==> terminal::descends(procs, root, i),
        terminal::descends(procs, root, j) && procs[i].ppid == procs[j].pid ==> terminal::descends(
            procs,
            root,
            i,
        ),
        terminal::descends(procs, root, i) ==> procs[i].ppid == root || exists|k: int|
            0 <= k < procs.len() && #[trigger] terminal::descends(procs, root, k) && procs[k].pid
                == procs[i].ppid,
{
    if procs[i].ppid == root {
        terminal::lemma_child_of_root(procs, root, i);
    }
    if terminal::descends(procs, root, j) && procs[i].ppid == procs[j].pid {
        terminal::lemma_child_descends(procs, root, j, i);
    }
    if terminal::descends(procs, root, i) && procs[i].ppid != root {
        let path = choose|path: Seq<int>| #[trigger]
            terminal::line_from(procs, root, path) && path.last() == i;
        let n = path.len() - 1;
        assert(procs[path[n]].ppid == procs[path[n - 1]].pid);
        let shorter = path.drop_last();
        assert forall|k: int| 0 < k < shorter.len() implies procs[#[trigger] shorter[k]].ppid
            == procs[shorter[k - 1]].pid by {
            assert(procs[path[k]].ppid == procs[path[k - 1]].pid);
        }
        assert(terminal::line_from(procs, root, shorter));
        assert(terminal::descends(procs, root, path[n - 1]));
    }
}

/// The tmux client in front belongs to the terminal, and none that does has a higher process
/// identifier; there is one wherever a client belongs to the terminal.
pub proof fn law_tmux_client_in_front(
    procs: Seq<ProcInfo>,
    root: u32,
    clients: Seq<TmuxPaneView>,
    n: int,
)
    requires
        0 <= n <= clients.len(),
    ensures
        match terminal::best_client(procs, root, clients, n) {
            Some(c) => {
                &&& 0 <= c < n
                &&& terminal::client_of(procs, root, clients[c])
                &&& clients[c].client_pid is Some
                &&& forall|i: int|
                    0 <= i < n && terminal::client_of(procs, root, #[trigger] clients[i])
                        ==> clients[i].client_pid->0 < clients[c].client_pid->0 || (
                    clients[i].client_pid->0 == clients[c].client_pid->0 && i <= c)
            },
            None => forall|i: int|
                0 <= i < n ==> !terminal::client_of(procs, root, #[trigger] clients[i]),
        },
    decreases n,
{
    if n > 0 {
        law_tmux_client_in_front(procs, root, clients, n - 1);
    }
}

/// A client belongs to the terminal where its process runs in it, or where the terminal's
/// process is among its nearest ancestors; one without a process belongs to none.
pub proof fn law_tmux_client_of_the_terminal(
    procs: Seq<ProcInfo>,
    root: u32,
    client: TmuxPaneView,
    i: int,
)
    ensures
        client.client_pid is None ==> !terminal::client_of(procs, root, client),
        client.client_pid == Some(root) ==> terminal::client_of(procs, root, client),
        0 <= i < procs.len() && client.client_pid == Some(procs[i].pid) && terminal::descends(
            procs,
            root,
            i,
        ) ==> terminal::client_of(procs, root, client),
{
    reveal_with_fuel(terminal::ancestor_within, 2);
}

/// With tmux in front, what is known is what is known of the pane of its client; Neovim is in
/// front where it runs below the pane or is the pane's command.
pub proof fn law_tmux_pane_in_front(
    root: u32,
    count: usize,
    procs: Seq<ProcInfo>,
    clients: Seq<TmuxPaneView>,
    s: TerminalView,
)
    requires
        terminal::process_state(root, count, procs, clients, s),
        terminal::best_client(procs, root, clients, clients.len() as int) is Some,
    ensures
        ({
            let c = terminal::best_client(procs, root, clients, clients.len() as int)->0;
            let pane = clients[c];
            let nvim = pane.pane_pid is Some && runs_in(procs, pane.pane_pid->0, "nvim"@);
            &&& s.kind == TerminalKind::Tmux
            &&& s.tmux == Some(pane)
            &&& s.command == pane.pane_command
            &&& s.cwd == pane.pane_path
            &&& s.root_pid == Some(root)
            &&& nvim ==> s.app == TerminalApp::Nvim && s.nvim_pid is Some && s.app_pid == s.nvim_pid
            &&& !nvim ==> s.nvim_pid is None && s.app_pid == pane.pane_pid && s.app
                == terminal::app_of(pane.pane_command)
        }),
{
    let c = terminal::best_client(procs, root, clients, clients.len() as int)->0;
    let pane = clients[c];
    let nvim_pid = choose|nvim_pid: Option<u32>|
        s == #[trigger] terminal::tmux_state(root, count, pane, nvim_pid) && match pane.pane_pid {
            Some(p) => terminal::running_pid(procs, p, "nvim"@, nvim_pid),
            None => nvim_pid is None,
        };
    if let Some(p) = pane.pane_pid {
        if let Some(q) = nvim_pid {
            let i = choose|i: int| #[trigger]
                terminal::runs_under(procs, p, "nvim"@, i) && procs[i].pid == q;
            assert(procs[i].pid == q);
        } else if runs_in(procs, p, "nvim"@) {
            let i = choose|i: int|
                #![trigger procs[i]]
                0 <= i < procs.len() && terminal::descends(procs, p, i) && terminal::runs(
                    procs[i].comm@,
                    "nvim"@,
                );
            assert(terminal::runs_under(procs, p, "nvim"@, i));
        }
    }
}

/// The fields of tmux's line on a client, which tabs keep apart: the process of the client, its
/// terminal, the session, the window, the place and the name of the pane, its process, its
/// command, its directory and its title.
pub proof fn law_tmux_line(line: Seq<char>)
    ensures
        ({
            let f = scan::pieces(line, '\t');
            match terminal::pane_of(line) {
                Some(p) => {
                    &&& f.len() >= 10
                    &&& p.client_pid == text::decimal_u32(f[0])
                    &&& p.client_tty == f[1]
                    &&& p.session == f[2]
                    &&& p.window == f[3]
                    &&& p.pane_index == f[4]
                    &&& p.pane_id == f[5]
                    &&& p.pane_pid == text::decimal_u32(f[6])
                    &&& p.pane_command == f[7]
                    &&& p.pane_path == f[8]
                    &&& p.pane_title == f[9]
                },
                None => f.len() < 10,
            }
        }),
{
}

/// A window counts for a terminal where it has the terminal's process and a Ghostty class, its
/// own or the one that it started with.
pub proof fn law_windows_are_counted(windows: Seq<HyprlandWindowInfo>, root: u32, n: int)
    requires
        0 < n <= windows.len(),
    ensures
        ({
            let w = windows[n - 1];
            let ghostty = |c: Seq<char>| scan::occurs(text::lowercase(c), "ghostty"@);
            terminal::ghostty_count(windows, root, n) == terminal::ghostty_count(
                windows,
                root,
                n - 1,
            ) + if w.pid == root && (ghostty(w.class@) || ghostty(w.initial_class@)) {
                1int
            } else {
                0
            }
        }),
        terminal::ghostty_count(windows, root, 0) == 0,
{
}

/// What is known of the terminal by the window alone: nothing where no Ghostty terminal is
/// focused; that there is one where its process is not known; and that it is not known which
/// of its windows is focused where it has several.
pub proof fn law_terminal_by_its_windows(
    focused: Seq<char>,
    active: Option<ActiveWindowInfo>,
    windows: Option<usize>,
    procs: Seq<ProcInfo>,
    clients: Seq<TmuxPaneView>,
    s: TerminalView,
)
    requires
        terminal::refreshed(focused, active, windows, procs, clients, s),
    ensures
        ({
            let ghostty = |c: Seq<char>| scan::occurs(text::lowercase(c), "ghostty"@);
            let there = ghostty(focused) || (active is Some && ghostty(active->0.class@));
            &&& active is Some || ghostty(focused) ==> s.available == there
            &&& s.available ==> s.terminal == "ghostty"@
            &&& there && active is None ==> s.root_pid is None && s.app == TerminalApp::Unknown
            &&& there && active is Some ==> s.root_pid == Some(active->0.pid)
            &&& there && active is Some && windows is Some && windows->0 > 1 ==> s.ambiguous
                && s.ghostty_pid_window_count == windows->0 && s.app == TerminalApp::Unknown
                && s.app_pid is None && s.kind == TerminalKind::Unknown
            &&& there && active is Some && windows is None ==> !s.ambiguous
                && s.ghostty_pid_window_count == 1
        }),
{
}

} // verus!

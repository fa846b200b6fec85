use tiny_dfr::terminal;
use tiny_dfr::terminal::{
    ActiveWindowInfo, Inquiry, ProcInfo, TerminalApp, TerminalContextClient, TerminalKind,
    TmuxPaneState,
};

fn process(pid: u32, ppid: u32, comm: &str) -> ProcInfo {
    ProcInfo { pid, ppid, comm: comm.into(), cwd: format!("/cwd/{pid}") }
}

fn client(pid: &str, pane: &str, command: &str) -> TmuxPaneState {
    let line = format!("{pid}\t/dev/pts/1\tmain\t2\t0\t%3\t{pane}\t{command}\t/work\ta title");
    terminal::parse_tmux_client(&line).unwrap()
}

#[test]
fn parents_are_read_from_the_kernel_line() {
    assert_eq!(terminal::parse_ppid("12 (nvim) S 7 12 12 0"), Some(7));
    assert_eq!(terminal::parse_ppid("12 (a) b) c) R 99 1"), Some(99));
    assert_eq!(terminal::parse_ppid("12 (x) S"), None);
    assert_eq!(terminal::parse_ppid("12 x S 7"), None);
    assert_eq!(terminal::parse_ppid("12 (x) S y"), None);
}

#[test]
fn descendants_are_all_below_the_root() {
    let procs = vec![
        process(2, 1, "a"),
        process(3, 2, "b"),
        process(4, 9, "c"),
        process(5, 3, "d"),
        process(9, 5, "e"),
    ];
    let mut found: Vec<u32> = terminal::descendants_of(2, &procs)
        .iter()
        .map(|i| procs[*i].pid)
        .collect();
    found.sort();
    assert_eq!(found, vec![3, 4, 5, 9]);
    assert!(terminal::descendants_of(4, &procs).is_empty());
    let ring = vec![process(1, 2, "x"), process(2, 1, "y")];
    assert_eq!(terminal::descendants_of(1, &ring).len(), 2);
    assert_eq!(terminal::find_descendant_command(2, &procs, "e"), Some(9));
    assert_eq!(terminal::find_descendant_command(2, &procs, "a"), None);
}

#[test]
fn ancestors_are_found_within_bounds() {
    let procs: Vec<ProcInfo> = (2u32..=200).map(|p| process(p, p - 1, "x")).collect();
    assert!(terminal::is_ancestor(50, 50, &procs));
    assert!(terminal::is_ancestor(73, 200, &procs));
    assert!(!terminal::is_ancestor(72, 200, &procs));
    assert!(!terminal::is_ancestor(9, 300, &procs));
    assert!(!terminal::is_ancestor(0, 1, &vec![process(1, 0, "init")]));
}

#[test]
fn commands_are_classified() {
    assert_eq!(terminal::classify_command("nvim"), TerminalApp::Nvim);
    assert_eq!(terminal::classify_command("/usr/bin/vim"), TerminalApp::Nvim);
    assert_eq!(terminal::classify_command("pi"), TerminalApp::Pi);
    assert_eq!(terminal::classify_command("ssh"), TerminalApp::Ssh);
    assert_eq!(terminal::classify_command("/bin/sh"), TerminalApp::Shell);
    assert_eq!(terminal::classify_command("python"), TerminalApp::Unknown);
    assert!(terminal::command_matches("/usr/bin/nvim", "nvim"));
    assert!(!terminal::command_matches("gnvim", "nvim"));
    assert_eq!(TerminalApp::Shell.as_str(), "shell");
    assert_eq!(TerminalKind::Tmux.as_str(), "tmux");
}

#[test]
fn tmux_clients_are_read() {
    let list = "5\t/t\ts\tw\t1\t%1\t77\tnvim\t/p\tti\nshort\tline\nx\t/t\ts\tw\t1\t%2\t\tzsh\t/p\tti\tmore\n";
    let clients = terminal::parse_tmux_clients(list);
    assert_eq!(clients.len(), 2);
    assert_eq!(clients[0].client_pid, Some(5));
    assert_eq!(clients[0].pane_pid, Some(77));
    assert_eq!(clients[0].pane_command, "nvim");
    assert_eq!(clients[1].client_pid, None);
    assert_eq!(clients[1].pane_pid, None);
    assert_eq!(clients[1].pane_title, "ti");
}

#[test]
fn the_focused_window_is_read() {
    let w = terminal::parse_active_window(
        &br#"{"class":"com.mitchellh.Ghostty","pid":42,"title":"x"}"#.to_vec(),
    )
    .unwrap();
    assert_eq!((w.class.as_str(), w.pid), ("com.mitchellh.Ghostty", 42));
    assert!(terminal::parse_active_window(&br#"{"class":"a"}"#.to_vec()).is_none());
    assert!(terminal::parse_active_window(&br#"{"class":"a","pid":-1}"#.to_vec()).is_none());
    assert!(
        terminal::parse_active_window(&br#"{"class":"a","pid":4294967296}"#.to_vec()).is_none()
    );
    assert!(terminal::parse_active_window(&b"{}".to_vec()).is_none());
    assert!(terminal::active_window(Some("c".into()), None).is_none());
}

#[test]
fn windows_of_a_terminal_are_counted() {
    let windows = terminal::parse_windows(
        &br#"[{"class":"ghostty","pid":1},{"initialClass":"Ghostty","pid":1},
              {"class":"zen","pid":1},{"class":"ghostty","pid":2},{"class":"ghostty"}]"#
            .to_vec(),
    )
    .unwrap();
    assert_eq!(windows.len(), 4);
    assert_eq!(windows[1].initial_class, "Ghostty");
    assert_eq!(windows[1].class, "");
    assert_eq!(terminal::ghostty_windows_for_pid(&windows, 1), 2);
    assert_eq!(terminal::ghostty_windows_for_pid(&windows, 3), 0);
    assert!(terminal::parse_windows(&b"{}".to_vec()).is_none());
}

#[test]
fn the_terminal_is_inspected_step_by_step() {
    let window = |class: &str| Some(ActiveWindowInfo { class: class.into(), pid: 10 });
    assert!(matches!(
        terminal::inspect_focus("zen", window("zen")),
        Inquiry::Done(s) if !s.available && s.terminal.is_empty()
    ));
    assert!(matches!(
        terminal::inspect_focus("Ghostty", None),
        Inquiry::Done(s) if s.available && s.terminal == "ghostty" && s.root_pid.is_none()
    ));
    assert!(matches!(
        terminal::inspect_focus("", window("ghostty")),
        Inquiry::Windows { root_pid: 10 }
    ));
    assert!(matches!(
        terminal::inspect_windows(10, Some(3)),
        Inquiry::Done(s) if s.ambiguous && s.ghostty_pid_window_count == 3
    ));
    assert!(matches!(
        terminal::inspect_windows(10, None),
        Inquiry::Processes { root_pid: 10, window_count: 1 }
    ));
    assert!(matches!(
        terminal::inspect_windows(10, Some(0)),
        Inquiry::Processes { window_count: 0, .. }
    ));
}

#[test]
fn the_program_in_front_is_found() {
    let procs = vec![
        process(11, 10, "zsh"),
        process(12, 11, "ssh"),
        process(13, 12, "nvim"),
        process(20, 10, "tmux: client"),
        process(30, 1, "zsh"),
        process(31, 30, "nvim"),
    ];
    let s = terminal::inspect_processes(10, 1, &procs, &Vec::new());
    assert_eq!(s.kind, TerminalKind::Direct);
    assert_eq!(s.app, TerminalApp::Nvim);
    assert_eq!(s.app_pid, Some(13));
    assert_eq!(s.nvim_pid, Some(13));
    assert_eq!(s.cwd, "/cwd/13");

    let clients = vec![client("20", "30", "zsh"), client("19", "11", "zsh"), client("x", "1", "y")];
    let s = terminal::inspect_processes(10, 1, &procs, &clients);
    assert_eq!(s.kind, TerminalKind::Tmux);
    assert_eq!(s.app, TerminalApp::Nvim);
    assert_eq!(s.nvim_pid, Some(31));
    assert_eq!(s.app_pid, Some(31));
    assert_eq!(s.command, "zsh");
    assert_eq!(s.cwd, "/work");
    assert_eq!(s.tmux.unwrap().pane_id, "%3");

    let shells = vec![client("20", "11", "ssh")];
    let s = terminal::inspect_processes(10, 1, &procs[..2].iter().map(copy).chain([process(20, 10, "t")]).collect(), &shells);
    assert_eq!(s.app, TerminalApp::Ssh);
    assert_eq!(s.app_pid, Some(11));
    assert_eq!(s.nvim_pid, None);

    let s = terminal::inspect_processes(99, 1, &procs, &Vec::new());
    assert_eq!(s.app, TerminalApp::Unknown);
    assert_eq!(s.app_pid, None);
    assert_eq!(s.command, "");
}

fn copy(p: &ProcInfo) -> ProcInfo {
    ProcInfo { pid: p.pid, ppid: p.ppid, comm: p.comm.clone(), cwd: p.cwd.clone() }
}

#[test]
fn the_newest_client_of_a_terminal_counts() {
    let procs = vec![
        process(11, 10, "tmux: client"),
        process(12, 10, "tmux: client"),
        process(99, 1, "tmux: client"),
    ];
    let clients = vec![client("12", "1", "a"), client("11", "2", "b"), client("99", "3", "c")];
    assert_eq!(terminal::focused_tmux_pane(10, &procs, &clients), Some(0));
    assert_eq!(terminal::focused_tmux_pane(50, &procs, &clients), None);
    assert!(terminal::is_ghostty_class("com.mitchellh.Ghostty"));
    assert!(!terminal::is_ghostty_class("kitty"));
}

#[test]
fn the_earliest_of_the_most_telling_programs_is_in_front() {
    let procs = vec![
        process(11, 10, "zsh"),
        process(12, 11, "/usr/bin/nvim"),
        process(13, 11, "nvim"),
        process(14, 11, "pi"),
        process(15, 11, "make"),
    ];
    let front = |list: Vec<usize>| terminal::direct_terminal_app(&procs, &list);
    assert_eq!(front(vec![0, 3, 2, 1]), Some(2));
    assert_eq!(front(vec![0, 3, 1, 2]), Some(1));
    assert_eq!(front(vec![4, 0, 3]), Some(3));
    assert_eq!(front(vec![4, 9, 0]), Some(0));
    assert_eq!(front(vec![4, 9]), None);
    assert_eq!(front(Vec::new()), None);
}

#[test]
fn every_state_of_the_terminal_is_sound() {
    let client_of = TerminalContextClient::new();
    let window = |class: &str| Some(ActiveWindowInfo { class: class.into(), pid: 10 });
    let procs = vec![process(11, 10, "zsh"), process(12, 11, "nvim"), process(20, 10, "tmux")];
    let none = Vec::new();

    let s = client_of.refresh("kitty", window("kitty"), Some(1), &procs, &none);
    assert!(!s.available);
    assert_eq!((s.kind, s.root_pid), (TerminalKind::Unknown, None));

    let s = client_of.refresh("Ghostty", None, Some(1), &procs, &none);
    assert!(s.available && s.root_pid.is_none() && !s.ambiguous);

    let s = client_of.refresh("", window("ghostty"), Some(2), &procs, &none);
    assert!(s.available && s.ambiguous);
    assert_eq!((s.root_pid, s.ghostty_pid_window_count), (Some(10), 2));

    let s = client_of.refresh("", window("ghostty"), None, &procs, &none);
    assert_eq!((s.kind, s.ghostty_pid_window_count), (TerminalKind::Direct, 1));
    assert_eq!((s.app, s.app_pid, s.nvim_pid), (TerminalApp::Nvim, Some(12), Some(12)));

    let clients = vec![client("20", "11", "zsh")];
    let s = client_of.refresh("", window("ghostty"), Some(1), &procs, &clients);
    assert_eq!(s.kind, TerminalKind::Tmux);
    assert!(s.tmux.is_some());
    assert_eq!((s.app, s.app_pid, s.nvim_pid), (TerminalApp::Nvim, Some(12), Some(12)));
}

use tiny_dfr::app_bridge;
use tiny_dfr::app_bridge::AppBridgeState;
use tiny_dfr::bridge;
use tiny_dfr::bridge::{ActionResponse, BridgeError};
use tiny_dfr::mpris;
use tiny_dfr::mpris::{BrowserMediaTiming, MediaState, MprisClient, SeekPlan};
use tiny_dfr::number::Number;
use tiny_dfr::nvim_bridge;
use tiny_dfr::nvim_bridge::{
    NvimBridgeClient, NvimBridgeState, NvimDapState, NvimDapUiState, NvimDbConnection,
    NvimDbuiState, NvimNeotestState,
};
use tiny_dfr::pi_state::{PiAppState, PiError, PiState, PiStateClient};
use tiny_dfr::remote;
use tiny_dfr::remote::{
    RemoteClient, RemoteContext, RemoteMessage, RemoteSharedState, SendError,
};
use tiny_dfr::terminal::ProcInfo;

fn nvim(pid: u32, active: bool, updated: Option<i64>) -> NvimBridgeState {
    NvimBridgeState {
        pid,
        socket: format!("/run/nvim.{pid}"),
        cwd: None,
        mode: None,
        file: None,
        filetype: None,
        dap: NvimDapState {
            active,
            state: Some("running".into()),
            adapter: None,
            session: None,
            updated_at_ms: updated,
        },
        dapui: NvimDapUiState { available: false, visible: false },
        neotest: NvimNeotestState { available: false, summary_visible: false, updated_at_ms: None },
        dbui: NvimDbuiState {
            available: false,
            visible: false,
            in_buffer: false,
            connections: Vec::new(),
        },
    }
}

fn process(pid: u32, ppid: u32) -> ProcInfo {
    ProcInfo { pid, ppid, comm: String::new(), cwd: String::new() }
}

#[test]
fn requests_are_written_as_serde_writes_them() {
    assert_eq!(
        bridge::nvim_request("dap.pause", None),
        "{\"id\":\"tiny-dfr\",\"action\":\"dap.pause\"}\n"
    );
    assert_eq!(
        bridge::nvim_request("dbui.connect", Some("a\"b")),
        "{\"id\":\"tiny-dfr\",\"action\":\"dbui.connect\",\"db_key_name\":\"a\\\"b\"}\n"
    );
    assert_eq!(
        bridge::remote_request("x", Some("k")),
        "{\"id\":\"tiny-dfr\",\"action\":\"x\",\"db_key_name\":\"k\",\"type\":\"action\"}\n"
    );
    assert_eq!(
        bridge::app_request(app_bridge::PROTOCOL, "go", None),
        "{\"type\":\"action\",\"protocol\":\"tiny-dfr.app.v1\",\"id\":\"tiny-dfr\",\"action\":\"go\"}\n"
    );
    assert_eq!(
        bridge::app_request("p", "go", Some("{\"n\":1}")),
        "{\"type\":\"action\",\"protocol\":\"p\",\"id\":\"tiny-dfr\",\"action\":\"go\",\"params\":{\"n\":1}}\n"
    );
}

#[test]
fn replies_are_checked() {
    let reply = |ok: bool, error: Option<&str>| {
        Some(ActionResponse { ok, error: error.map(String::from) })
    };
    assert!(bridge::check_reply("{}", reply(true, None)).is_ok());
    assert!(matches!(
        bridge::check_reply(" \n", reply(true, None)),
        Err(BridgeError::Empty)
    ));
    assert!(matches!(bridge::check_reply("{}", None), Err(BridgeError::Malformed)));
    assert!(matches!(
        bridge::check_reply("{}", reply(false, Some("why"))),
        Err(BridgeError::Failed(e)) if e == "why"
    ));
    assert!(matches!(
        bridge::check_reply("{}", reply(false, None)),
        Err(BridgeError::Failed(e)) if e == "unknown error"
    ));
}

#[test]
fn the_meant_neovim_is_selected() {
    let procs = vec![process(20, 10), process(30, 20), process(40, 1)];
    let states = vec![nvim(40, false, Some(9)), nvim(30, false, Some(5)), nvim(50, true, None)];
    assert_eq!(nvim_bridge::selected_state(&states, &procs, Some(30)), Some(1));
    assert_eq!(nvim_bridge::selected_state(&states, &procs, Some(10)), Some(1));
    assert_eq!(nvim_bridge::selected_state(&states, &procs, Some(99)), None);
    assert_eq!(nvim_bridge::selected_state(&states, &procs, None), Some(2));
    let even = vec![nvim(1, false, Some(5)), nvim(2, false, Some(5)), nvim(3, false, Some(-1))];
    assert_eq!(nvim_bridge::selected_state(&even, &procs, None), Some(1));
    assert_eq!(nvim_bridge::selected_state(&Vec::new(), &procs, None), None);
}

#[test]
fn the_neovim_client_keeps_what_was_found() {
    let mut client = NvimBridgeClient::new();
    let empty = client.refresh(Vec::new(), &Vec::new(), None);
    assert!(!empty.available && empty.selected.is_none());
    assert!(matches!(
        client.target(&Vec::new(), None),
        Err(BridgeError::Unavailable)
    ));
    let snapshot = client.refresh(vec![nvim(7, false, None)], &Vec::new(), Some(8));
    assert!(snapshot.available && snapshot.selected.is_none());
    let snapshot = client.refresh(vec![nvim(7, false, None)], &Vec::new(), None);
    assert_eq!(snapshot.selected.unwrap().dap.state.as_deref(), Some("running"));
    assert_eq!(client.target(&Vec::new(), Some(7)).unwrap(), "/run/nvim.7");
}

#[test]
fn connections_are_written_as_serde_writes_them() {
    let list = vec![
        NvimDbConnection {
            name: "a\"b".into(),
            source: "s".into(),
            key_name: "k".into(),
            is_connected: true,
        },
        NvimDbConnection {
            name: "n".into(),
            source: String::new(),
            key_name: "m".into(),
            is_connected: false,
        },
    ];
    let text = nvim_bridge::write_connections(&list);
    assert_eq!(
        text,
        "[{\"name\":\"a\\\"b\",\"source\":\"s\",\"key_name\":\"k\",\"is_connected\":true},\
         {\"name\":\"n\",\"source\":\"\",\"key_name\":\"m\",\"is_connected\":false}]"
    );
    let value: serde_json::Value = serde_json::from_str(&text).unwrap();
    assert_eq!(value.pointer("/0/name").unwrap().as_str(), Some("a\"b"));
    assert_eq!(nvim_bridge::write_connections(&Vec::new()), "[]");
}

fn application(app: &str, pid: Option<u32>, cwd: Option<&str>, at: Option<i64>) -> AppBridgeState {
    AppBridgeState {
        message_type: None,
        protocol: None,
        instance_id: "i".into(),
        app: app.into(),
        pid,
        socket: Some("/s".into()),
        cwd: cwd.map(String::from),
        surface: None,
        capabilities: vec!["go".into()],
        updated_at_ms: at,
    }
}

#[test]
fn applications_speak_the_protocol() {
    let mut state = application("pi", None, None, None);
    assert!(state.is_protocol_state());
    assert!(state.is_state_of(None));
    assert!(state.is_state_of(Some("pi")));
    assert!(!state.is_state_of(Some("other")));
    assert_eq!(state.action_socket().as_deref(), Some("/s"));
    state.socket = Some(String::new());
    assert_eq!(state.action_socket(), None);
    state.message_type = Some("state".into());
    state.protocol = Some("tiny-dfr.app.v1".into());
    assert!(state.is_protocol_state());
    state.protocol = Some("tiny-dfr.app.v2".into());
    assert!(!state.is_protocol_state());
    state.protocol = None;
    state.message_type = Some("action".into());
    assert!(!state.is_protocol_state());
}

#[test]
fn the_meant_application_is_selected() {
    let procs = vec![process(20, 10)];
    let states = vec![
        application("a", Some(20), Some("/x"), Some(3)),
        application("b", None, Some("/y"), Some(9)),
        application("c", Some(30), Some("/y"), None),
    ];
    let select = |pid: Option<u32>, cwd: Option<&str>| {
        app_bridge::select_app_state(&states, &procs, pid, cwd)
    };
    assert_eq!(select(Some(30), None), Some(2));
    assert_eq!(select(Some(10), Some("/y")), Some(0));
    assert_eq!(select(Some(99), Some("/y")), Some(1));
    assert_eq!(select(None, Some("")), Some(1));
    assert_eq!(select(None, None), Some(1));
}

fn agent(pid: u32, cwd: &str, at: i64) -> PiState {
    PiState::from_app_bridge(
        application("pi", Some(pid), Some(cwd), Some(at)),
        Some(PiAppState {
            provider: None,
            model: Some(format!("m{pid}")),
            thinking: None,
            workflow_mode: None,
        }),
    )
    .unwrap()
}

#[test]
fn the_meant_agent_is_selected() {
    let mut client = PiStateClient::new();
    assert!(client.refresh(Vec::new(), None, None).is_none());
    assert!(!client.can_send_action("go", None, None));
    assert_eq!(client.target(None, None), Err(PiError::NoState));
    let found = vec![agent(1, "/a", 5), agent(2, "/b", 5), agent(3, "/a", 1)];
    let picked = client.refresh(found, Some(3), None).unwrap();
    assert_eq!(picked.model.as_deref(), Some("m3"));
    let pid_of = |client: &mut PiStateClient, pid: Option<u32>, cwd: Option<&str>| {
        let found = vec![agent(1, "/a", 5), agent(2, "/b", 5), agent(3, "/a", 1)];
        client.refresh(found, pid, cwd).unwrap().pid
    };
    assert_eq!(pid_of(&mut client, Some(9), Some("/a")), 1);
    assert_eq!(pid_of(&mut client, None, Some("/none")), 2);
    assert_eq!(pid_of(&mut client, None, Some("")), 2);
    assert!(client.can_send_action("go", None, None));
    assert!(!client.can_send_action("stop", None, None));
    assert_eq!(client.target(None, None).unwrap(), "/s");
    client.states[1].app_bridge_socket = None;
    assert_eq!(client.target(None, None), Err(PiError::NoSocket));
    assert!(PiState::from_app_bridge(application("pi", None, None, None), None).is_none());
}

fn context(id: &str, at: i64) -> RemoteContext {
    RemoteContext {
        session_id: id.into(),
        host: "h".into(),
        kind: "direct".into(),
        app: "nvim".into(),
        command: "nvim".into(),
        cwd: "/w".into(),
        updated_at_ms: at,
        nvim_pid: Some(12),
        nvim_bridge: None,
        pi_state: None,
        tmux_match_source: None,
        nvim_match_source: None,
        tmux: None,
    }
}

#[test]
fn remote_reports_replace_each_other() {
    let mut shared = RemoteSharedState::new();
    assert!(!shared.is_active());
    assert!(shared.latest_context().is_none());
    assert!(shared.update_connected_count(1));
    assert_eq!(shared.signature(), "connected=1;");
    assert!(shared.is_active());
    assert!(shared.upsert_context(context("b", 5)));
    assert!(shared.upsert_context(context("a", 7)));
    assert!(!shared.upsert_context(context("a", 8)));
    let part = |id: &str| format!("{id}|h|direct|nvim|nvim|/w|12|false||false|false|false");
    assert_eq!(
        shared.signature(),
        format!("connected=1;{};{}", part("a"), part("b"))
    );
    assert_eq!(shared.latest_context().unwrap().session_id, "a");
    let sessions = vec![None, Some("b".to_string()), Some("a".to_string())];
    assert_eq!(shared.action_target(&sessions).unwrap(), 2);
    assert!(matches!(
        shared.action_target(&vec![Some("b".to_string())]),
        Err(SendError::NotConnected(id)) if id == "a"
    ));
    assert!(shared.remove_context("a"));
    assert!(!shared.remove_context("a"));
    assert_eq!(shared.latest_context().unwrap().session_id, "b");
    assert!(shared.remove_context("b"));
    assert!(matches!(
        shared.action_target(&sessions),
        Err(SendError::NoContext)
    ));
    let mut client = RemoteClient::new();
    assert!(client.refresh(shared.signature()));
    assert!(!client.refresh(shared.signature()));
}

#[test]
fn a_signature_shows_what_neovim_does() {
    let mut with = context("s", 1);
    let mut state = nvim(1, true, None);
    state.dapui.visible = true;
    state.dbui.in_buffer = true;
    with.nvim_bridge = Some(state);
    with.nvim_pid = None;
    assert_eq!(
        remote::context_signature(&with),
        "s|h|direct|nvim|nvim|/w|0|true|running|true|false|true"
    );
}

#[test]
fn remote_lines_are_taken_and_read() {
    let mut buffer = b" {\"type\":\"hello\"} \r\nrest".to_vec();
    assert_eq!(remote::pop_line(&mut buffer).unwrap(), "{\"type\":\"hello\"}");
    assert_eq!(buffer, b"rest");
    assert_eq!(remote::pop_line(&mut buffer), None);
    assert_eq!(buffer, b"rest");
    let read = |s: &str| remote::read_line(&s.as_bytes().to_vec());
    assert!(matches!(read("{oops").message, RemoteMessage::Invalid));
    let hello = read("{\"type\":\"hello\",\"session_id\":\"s\"}");
    assert!(matches!(hello.message, RemoteMessage::Hello));
    assert_eq!(hello.session_id.as_deref(), Some("s"));
    assert!(matches!(read("{\"type\":\"context\"}").message, RemoteMessage::Context));
    assert!(matches!(
        read("{\"type\":\"action_result\",\"ok\":false}").message,
        RemoteMessage::ActionResult { failed: true }
    ));
    assert!(matches!(
        read("{\"type\":\"action_result\",\"ok\":true}").message,
        RemoteMessage::ActionResult { failed: false }
    ));
    assert!(matches!(
        read("{\"type\":\"action_result\"}").message,
        RemoteMessage::ActionResult { failed: false }
    ));
    assert!(matches!(
        read("{\"type\":\"other\"}").message,
        RemoteMessage::Unknown(k) if k == "other"
    ));
    assert!(matches!(
        read("[1]").message,
        RemoteMessage::Unknown(k) if k.is_empty()
    ));
}

fn player(name: &str, status: &str, art: &str, length: i64) -> MediaState {
    MediaState::from_properties(
        name,
        Some("/track/1".into()),
        status.into(),
        None,
        Some(art.into()),
        length,
        -5,
    )
}

#[test]
fn the_playing_player_is_chosen() {
    let players = vec![
        player("a", "Paused", "", 10),
        player("b", "Paused", "file:///x", 0),
        player("c", "Paused", "file:///x", 10),
        player("d", "Playing", "", 0),
    ];
    assert_eq!(mpris::choose_player(&players), Some(3));
    assert_eq!(mpris::choose_player(&players[..3].iter().map(copy).collect()), Some(2));
    assert_eq!(mpris::choose_player(&players[..2].iter().map(copy).collect()), None);
    assert_eq!(players[2].length_us.bits, 10.0f64.to_bits());
    assert_eq!(players[2].position_us.bits, 0);
    assert!(mpris::is_player_name("org.mpris.MediaPlayer2.vlc"));
    assert!(!mpris::is_player_name("org.mpris.MediaPlayer2"));
}

fn copy(m: &MediaState) -> MediaState {
    MediaState {
        player: m.player.clone(),
        track_id: m.track_id.clone(),
        status: m.status.clone(),
        title: m.title.clone(),
        art_url: m.art_url.clone(),
        length_us: m.length_us,
        position_us: m.position_us,
    }
}

#[test]
fn seeking_needs_a_player_and_a_track() {
    let at = |x: f64| Number { bits: x.to_bits() };
    let mut client = MprisClient::new();
    assert!(matches!(client.seek(at(1.0)), SeekPlan::Nothing));
    client.follow(Some(&player("p", "Playing", "", 1)));
    assert!(matches!(
        client.seek(at(42.9)),
        SeekPlan::Seek { player, track_id, position_us: 42 } if player == "p" && track_id == "/track/1"
    ));
    assert!(matches!(
        client.seek(at(-3.0)),
        SeekPlan::Seek { position_us: 0, .. }
    ));
    for (track, good) in [
        ("/", true),
        ("/a_1/B", true),
        ("", false),
        ("a", false),
        ("/a/", false),
        ("//a", false),
        ("/a-b", false),
        ("/é", false),
    ] {
        client.active_track_id = Some(track.into());
        assert_eq!(
            matches!(client.seek(at(1.0)), SeekPlan::Seek { .. }),
            good,
            "{track}"
        );
    }
    let mut silent = player("p", "Playing", "", 1);
    silent.track_id = String::new();
    client.follow(Some(&silent));
    assert!(matches!(client.seek(at(1.0)), SeekPlan::Nothing));
    client.follow(None);
    assert_eq!(client.active_player, None);
}

#[test]
fn a_page_completes_its_player() {
    let timing = BrowserMediaTiming {
        length_us: Number { bits: 5.0f64.to_bits() },
        position_us: Number { bits: 2.0f64.to_bits() },
    };
    let mut m = player("p", "Playing", "", 10);
    m.complete(&timing);
    assert_eq!(m.length_us.bits, 10.0f64.to_bits());
    assert_eq!(m.position_us.bits, 2.0f64.to_bits());
}

#[test]
fn signatures_forget_the_order_of_reports() {
    let forward = vec![context("a", 1), context("b", 2)];
    let backward = vec![context("b", 2), context("a", 1)];
    assert_eq!(
        remote::contexts_signature(&forward, 2),
        remote::contexts_signature(&backward, 2)
    );
    assert_ne!(
        remote::contexts_signature(&forward, 2),
        remote::contexts_signature(&forward, 3)
    );
}

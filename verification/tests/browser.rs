use tiny_dfr::browser;
use tiny_dfr::browser::{
    BidiBackend, BidiError, BidiReply, BidiTab, BrowserClient, BrowserKind, CdpBackend,
    ConnectPlan, ContextRow, DevToolsTarget, TabMetadata, TabOrder,
};
use tiny_dfr::chromium::ChromiumClient;
use tiny_dfr::widgets::browser_tabs::BrowserTab;

const MS: u64 = 1_000_000;

#[test]
fn recognizes_browser_window_classes() {
    assert_eq!(
        BrowserKind::from_window_class("chromium"),
        Some(BrowserKind::Cdp)
    );
    assert_eq!(
        BrowserKind::from_window_class("google-chrome"),
        Some(BrowserKind::Cdp)
    );
    assert_eq!(
        BrowserKind::from_window_class("zen"),
        Some(BrowserKind::Bidi)
    );
    assert_eq!(
        BrowserKind::from_window_class("zen-alpha"),
        Some(BrowserKind::Bidi)
    );
    assert_eq!(
        BrowserKind::from_window_class("firefox"),
        Some(BrowserKind::Bidi)
    );
    assert_eq!(BrowserKind::from_window_class("ghostty"), None);
}

#[test]
fn parses_bidi_string_metadata() {
    let response = r#"{
        "type": "success",
        "realm": "realm-id",
        "result": {
            "type": "string",
            "value": "{\"title\":\"Zen tab\",\"favicon_url\":\"https://example.com/icon.png\"}"
        }
    }"#;
    let text = browser::parse_bidi_string_result(&response.as_bytes().to_vec(), "").unwrap();
    let metadata: serde_json::Value = serde_json::from_str(&text).unwrap();
    assert_eq!(metadata.get("title").unwrap().as_str(), Some("Zen tab"));
    assert_eq!(
        metadata.get("favicon_url").unwrap().as_str(),
        Some("https://example.com/icon.png")
    );
}

#[test]
fn parses_bidi_media_timing() {
    let response = r#"{
        "type": "success",
        "realm": "realm-id",
        "result": {
            "type": "string",
            "value": "{\"length_us\":125000000.0,\"position_us\":42000000.0}"
        }
    }"#;
    let text = browser::parse_bidi_string_result(&response.as_bytes().to_vec(), "").unwrap();
    let timing: serde_json::Value = serde_json::from_str(&text).unwrap();
    assert_eq!(timing.get("length_us").unwrap().as_f64(), Some(125_000_000.0));
    assert_eq!(timing.get("position_us").unwrap().as_f64(), Some(42_000_000.0));
}

#[test]
fn script_failures_are_told_apart() {
    let failed = br#"{"result":{"type":"exception"}}"#.to_vec();
    assert!(matches!(
        browser::parse_bidi_string_result(&failed, "/result"),
        Err(BidiError::ScriptFailed)
    ));
    let number = br#"{"result":{"type":"success","result":{"value":7}}}"#.to_vec();
    assert!(matches!(
        browser::parse_bidi_string_result(&number, "/result"),
        Err(BidiError::NotText)
    ));
    assert_eq!(
        browser::script_text(Some("success".into()), Some("x".into())).unwrap(),
        "x"
    );
}

fn tab(id: &str) -> BrowserTab {
    BrowserTab {
        id: id.into(),
        title: format!("title {id}"),
        url: String::new(),
        favicon_url: String::new(),
        active: false,
    }
}

fn names(tabs: &Vec<BrowserTab>) -> Vec<&str> {
    tabs.iter().map(|t| t.id.as_str()).collect()
}

#[test]
fn tabs_keep_their_places() {
    let mut order = TabOrder::new();
    let shown = order.stable_order(vec![tab("a"), tab("b"), tab("c")]);
    assert_eq!(names(&shown), vec!["a", "b", "c"]);
    let shown = order.stable_order(vec![tab("c"), tab("d"), tab("a"), tab("b")]);
    assert_eq!(names(&shown), vec!["a", "b", "c", "d"]);
    let shown = order.stable_order(vec![tab("d"), tab("c"), tab("a")]);
    assert_eq!(names(&shown), vec!["a", "c", "d"]);
    let shown = order.stable_order(vec![tab("b"), tab("a")]);
    assert_eq!(names(&shown), vec!["a", "b"]);
    let mut twice = vec![tab("x"), tab("x")];
    twice[1].title = "later".into();
    let shown = order.stable_order(twice);
    assert_eq!(names(&shown), vec!["x"]);
    assert_eq!(shown[0].title, "later");
    assert_eq!(order.known, vec!["x"]);
}

#[test]
fn a_single_tab_is_in_front() {
    let mut one = vec![tab("a")];
    browser::mark_only_tab_active(&mut one);
    assert!(one[0].active);
    let mut two = vec![tab("a"), tab("b")];
    browser::mark_only_tab_active(&mut two);
    assert!(!two[0].active && !two[1].active);
    assert!(browser::titles_probably_match(" News ", "News - Chromium"));
    assert!(browser::titles_probably_match("News - Chromium", "News"));
    assert!(!browser::titles_probably_match("  ", "News"));
    assert!(!browser::titles_probably_match("News", ""));
}

fn target(id: &str, title: Option<&str>, kind: &str) -> DevToolsTarget {
    DevToolsTarget {
        id: id.into(),
        title: title.map(String::from),
        url: Some(format!("https://{id}.example/\"q\"")),
        favicon_url: None,
        target_type: kind.into(),
    }
}

#[test]
fn chromium_is_asked_now_and_then() {
    let mut cdp = CdpBackend::new(None);
    assert_eq!(cdp.list_url(), "http://127.0.0.1:9222/json/list");
    assert_eq!(
        cdp.activate_url("T1"),
        "http://127.0.0.1:9222/json/activate/T1"
    );
    assert!(cdp.begin_refresh(1000 * MS, false).is_none());
    let targets = vec![
        target("a", Some("A &amp; B"), "page"),
        target("w", None, "worker"),
        target("b", None, "page"),
    ];
    let state = cdp.finish_refresh(Some(targets), "A & B - Chromium").unwrap();
    assert!(state.available);
    assert_eq!(state.count, 2);
    assert_eq!(state.active_index, Some(0));
    assert_eq!(
        state.tabs_json,
        concat_lines(&[
            r#"[{"id":"a","title":"A & B","url":"https://a.example/\"q\"","favicon_url":"","active":true},"#,
            r#"{"id":"b","title":"","url":"https://b.example/\"q\"","favicon_url":"","active":false}]"#,
        ])
    );
    let cached = cdp.begin_refresh(1499 * MS, false).unwrap();
    assert_eq!(cached.tabs_json, state.tabs_json);
    assert!(cdp.begin_refresh(1499 * MS, true).is_none());
    assert!(cdp.begin_refresh(1999 * MS, false).is_none());
    assert!(cdp.finish_refresh(None, "").is_none());
    let failed = cdp.begin_refresh(2000 * MS, false).unwrap();
    assert!(!failed.available);
    assert_eq!(failed.tabs_json, "[]");
    let slashed = CdpBackend::new(Some("http://h:1//".into()));
    assert_eq!(slashed.list_url(), "http://h:1/json/list");
}

fn concat_lines(parts: &[&str]) -> String {
    parts.concat()
}

#[test]
fn written_tabs_are_read_back() {
    let mut tabs = vec![tab("one"), tab("two")];
    tabs[1].title = "tab\t\"quoted\" \u{1F600}".into();
    tabs[1].active = true;
    let text = browser::write_tabs(&tabs);
    let value: serde_json::Value = serde_json::from_str(&text).unwrap();
    assert_eq!(
        value.pointer("/1/title").unwrap().as_str(),
        Some("tab\t\"quoted\" \u{1F600}")
    );
    assert_eq!(value.pointer("/1/active").unwrap().as_bool(), Some(true));
    assert_eq!(value.pointer("/0/id").unwrap().as_str(), Some("one"));
    assert_eq!(browser::write_tabs(&Vec::new()), "[]");
}

#[test]
fn bidi_commands_are_written() {
    assert_eq!(
        browser::write_command(3, "session.end", "{}"),
        r#"{"id":3,"method":"session.end","params":{}}"#
    );
    assert_eq!(
        browser::write_context_params("ctx\"1"),
        r#"{"context":"ctx\"1"}"#
    );
    assert_eq!(
        browser::write_evaluate_params("c", "1+1"),
        r#"{"awaitPromise":false,"expression":"1+1","target":{"context":"c"}}"#
    );
    let params = browser::write_evaluate_params("c", browser::METADATA_SCRIPT);
    let value: serde_json::Value = serde_json::from_str(&params).unwrap();
    assert_eq!(
        value.pointer("/expression").unwrap().as_str(),
        Some(browser::METADATA_SCRIPT)
    );
    assert!(browser::MEDIA_SCRIPT.starts_with("(() => {"));
}

#[test]
fn bidi_replies_are_told_apart() {
    let read = |s: &str, id: u64| browser::read_reply(&s.as_bytes().to_vec(), id);
    assert!(matches!(read(r#"{"method":"log","params":{}}"#, 1), BidiReply::Ignore));
    assert!(matches!(read(r#"{"id":2,"result":{}}"#, 1), BidiReply::Ignore));
    for broken in ["not json", "", r#"{"id":2,"result":{}"#] {
        assert!(matches!(read(broken, 1), BidiReply::Failed(BidiError::Malformed)));
    }
    assert!(matches!(read(r#"{"id":1,"result":{}}"#, 1), BidiReply::Answer));
    assert!(matches!(
        read(r#"{"id":1}"#, 1),
        BidiReply::Failed(BidiError::NoResult)
    ));
    assert!(matches!(
        read(r#"{"id":1,"type":"error","error":"bad","message":"no"}"#, 1),
        BidiReply::Failed(BidiError::Failed { code, message }) if code == "bad" && message == "no"
    ));
    assert!(matches!(
        read(r#"{"id":1,"type":"error","result":{}}"#, 1),
        BidiReply::Failed(BidiError::Failed { code, message })
            if code == "unknown error" && message.is_empty()
    ));
}

#[test]
fn bidi_contexts_are_read() {
    let rows = browser::parse_contexts(
        &br#"{"result":{"contexts":[{"context":"a","url":"u"},{"context":"b"}]}}"#.to_vec(),
    )
    .unwrap();
    assert_eq!(rows.len(), 2);
    assert_eq!((rows[0].id.as_str(), rows[0].url.as_str()), ("a", "u"));
    assert_eq!((rows[1].id.as_str(), rows[1].url.as_str()), ("b", ""));
    assert!(matches!(
        browser::parse_contexts(&br#"{"result":{}}"#.to_vec()),
        Err(BidiError::NoContexts)
    ));
    assert!(matches!(
        browser::parse_contexts(&br#"{"result":{"contexts":[{"url":"u"}]}}"#.to_vec()),
        Err(BidiError::NoContextId)
    ));
}

#[test]
fn a_bidi_session_outlives_its_socket() {
    let mut bidi = BidiBackend::new(None, None);
    assert!(matches!(
        bidi.connect_plan(),
        ConnectPlan::NewSession(url) if url == "ws://127.0.0.1:9222/session"
    ));
    assert!(matches!(
        browser::read_session(&b"{}".to_vec()),
        Err(BidiError::NoSession)
    ));
    let id = browser::read_session(&br#"{"result":{"sessionId":"s1"}}"#.to_vec()).unwrap();
    assert_eq!(id, "s1");
    assert!(matches!(bidi.connect_plan(), ConnectPlan::NewSession(_)));
    bidi.keep_session(id);
    assert!(matches!(bidi.connect_plan(), ConnectPlan::Ready));
    bidi.connected = false;
    assert!(matches!(
        bidi.connect_plan(),
        ConnectPlan::Reattach(url) if url == "ws://127.0.0.1:9222/session/s1"
    ));
    bidi.reattached(true);
    assert!(matches!(bidi.connect_plan(), ConnectPlan::Ready));
    assert_eq!(bidi.session_id.as_deref(), Some("s1"));
    bidi.reattached(false);
    assert!(matches!(bidi.connect_plan(), ConnectPlan::NewSession(_)));
    assert_eq!(bidi.take_id(), 1);
    assert_eq!(bidi.take_id(), 2);
    assert_eq!(
        browser::stored_session(Some(" session-123\n".into())).unwrap(),
        "session-123"
    );
    assert!(browser::stored_session(Some(" \n".into())).is_none());
    assert!(browser::stored_session(None).is_none());
}

#[test]
fn a_failed_bidi_browser_is_left_alone() {
    let mut bidi = BidiBackend::new(Some("ws://h/session".into()), Some("s".into()));
    assert!(bidi.begin_refresh(1000 * MS, false).is_none());
    let found = vec![
        BidiTab {
            row: ContextRow { id: "a".into(), url: "ua".into() },
            metadata: Some(TabMetadata { title: "Alpha".into(), favicon_url: "f".into() }),
        },
        BidiTab {
            row: ContextRow { id: "b".into(), url: "ub".into() },
            metadata: None,
        },
    ];
    let state = bidi.finish_refresh(Some(found), "Alpha", 1001 * MS).unwrap();
    assert_eq!(state.active_index, Some(0));
    assert_eq!(bidi.active_context.as_deref(), Some("a"));
    assert!(bidi.begin_refresh(1600 * MS, false).is_none());
    assert!(bidi.finish_refresh(None, "Alpha", 1700 * MS).is_none());
    assert_eq!(bidi.active_context, None);
    assert!(!bidi.begin_refresh(6600 * MS, false).unwrap().available);
    assert!(bidi.begin_refresh(6600 * MS, true).is_none());
    assert!(bidi.begin_refresh(7200 * MS, false).is_none());
}

#[test]
fn the_focused_window_picks_the_browser() {
    let mut client = BrowserClient::new();
    assert_eq!(client.active_protocol_name(), "browser");
    assert!(client.follow(Some(BrowserKind::Bidi)).is_none());
    assert_eq!(client.active_protocol_name(), "WebDriver BiDi");
    assert!(client.follow(Some(BrowserKind::Cdp)).is_none());
    assert_eq!(client.active_protocol_name(), "CDP");
    assert!(!client.follow(None).unwrap().available);
    let chromium = ChromiumClient::new(None);
    assert_eq!(chromium.cdp.endpoint, "http://127.0.0.1:9222");
    assert_eq!(chromium.unavailable_state().tabs_json, "[]");
}

#[test]
fn chromium_is_asked_and_answers() {
    let mut client = ChromiumClient::new(None);
    assert!(client.begin_refresh(5, false).is_none());
    let again = client.begin_refresh(6, false).unwrap();
    assert!(!again.available);
    let target = DevToolsTarget {
        id: "t1".into(),
        title: Some("They&#39;re here".into()),
        url: None,
        favicon_url: None,
        target_type: "page".into(),
    };
    let state = client.fetch_tabs(Some(vec![target]), "elsewhere").unwrap();
    assert_eq!((state.count, state.active_index), (1, Some(0)));
    assert!(client.fetch_tabs(None, "elsewhere").is_none());
    assert!(!client.unavailable_state().available);
}

use tiny_dfr::action::{Action, Edge, Key, KEY_FN};
use tiny_dfr::app::{
    app_step, write_terminal_signature, App, AppStep, BarProbe, BarRegion, Effect, MediaCommand,
    NvimSource, PiSource, RemoteSnapshot, TouchError, TouchProbe,
};
use tiny_dfr::browser::BrowserTabsState;
use tiny_dfr::config::{
    load_config, wanted_icons, AppLayer, ButtonConfig, ConfigError, ConfigProxy, LayerConfig,
};
use tiny_dfr::function_layer::{DragProbe, HitProbe, LayerArea};
use tiny_dfr::key;
use tiny_dfr::layer::{LayerStore, ResolverState};
use tiny_dfr::mpris::MediaState;
use tiny_dfr::number::Number;
use tiny_dfr::nvim_bridge::{
    NvimBridgeSnapshot, NvimBridgeState, NvimDapState, NvimDapUiState, NvimDbConnection,
    NvimDbuiState, NvimNeotestState,
};
use tiny_dfr::pi_state::PiState;
use tiny_dfr::remote::RemoteContext;
use tiny_dfr::terminal::{TerminalApp, TerminalState, TmuxPaneState};
use tiny_dfr::touch::TouchPhase;
use tiny_dfr::widgets::browser_tabs::BrowserTab;
use tiny_dfr::widgets::button::IconRequest;
use tiny_dfr::widgets::media::{MediaProbe, WellProbe};
use tiny_dfr::widgets::slider::SliderBackend;
use tiny_dfr::widgets::{Environment, LayerError, PressProbe, Widget};

const MS: u64 = 1_000_000;

fn n(x: f64) -> Number {
    Number { bits: x.to_bits() }
}

fn cell(text: &str) -> ButtonConfig {
    let mut c = ButtonConfig::blank();
    c.text = Some(text.into());
    c.action = vec![Key { code: 59 }];
    c
}

fn named(name: &str, keys: Vec<ButtonConfig>) -> LayerConfig {
    LayerConfig { name: name.into(), keys }
}

fn shipped() -> ConfigProxy {
    ConfigProxy {
        media_layer_default: Some(false),
        show_button_outlines: Some(true),
        enable_pixel_shift: Some(false),
        font_template: Some(":bold".into()),
        adaptive_brightness: Some(true),
        active_brightness: Some(128),
        double_press_switch_layers: Some(200),
        primary_layer_keys: Some(vec![cell("F1"), cell("F2")]),
        media_layer_keys: Some(vec![cell("play")]),
        app_layers: Some(vec![AppLayer { class: "Spotify".into(), layer: "media".into() }]),
        layers: Some(vec![
            named("terminal-nvim", vec![cell("nvim")]),
            named("terminal-nvim-debug", vec![cell("debug")]),
            named("terminal-nvim-test", vec![cell("test")]),
            named("terminal-nvim-db", vec![cell("db")]),
            named("terminal-nvim-db-connections", vec![cell("dbs")]),
            named("terminal-pi", vec![cell("pi")]),
        ]),
    }
}

fn nothing() -> ConfigProxy {
    ConfigProxy {
        media_layer_default: None,
        show_button_outlines: None,
        enable_pixel_shift: None,
        font_template: None,
        adaptive_brightness: None,
        active_brightness: None,
        double_press_switch_layers: None,
        primary_layer_keys: None,
        media_layer_keys: None,
        app_layers: None,
        layers: None,
    }
}

fn bare() -> Environment {
    Environment { battery: None, failed: Vec::new() }
}

fn load(p: ConfigProxy) -> Result<(tiny_dfr::config::Config, LayerStore), ConfigError> {
    load_config(p, 2008, &bare(), true, 0)
}

fn app() -> App {
    app_with(shipped())
}

fn app_with(p: ConfigProxy) -> App {
    let (cfg, store) = load(p).unwrap();
    App::new(cfg, store, n(0.5), n(0.25), 2008, 60, 30, 15, 1000 * MS)
}

fn texts(store: &LayerStore, name: &str) -> Vec<String> {
    store
        .get(name)
        .cells()
        .iter()
        .map(|c| match &c.widget {
            Widget::Button(b) => match b.backend.content(&tiny_dfr::store::Store::new()) {
                tiny_dfr::widgets::button::ButtonContent::Text(t) => t,
                tiny_dfr::widgets::button::ButtonContent::Icon(i) => format!("<{}>", i.name),
                _ => "?".into(),
            },
            Widget::Media(_) => "media".into(),
            Widget::BrowserTabs(_) => "tabs".into(),
            Widget::Slider(_) => "slider".into(),
            _ => "?".into(),
        })
        .collect()
}

#[test]
fn the_built_in_layers_are_made() {
    let (cfg, store) = load(shipped()).unwrap();
    assert_eq!(texts(&store, "fkeys"), vec!["F1", "F2"]);
    assert_eq!(texts(&store, "media"), vec!["play"]);
    assert_eq!(texts(&store, "global-left"), vec!["esc"]);
    assert_eq!(texts(&store, "global-right"), vec!["<volume_up>", "<brightness_high>"]);
    assert_eq!(
        texts(&store, "global-right-media"),
        vec!["<play_pause>", "<volume_up>", "<brightness_high>"]
    );
    assert_eq!(
        texts(&store, "global-right-tabs"),
        vec!["Tabs", "<volume_up>", "<brightness_high>"]
    );
    assert_eq!(texts(&store, "media-active"), vec!["media"]);
    assert_eq!(texts(&store, "media-overlay"), vec!["media", "×"]);
    assert_eq!(texts(&store, "chromium-tabs"), vec!["tabs"]);
    assert_eq!(texts(&store, "chromium-tabs-overlay"), vec!["tabs", "×"]);
    assert_eq!(store.get("media-overlay").virtual_button_count(), 17);
    for (name, key) in [
        ("brightness", key::HARDWARE_BRIGHTNESS),
        ("kbd_illum", key::HARDWARE_KBD_ILLUM),
        ("volume", key::AUDIO_VOLUME),
    ] {
        assert_eq!(store.get(name).slider_key().unwrap().as_str(), key);
    }
    assert_eq!(store.base_layer(false), "fkeys");
    assert_eq!(store.base_layer(true), "media");
    assert_eq!(cfg.app_layer("Spotify").as_deref(), Some("media"));
    assert_eq!(cfg.app_layer("spotify"), None);
    assert_eq!(cfg.active_brightness, 128);
    assert!(!store.contains("none"));
}

#[test]
fn a_wide_bar_has_esc_on_its_base_layers() {
    let (_, store) = load_config(shipped(), 2170, &bare(), true, 0).unwrap();
    assert_eq!(texts(&store, "fkeys"), vec!["esc", "F1", "F2"]);
    assert_eq!(texts(&store, "media"), vec!["esc", "play"]);
    assert_eq!(texts(&store, "terminal-pi"), vec!["pi"]);
    let (_, store) = load_config(shipped(), 2169, &bare(), true, 0).unwrap();
    assert_eq!(texts(&store, "fkeys"), vec!["F1", "F2"]);
}

#[test]
fn configured_layers_replace_built_in_ones_but_no_sliders() {
    let mut p = shipped();
    p.media_layer_default = Some(true);
    p.layers = Some(vec![named("media", vec![cell("mine")]), named("volume", vec![cell("x")])]);
    let (_, store) = load(p).unwrap();
    assert_eq!(texts(&store, "media"), vec!["mine"]);
    assert_eq!(texts(&store, "volume"), vec!["slider"]);
    assert_eq!(store.base_layer(false), "media");
}

#[test]
fn the_user_overrides_the_shipped_configuration() {
    let mut user = nothing();
    user.media_layer_default = Some(true);
    user.layers = Some(vec![named("terminal-pi", vec![cell("my pi")]), named("new", vec![cell("n")])]);
    user.app_layers = Some(vec![AppLayer { class: "a".into(), layer: "new".into() }]);
    let merged = shipped().overridden(user);
    assert_eq!(merged.font_template.as_deref(), Some(":bold"));
    let (cfg, store) = load(merged).unwrap();
    assert_eq!(texts(&store, "terminal-pi"), vec!["my pi"]);
    assert_eq!(texts(&store, "terminal-nvim"), vec!["nvim"]);
    assert_eq!(texts(&store, "new"), vec!["n"]);
    assert_eq!(store.base_layer(false), "media");
    assert_eq!(cfg.app_layer("Spotify"), None);
    assert_eq!(cfg.app_layer("a").as_deref(), Some("new"));
    let same = nothing().overridden(shipped());
    assert!(load(same).is_ok());
}

#[test]
fn faults_of_a_configuration_are_named() {
    let missing = |p: ConfigProxy| match load(p) {
        Err(ConfigError::Missing(key)) => key,
        _ => "none",
    };
    assert_eq!(missing(nothing()), "MediaLayerKeys");
    let mut p = shipped();
    p.primary_layer_keys = None;
    assert_eq!(missing(p), "PrimaryLayerKeys");
    let mut p = shipped();
    p.media_layer_default = None;
    assert_eq!(missing(p), "MediaLayerDefault");
    let mut p = shipped();
    p.show_button_outlines = None;
    assert_eq!(missing(p), "ShowButtonOutlines");
    let mut p = shipped();
    p.enable_pixel_shift = None;
    assert_eq!(missing(p), "EnablePixelShift");
    let mut p = shipped();
    p.adaptive_brightness = None;
    assert_eq!(missing(p), "AdaptiveBrightness");
    let mut p = shipped();
    p.font_template = None;
    assert_eq!(missing(p), "FontTemplate");
    let mut p = shipped();
    p.active_brightness = None;
    assert_eq!(missing(p), "ActiveBrightness");
    let mut p = shipped();
    p.double_press_switch_layers = None;
    assert_eq!(missing(p), "DoublePressSwitchLayers");
    let mut p = shipped();
    p.active_brightness = None;
    assert!(matches!(
        load_config(p, 2008, &bare(), false, 0),
        Err(ConfigError::Font(f)) if f == ":bold"
    ));
    let mut p = shipped();
    p.app_layers = Some(vec![AppLayer { class: "c".into(), layer: "nowhere".into() }]);
    assert!(matches!(
        load(p),
        Err(ConfigError::UnknownLayer { class, layer }) if class == "c" && layer == "nowhere"
    ));
    let mut p = shipped();
    p.media_layer_keys = Some(Vec::new());
    assert!(matches!(
        load(p),
        Err(ConfigError::Layer { name, configured: false, error: LayerError::NoButtons })
            if name == "media"
    ));
    let mut p = shipped();
    p.layers = Some(vec![named("empty", Vec::new())]);
    assert!(matches!(
        load(p),
        Err(ConfigError::Layer { name, configured: true, error: LayerError::NoButtons })
            if name == "empty"
    ));
    let broken = Environment {
        battery: None,
        failed: vec![IconRequest::plain("play_pause", 48)],
    };
    assert!(matches!(
        load_config(shipped(), 2008, &broken, true, 0),
        Err(ConfigError::Layer { name, configured: false, error: LayerError::Icon(i) })
            if name == "global-right-media" && i.name == "play_pause"
    ));
}

#[test]
fn layers_are_resolved_by_precedence() {
    let (_, mut store) = load(shipped()).unwrap();
    let mut st = ResolverState::default();
    assert_eq!(store.resolve(&st), "fkeys");
    st.fn_pressed = true;
    assert_eq!(store.resolve(&st), "media");
    st.app = Some("terminal-pi".into());
    assert_eq!(store.resolve(&st), "terminal-pi");
    st.substates = vec!["media-active".into(), "terminal-nvim".into()];
    assert_eq!(store.resolve(&st), "terminal-nvim");
    st.modal = Some("volume".into());
    assert_eq!(store.resolve(&st), "volume");
    st.modal = Some("unknown".into());
    assert_eq!(store.resolve(&st), "terminal-nvim");
    st.substates.push("unknown".into());
    assert_eq!(store.resolve(&st), "terminal-pi");
    st.app = Some("unknown".into());
    assert_eq!(store.resolve(&st), "media");
    store.swap_base();
    assert_eq!(store.resolve(&st), "fkeys");
    store.swap_base();
    assert_eq!(store.base_layer(false), "fkeys");
    store.get_mut("volume").grab_slider(n(0.5), n(1.0));
    assert_eq!(store.get("volume").slider().unwrap().level.bits, n(0.5).bits);
    assert_eq!(store.get("brightness").slider().unwrap().level.bits, 0);
}

fn hit(v: usize, within: Vec<bool>) -> HitProbe {
    HitProbe { in_area: true, virtual_i: v, within }
}

fn miss() -> HitProbe {
    HitProbe { in_area: false, virtual_i: 0, within: Vec::new() }
}

fn probe(whole: HitProbe, left: HitProbe, center: HitProbe, right: HitProbe) -> TouchProbe {
    TouchProbe {
        bar: BarProbe { whole, left, center, right },
        press: PressProbe {
            media: MediaProbe {
                well: Some(WellProbe { inside: true, seek: n(5.0) }),
                previous: false,
                play_pause: false,
                next: true,
            },
            tabs: Vec::new(),
            connections: Vec::new(),
            by_width: 1,
            chips: Vec::new(),
        },
        drag: DragProbe { level: n(0.75), moved: true, now: 5000 * MS },
    }
}

fn on_left() -> TouchProbe {
    probe(miss(), hit(0, vec![true]), miss(), miss())
}

fn on_right(i: usize, count: usize) -> TouchProbe {
    let within = (0..count).map(|k| k == i).collect();
    probe(miss(), miss(), miss(), hit(i, within))
}

fn off() -> TouchProbe {
    probe(miss(), miss(), miss(), miss())
}

#[test]
fn a_new_application_knows_nothing() {
    let a = app();
    assert_eq!(a.center_layer(), None);
    assert_eq!(a.global_right_layer(), "global-right");
    assert!(a.needs_redraw() && a.complete_redraw());
    let s = a.store();
    assert_eq!(s.number(key::HARDWARE_BRIGHTNESS).unwrap().bits, n(0.5).bits);
    assert_eq!(s.number(key::HARDWARE_KBD_ILLUM).unwrap().bits, n(0.25).bits);
    assert_eq!(s.number(key::CHROMIUM_TABS_ACTIVE_INDEX).unwrap().bits, n(-1.0).bits);
    assert_eq!(s.text(key::CHROMIUM_TABS_JSON).unwrap(), "[]");
    assert_eq!(s.text(key::NVIM_DBUI_CONNECTIONS_JSON).unwrap(), "[]");
    assert!(!s.bool(key::NVIM_BRIDGE_AVAILABLE).unwrap());
    assert_eq!(s.text(key::TERMINAL_TMUX_PANE_TITLE).unwrap(), "");
    assert!(s.number(key::AUDIO_VOLUME).is_err());
    assert!(s.dirty_keys().is_empty());
}

#[test]
fn the_bar_is_divided() {
    let a = app();
    let areas = a.bar_areas(2008, 60);
    assert_eq!(areas.left, LayerArea { left: 0, width: 150, height: 60 });
    assert_eq!(areas.center, LayerArea { left: 166, width: 1510, height: 60 });
    assert_eq!(areas.right, LayerArea { left: 1692, width: 316, height: 60 });
    assert_eq!(a.bar_areas(2008, 10).left.width, 120);
    assert_eq!(a.bar_areas(2008, 900).left.width, 190);
    assert_eq!(a.bar_areas(2008, 51).left.width, 128);
    assert_eq!(a.bar_areas(100, 60).center.width, 1);
    assert_eq!(a.area_for_layer("global-left"), Some(areas.left));
    assert_eq!(a.area_for_layer("global-right"), Some(areas.right));
    assert_eq!(a.area_for_layer("volume"), None);
    let plan = a.draw_plan(2008, 60);
    assert_eq!(plan.len(), 2);
    assert_eq!(plan[0], ("global-left".to_string(), areas.left));
    assert_eq!(plan[1], ("global-right".to_string(), areas.right));
}

#[test]
fn the_focused_window_picks_the_layer() {
    let mut a = app();
    a.frame_drawn();
    a.on_focus("Spotify", "x");
    assert_eq!(a.center_layer().as_deref(), Some("media"));
    assert!(a.complete_redraw());
    a.on_focus("other", "x");
    assert_eq!(a.center_layer(), None);
    a.on_focus("google-chrome", "x");
    assert_eq!(a.center_layer().as_deref(), Some("chromium-tabs"));
    a.on_focus("Ghostty", "x");
    assert_eq!(a.center_layer(), None);
    a.on_key(KEY_FN as u32, true, 5000 * MS);
    assert_eq!(a.center_layer().as_deref(), Some("media"));
    a.on_key(KEY_FN as u32, false, 5100 * MS);
    assert_eq!(a.center_layer(), None);
    a.on_key(KEY_FN as u32, true, 5150 * MS);
    assert_eq!(a.center_layer().as_deref(), Some("fkeys"));
    a.on_key(30, true, 5151 * MS);
    a.on_key(KEY_FN as u32, false, 5152 * MS);
    assert!(a.resolve_and_log());
    assert!(!a.resolve_and_log());
}

fn media(player: &str, title: &str) -> Option<MediaState> {
    Some(MediaState::from_properties(
        player,
        None,
        "Playing".into(),
        Some(title.into()),
        None,
        100,
        0,
    ))
}

#[test]
fn media_is_shown_where_it_plays() {
    let mut a = app();
    a.refresh_media(media("org.mpris.MediaPlayer2.vlc", "Song"));
    assert_eq!(a.global_right_layer(), "global-right-media");
    assert_eq!(a.bar_areas(2008, 60).right.width, 150 * 3 + 32);
    a.on_focus("chromium", "(2) Song - YouTube");
    assert_eq!(a.center_layer().as_deref(), Some("chromium-tabs"));
    a.refresh_media(media("org.mpris.MediaPlayer2.chromium.1", "Song"));
    assert!(a.chromium_media_on_focused_tab());
    assert_eq!(a.center_layer().as_deref(), Some("media-active"));
    assert_eq!(a.global_right_layer(), "global-right-tabs");
    a.refresh_media(None);
    assert_eq!(a.global_right_layer(), "global-right");
    assert_eq!(a.store().text(key::MEDIA_ACTIVE_TITLE).unwrap(), "");
}

fn terminal(app: TerminalApp, pid: Option<u32>) -> TerminalState {
    let mut t = TerminalState::default();
    t.available = true;
    t.terminal = "ghostty".into();
    t.app = app;
    t.app_pid = pid;
    t.nvim_pid = if app == TerminalApp::Nvim { pid } else { None };
    t.cwd = "/w".into();
    t
}

fn nvim() -> NvimBridgeState {
    NvimBridgeState {
        pid: 9,
        socket: "/s".into(),
        cwd: Some("/w".into()),
        mode: None,
        file: Some("f".into()),
        filetype: None,
        dap: NvimDapState {
            active: false,
            state: None,
            adapter: None,
            session: None,
            updated_at_ms: None,
        },
        dapui: NvimDapUiState { available: false, visible: false },
        neotest: NvimNeotestState {
            available: true,
            summary_visible: false,
            updated_at_ms: Some(-7),
        },
        dbui: NvimDbuiState {
            available: true,
            visible: false,
            in_buffer: false,
            connections: vec![NvimDbConnection {
                name: "n".into(),
                source: "s".into(),
                key_name: "k".into(),
                is_connected: true,
            }],
        },
    }
}

fn snapshot(state: NvimBridgeState) -> NvimBridgeSnapshot {
    NvimBridgeSnapshot { available: true, selected: Some(state) }
}

#[test]
fn neovim_picks_the_layer() {
    let mut a = app();
    assert!(a.store_terminal(terminal(TerminalApp::Nvim, Some(77))));
    assert!(!a.store_terminal(terminal(TerminalApp::Nvim, Some(77))));
    assert_eq!(a.terminal_nvim_pid(), Some(77));
    assert_eq!(a.center_layer().as_deref(), Some("terminal-nvim"));
    let mut s = nvim();
    s.dbui.in_buffer = true;
    a.store_nvim_bridge(snapshot(s));
    assert_eq!(a.center_layer().as_deref(), Some("terminal-nvim-db"));
    let mut s = nvim();
    s.dbui.visible = true;
    s.neotest.summary_visible = true;
    a.store_nvim_bridge(snapshot(s));
    assert_eq!(a.center_layer().as_deref(), Some("terminal-nvim-test"));
    let mut s = nvim();
    s.neotest.summary_visible = true;
    s.dapui.visible = true;
    a.store_nvim_bridge(snapshot(s));
    assert_eq!(a.center_layer().as_deref(), Some("terminal-nvim-debug"));
    assert_eq!(
        a.store().number(key::NVIM_NEOTEST_UPDATED_AT_MS).unwrap().bits,
        n(-7.0).bits
    );
    assert_eq!(
        a.store().text(key::NVIM_DBUI_CONNECTIONS_JSON).unwrap(),
        "[{\"name\":\"n\",\"source\":\"s\",\"key_name\":\"k\",\"is_connected\":true}]"
    );
    a.store_nvim_bridge(NvimBridgeSnapshot { available: false, selected: None });
    assert_eq!(a.center_layer().as_deref(), Some("terminal-nvim"));
    a.store_terminal(terminal(TerminalApp::Pi, Some(3)));
    assert_eq!(a.center_layer().as_deref(), Some("terminal-pi"));
    a.store_terminal(TerminalState::default());
    assert_eq!(a.center_layer(), None);
}

#[test]
fn tmux_is_noted_and_forgotten() {
    let mut a = app();
    let mut t = terminal(TerminalApp::Shell, None);
    t.tmux = Some(TmuxPaneState {
        client_pid: Some(5),
        client_tty: "/dev/pts/1".into(),
        session: "main".into(),
        window: "1".into(),
        pane_index: "0".into(),
        pane_id: "%1".into(),
        pane_pid: None,
        pane_command: "zsh".into(),
        pane_path: "/p".into(),
        pane_title: "t".into(),
    });
    a.store_terminal(t);
    assert_eq!(a.store().number(key::TERMINAL_TMUX_CLIENT_PID).unwrap().to_u32(), 5);
    assert_eq!(a.store().number(key::TERMINAL_TMUX_PANE_PID).unwrap().to_u32(), 0);
    assert_eq!(a.store().text(key::TERMINAL_TMUX_PANE_ID).unwrap(), "%1");
    assert_eq!(a.store().text(key::TERMINAL_APP).unwrap(), "shell");
    assert_eq!(a.store().text(key::TERMINAL_KIND).unwrap(), "unknown");
    a.store_terminal(terminal(TerminalApp::Shell, None));
    assert_eq!(a.store().text(key::TERMINAL_TMUX_PANE_ID).unwrap(), "");
}

fn remote(app: &str, nvim_bridge: Option<NvimBridgeState>, pi: Option<PiState>) -> RemoteSnapshot {
    RemoteSnapshot {
        latest: Some(RemoteContext {
            session_id: "s".into(),
            host: "h".into(),
            kind: "k".into(),
            app: app.into(),
            command: String::new(),
            cwd: String::new(),
            updated_at_ms: 1,
            nvim_pid: None,
            nvim_bridge,
            pi_state: pi,
            tmux_match_source: None,
            nvim_match_source: None,
            tmux: None,
        }),
        active: true,
    }
}

fn agent(model: &str) -> PiState {
    PiState {
        pid: 4,
        model: Some(model.into()),
        provider: None,
        thinking: None,
        workflow_mode: None,
        cwd: None,
        updated_at_ms: None,
        app_bridge_socket: None,
        capabilities: vec!["c".into()],
    }
}

#[test]
fn a_remote_session_counts_while_ssh_is_in_front() {
    let mut a = app();
    a.store_remote(remote("nvim", Some(nvim()), Some(agent("big"))));
    assert!(matches!(a.nvim_source(), NvimSource::Local { preferred_pid: None }));
    assert!(!a.remote_context_active());
    a.store_terminal(terminal(TerminalApp::Ssh, Some(8)));
    assert!(a.remote_app_is(TerminalApp::Nvim));
    assert_eq!(a.center_layer().as_deref(), Some("terminal-nvim"));
    assert!(matches!(
        a.nvim_source(),
        NvimSource::Remote(s) if s.available && s.selected.as_ref().unwrap().pid == 9
    ));
    assert!(matches!(
        a.pi_source(),
        PiSource::Remote(p) if p.model.as_deref() == Some("big") && p.capabilities == vec!["c"]
    ));
    assert!(matches!(
        a.apply(Action::NvimBridge("dap.pause".into())),
        Ok(Effect::RemoteAction { name, db: None }) if name == "dap.pause"
    ));
    a.store_remote(remote("zsh", None, None));
    assert!(matches!(a.nvim_source(), NvimSource::Local { .. }));
    assert!(matches!(
        a.pi_source(),
        PiSource::Local { preferred_pid: Some(8), preferred_cwd: Some(d) } if d == "/w"
    ));
    assert!(matches!(
        a.apply(Action::NvimDbConnect("k".into())),
        Ok(Effect::NvimAction { name, db: Some(d), pid: None }) if name == "dbui.connect" && d == "k"
    ));
}

#[test]
fn the_agent_does_not_flicker() {
    let mut a = app();
    a.store_pi_state(Some(agent("big")));
    assert_eq!(a.store().text(key::PI_MODEL).unwrap(), "big");
    a.store_terminal(terminal(TerminalApp::Pi, Some(3)));
    a.store_pi_state(None);
    assert_eq!(a.store().text(key::PI_MODEL).unwrap(), "big");
    a.store_terminal(terminal(TerminalApp::Shell, None));
    a.store_pi_state(None);
    assert_eq!(a.store().text(key::PI_MODEL).unwrap(), "");
    assert!(matches!(
        a.pi_source(),
        PiSource::Local { preferred_pid: None, .. }
    ));
}

#[test]
fn news_that_change_layers_are_drawn_completely() {
    let mut a = app();
    a.frame_drawn();
    let before = a.shown();
    a.store_lights(n(1.0), n(0.0));
    a.end_refresh(&before, false);
    assert!(!a.complete_redraw());
    a.refresh_media(media("vlc", "Song"));
    a.end_refresh(&before, false);
    assert!(a.complete_redraw());
    a.frame_drawn();
    let before = a.shown();
    a.end_refresh(&before, true);
    assert!(a.complete_redraw());
}

#[test]
fn a_touched_key_is_pressed_and_released() {
    let mut a = app();
    assert!(matches!(a.on_touch(TouchPhase::Down, true, &on_left()), Ok(None)));
    assert!(matches!(a.on_touch(TouchPhase::Down, false, &off()), Ok(None)));
    assert!(matches!(a.on_touch(TouchPhase::Motion, false, &off()), Ok(None)));
    let pressed = a.on_touch(TouchPhase::Down, false, &on_left()).unwrap().unwrap();
    assert!(matches!(&pressed, Action::Key(k, Edge::Press) if *k == vec![Key { code: 1 }]));
    assert!(matches!(a.apply(pressed), Ok(Effect::Keys(e)) if e.len() == 2 && e[0].value == 1));
    assert!(matches!(a.on_touch(TouchPhase::Motion, false, &on_left()), Ok(None)));
    assert!(matches!(
        a.on_touch(TouchPhase::Motion, false, &off()),
        Ok(Some(Action::Key(_, Edge::Release)))
    ));
    assert!(matches!(
        a.on_touch(TouchPhase::Motion, false, &on_left()),
        Ok(Some(Action::Key(_, Edge::Press)))
    ));
    assert!(matches!(
        a.on_touch(TouchPhase::Up, false, &off()),
        Ok(Some(Action::Key(_, Edge::Release)))
    ));
    assert!(matches!(a.on_touch(TouchPhase::Up, false, &off()), Ok(None)));
}

#[test]
fn a_slider_opens_drags_and_closes() {
    let mut a = app();
    let opened = a.on_touch(TouchPhase::Down, false, &on_right(0, 2)).unwrap().unwrap();
    assert!(matches!(&opened, Action::OpenModal(l) if l == "volume"));
    assert!(a.can_apply(&opened));
    let effect = a.apply(opened).unwrap();
    let (backend, target) = match effect {
        Effect::OpenSlider { backend, target } => (backend, target),
        _ => panic!("no slider"),
    };
    assert_eq!(backend, SliderBackend::Volume);
    a.open_slider(backend, target, n(0.5), n(900.0));
    assert!(a.modal_exists());
    assert_eq!(a.region("volume"), Some(BarRegion::Whole));
    assert_eq!(a.draw_plan(2008, 60)[0].0, "volume");
    assert_eq!(a.store().number(key::AUDIO_VOLUME).unwrap().bits, n(0.5).bits);
    assert_eq!(a.layer("volume").slider().unwrap().level.bits, n(0.5).bits);
    let moved = a.on_touch(TouchPhase::Motion, false, &off()).unwrap().unwrap();
    assert!(matches!(&moved, Action::SetVolume(v) if v.bits == n(0.75).bits));
    assert!(matches!(a.apply(moved), Ok(Effect::SetVolume(_))));
    assert_eq!(a.store().number(key::AUDIO_VOLUME).unwrap().bits, n(0.75).bits);
    let closed = a.on_touch(TouchPhase::Up, false, &off()).unwrap().unwrap();
    assert!(matches!(closed, Action::CloseModal));
    assert!(matches!(a.apply(closed), Ok(Effect::Nothing)));
    assert_eq!(a.region("volume"), None);
    assert!(a.layer("volume").slider().unwrap().grab.is_none());
}

#[test]
fn layers_are_pushed_and_popped() {
    let mut a = app();
    a.refresh_media(media("vlc", "Song"));
    let push = a.on_touch(TouchPhase::Down, false, &on_right(0, 3)).unwrap().unwrap();
    assert!(matches!(&push, Action::PushLayer(l) if l == "media-overlay"));
    a.apply(push).unwrap();
    assert_eq!(a.region("media-overlay"), Some(BarRegion::Whole));
    assert!(matches!(a.on_touch(TouchPhase::Down, false, &on_left()), Ok(None)));
    let close = probe(hit(16, vec![false, true]), miss(), miss(), miss());
    let pop = a.on_touch(TouchPhase::Down, false, &close).unwrap().unwrap();
    assert!(matches!(pop, Action::PopLayer));
    a.apply(pop).unwrap();
    assert_eq!(a.region("media-overlay"), None);
    a.apply(Action::PopLayer).unwrap();
    a.apply(Action::PushLayer("nowhere".into())).unwrap();
    assert!(!a.modal_exists());
}

#[test]
fn scrubbing_follows_the_finger() {
    let mut a = app();
    a.on_focus("chromium", "Song");
    a.refresh_media(media("chromium", "Song"));
    let on_center = || probe(miss(), miss(), hit(0, vec![true]), miss());
    let seek = a.on_touch(TouchPhase::Down, false, &on_center()).unwrap().unwrap();
    assert!(matches!(&seek, Action::MediaSeek(x) if x.bits == n(5.0).bits));
    assert!(matches!(a.apply(seek), Ok(Effect::Seek(_))));
    a.seeked(n(5.0));
    assert_eq!(a.store().number(key::MEDIA_ACTIVE_POSITION).unwrap().bits, n(5.0).bits);
    assert!(matches!(
        a.on_touch(TouchPhase::Motion, false, &off()),
        Ok(Some(Action::MediaSeek(_)))
    ));
    a.on_focus("other", "x");
    assert!(matches!(
        a.on_touch(TouchPhase::Motion, false, &off()),
        Err(TouchError::NoArea(l)) if l == "media-active"
    ));
    assert!(matches!(
        a.on_touch(TouchPhase::Up, false, &off()),
        Err(TouchError::NoArea(_))
    ));
    assert!(matches!(a.on_touch(TouchPhase::Up, false, &off()), Ok(None)));
}

#[test]
fn actions_become_effects() {
    let mut a = app();
    assert!(matches!(
        a.apply(Action::SetBrightness(n(0.5))),
        Ok(Effect::SetBrightness(_))
    ));
    a.level_read(SliderBackend::Brightness, n(0.9));
    assert_eq!(a.store().number(key::HARDWARE_BRIGHTNESS).unwrap().bits, n(0.9).bits);
    assert!(matches!(a.apply(Action::SetKbdIllum(n(0.5))), Ok(Effect::SetKbdIllum(_))));
    for (action, command) in [
        (Action::MediaPrevious, MediaCommand::Previous),
        (Action::MediaPlayPause, MediaCommand::PlayPause),
        (Action::MediaNext, MediaCommand::Next),
    ] {
        assert!(matches!(a.apply(action), Ok(Effect::Media(c)) if c == command));
    }
    assert!(matches!(
        a.apply(Action::BrowserActivateTab("t".into())),
        Ok(Effect::ActivateTab(t)) if t == "t"
    ));
    a.frame_drawn();
    let mut tabs = BrowserTabsState::unavailable();
    tabs.available = true;
    tabs.count = 3;
    tabs.active_index = Some(2);
    a.tab_activated(tabs);
    assert!(a.complete_redraw());
    assert_eq!(a.store().number(key::CHROMIUM_TABS_COUNT).unwrap().to_u32(), 3);
    assert_eq!(a.store().number(key::CHROMIUM_TABS_ACTIVE_INDEX).unwrap().to_u32(), 2);
    assert!(matches!(
        a.apply(Action::LaunchApp("zen-browser".into())),
        Ok(Effect::Launch(c)) if c == "zen-browser"
    ));
    assert!(matches!(
        a.apply(Action::AppBridge {
            app: "pi".into(),
            action: "go".into(),
            fallback_keys: vec![Key { code: 1 }],
            edge: Edge::Press,
        }),
        Ok(Effect::AppAction { app, name, fallback_keys, edge: Edge::Press })
            if app == "pi" && name == "go" && fallback_keys.len() == 1
    ));
    assert!(!a.can_apply(&Action::OpenModal("nowhere".into())));
    assert!(matches!(
        a.apply(Action::OpenModal("fkeys".into())),
        Err(LayerError::NoSlider)
    ));
    a.apply(Action::PushLayer("terminal-nvim-db-connections".into())).unwrap();
    a.store_nvim_bridge(snapshot({
        let mut s = nvim();
        s.dbui.visible = true;
        s
    }));
    assert_eq!(a.region("terminal-nvim-db-connections"), Some(BarRegion::Whole));
    a.store_nvim_bridge(snapshot(nvim()));
    assert_eq!(a.region("terminal-nvim-db-connections"), None);
    a.apply(Action::PushLayer("media-overlay".into())).unwrap();
    a.action_sent(false);
    assert_eq!(a.region("media-overlay"), Some(BarRegion::Whole));
    a.action_sent(true);
    assert_eq!(a.region("media-overlay"), None);
    assert_eq!(App::source_of("audio.volume"), Some(SliderBackend::Volume));
    assert_eq!(App::source_of("pi.model"), None);
}

#[test]
fn a_new_configuration_resets_the_bar() {
    let mut a = app();
    a.on_focus("Spotify", "x");
    a.on_key(KEY_FN as u32, true, 9000 * MS);
    a.on_touch(TouchPhase::Down, false, &on_left()).unwrap();
    a.frame_drawn();
    let mut p = shipped();
    p.app_layers = Some(vec![AppLayer { class: "Spotify".into(), layer: "terminal-pi".into() }]);
    let (cfg, store) = load(p).unwrap();
    a.reload(cfg, store);
    assert_eq!(a.center_layer().as_deref(), Some("terminal-pi"));
    assert!(a.complete_redraw());
    assert!(matches!(a.on_touch(TouchPhase::Up, false, &off()), Ok(None)));
}

#[test]
fn the_bar_is_drawn_only_when_needed() {
    let mut a = app();
    a.frame_drawn();
    a.changes_seen();
    assert!(!a.needs_redraw() && !a.frame_needs_redraw());
    a.on_touch(TouchPhase::Down, false, &on_left()).unwrap();
    assert!(a.needs_redraw());
    a.cell_drawn("global-left", 0, 0);
    assert!(!a.needs_redraw());
    a.store_pi_state(Some(agent("m")));
    assert!(a.needs_redraw());
    a.changes_seen();
    assert!(!a.needs_redraw());
    a.error_drawn();
    assert!(a.needs_redraw());
    assert!(a.has_layer("volume") && !a.has_layer("nowhere"));
    assert_eq!(a.cfg().font_template, ":bold");
}

#[test]
fn the_loop_sleeps_no_longer_than_it_may() {
    let mut a = app();
    a.frame_drawn();
    assert_eq!(a.next_timeout(false, 10, (true, 3)), 10_000);
    assert!(!a.complete_redraw());
    assert_eq!(a.next_timeout(false, 55, (false, 0)), 5_000);
    assert_eq!(a.next_timeout(true, 55, (false, 0)), 16);
    a.store_remote(RemoteSnapshot { latest: None, active: true });
    assert_eq!(a.next_timeout(false, 0, (false, 0)), 1000);
    a.store_terminal(terminal(TerminalApp::Shell, None));
    assert_eq!(a.next_timeout(false, 0, (false, 0)), 500);
    let mut p = shipped();
    p.enable_pixel_shift = Some(true);
    let mut clock = ButtonConfig::blank();
    clock.time = Some("%H:%M:%S".into());
    p.primary_layer_keys = Some(vec![clock]);
    let mut b = app_with(p);
    b.frame_drawn();
    assert_eq!(b.next_timeout(false, 0, (true, 7000)), 7000);
    assert!(b.complete_redraw());
    b.frame_drawn();
    b.tick(30, 99);
    assert!(!b.complete_redraw());
    b.tick(31, 99);
    assert!(b.complete_redraw());
    b.apply(Action::PushLayer("fkeys".into())).unwrap();
    assert_eq!(b.next_timeout(false, 0, (false, 7000)), 1000);
    let mut c = app();
    c.frame_drawn();
    c.tick(1, 2);
    assert!(!c.complete_redraw());
}

#[test]
fn an_agent_that_listens_is_sent_no_keys() {
    let keys = vec![Key { code: 30 }];
    let step = |app: &str, listens: bool, edge: Edge| app_step(app, listens, &keys, edge);
    assert!(matches!(step("pi", true, Edge::Press), AppStep::Send));
    assert!(matches!(step("pi", true, Edge::Release), AppStep::Nothing));
    for (app, listens) in [("pi", false), ("nvim", true)] {
        match step(app, listens, Edge::Press) {
            AppStep::Keys(events) => {
                assert_eq!(events.len(), 2);
                assert_eq!((events[0].code, events[0].value), (30, 1));
            }
            other => panic!("{other:?}"),
        }
    }
}

#[test]
fn process_identifiers_are_kept_exactly() {
    let mut a = app();
    a.store_terminal(terminal(TerminalApp::Nvim, Some(u32::MAX)));
    match a.nvim_source() {
        NvimSource::Local { preferred_pid } => assert_eq!(preferred_pid, Some(u32::MAX)),
        NvimSource::Remote(_) => panic!("nothing is remote"),
    }
}

#[test]
fn a_terminal_is_told_apart_by_what_it_runs() {
    let mut t = terminal(TerminalApp::Nvim, Some(42));
    t.command = "nvim".into();
    assert_eq!(
        write_terminal_signature(&t),
        "available=true terminal=ghostty kind=unknown app=nvim cmd=nvim app_pid=Some(42) \
         nvim_pid=Some(42) tmux_pane= ghostty_pid_windows=0 ambiguous=false"
    );
    let mut a = app();
    assert!(a.store_terminal(terminal(TerminalApp::Nvim, Some(42))));
    assert!(!a.store_terminal(terminal(TerminalApp::Nvim, Some(42))));
    assert!(a.store_terminal(terminal(TerminalApp::Pi, Some(42))));
    assert!(a.terminal_app_is(TerminalApp::Pi));
    assert!(a.effective_terminal_app_is(TerminalApp::Pi));
    assert!(!a.terminal_app_is(TerminalApp::Nvim));
    assert!(a.is_ghostty_focused());
    assert!(!a.is_chromium_focused());
}

#[test]
fn stored_tabs_are_read_back() {
    let tab = |id: &str, active: bool| BrowserTab {
        id: id.into(),
        title: "a \"title\"".into(),
        url: "u".into(),
        favicon_url: String::new(),
        active,
    };
    let mut a = app();
    a.store_chromium_tabs(BrowserTabsState::from_tabs(&vec![tab("1", false), tab("2", true)]));
    assert!(a.store().bool(key::BROWSER_TABS_AVAILABLE).unwrap());
    assert_eq!(a.store().number(key::CHROMIUM_TABS_COUNT).unwrap().bits, n(2.0).bits);
    assert_eq!(a.store().number(key::BROWSER_TABS_ACTIVE_INDEX).unwrap().bits, n(1.0).bits);
    assert_eq!(
        a.store().text(key::BROWSER_TABS_JSON).unwrap(),
        "[{\"id\":\"1\",\"title\":\"a \\\"title\\\"\",\"url\":\"u\",\"favicon_url\":\"\",\
         \"active\":false},{\"id\":\"2\",\"title\":\"a \\\"title\\\"\",\"url\":\"u\",\
         \"favicon_url\":\"\",\"active\":true}]"
    );
    a.store_chromium_tabs(BrowserTabsState::unavailable());
    assert!(!a.store().bool(key::BROWSER_TABS_AVAILABLE).unwrap());
    assert_eq!(a.store().number(key::BROWSER_TABS_ACTIVE_INDEX).unwrap().bits, n(-1.0).bits);
}

#[test]
fn a_finger_hits_one_cell_of_the_bar() {
    let a = app();
    assert_eq!(a.hit_bar(&on_left().bar), Some(("global-left".to_string(), 0)));
    assert_eq!(a.hit_bar(&on_right(1, 2).bar), Some(("global-right".to_string(), 1)));
    assert_eq!(a.hit_bar(&off().bar), None);
    assert_eq!(a.hit_layer("global-right", &on_right(1, 2).bar, Some(0)), None);
    assert_eq!(a.hit_layer("nowhere", &on_left().bar, None), None);
}

#[test]
fn the_icons_of_a_configuration_are_listed() {
    let mut p = nothing();
    let mut icon = ButtonConfig::blank();
    icon.icon = Some("star".into());
    icon.icon_width = Some(20);
    p.layers = Some(vec![named("mine", vec![cell("text"), icon])]);
    let wanted: Vec<(String, i32, i32)> = wanted_icons(&p, false)
        .into_iter()
        .map(|i| (i.name, i.width, i.height))
        .collect();
    let plain = |name: &str| (name.to_string(), 48, 48);
    assert_eq!(
        wanted,
        vec![
            plain("volume_up"),
            plain("brightness_high"),
            plain("play_pause"),
            ("star".to_string(), 20, 48),
        ]
    );
}

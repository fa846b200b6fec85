//! The keys of the state store: dotted names such as `hardware.brightness`.
use crate::scan;
use crate::text;
use vstd::prelude::*;

verus! {

pub const HARDWARE_BRIGHTNESS: &'static str = "hardware.brightness";

pub const HARDWARE_KBD_ILLUM: &'static str = "hardware.kbd_illum";

pub const AUDIO_VOLUME: &'static str = "audio.volume";

pub const CONTEXT_FOCUS_CLASS: &'static str = "context.focus.class";

pub const CONTEXT_FOCUS_TITLE: &'static str = "context.focus.title";

pub const MEDIA_ACTIVE_PLAYER: &'static str = "media.active.player";

pub const MEDIA_ACTIVE_TRACK_ID: &'static str = "media.active.track_id";

pub const MEDIA_ACTIVE_STATUS: &'static str = "media.active.status";

pub const MEDIA_ACTIVE_TITLE: &'static str = "media.active.title";

pub const MEDIA_ACTIVE_ART_URL: &'static str = "media.active.art_url";

pub const MEDIA_ACTIVE_LENGTH: &'static str = "media.active.length";

pub const MEDIA_ACTIVE_POSITION: &'static str = "media.active.position";

pub const CHROMIUM_MEDIA_ACTIVE: &'static str = "chromium.media.active";

pub const CHROMIUM_TABS_AVAILABLE: &'static str = "chromium.tabs.available";

pub const CHROMIUM_TABS_JSON: &'static str = "chromium.tabs.json";

pub const CHROMIUM_TABS_COUNT: &'static str = "chromium.tabs.count";

pub const CHROMIUM_TABS_ACTIVE_INDEX: &'static str = "chromium.tabs.active_index";

pub const NVIM_BRIDGE_AVAILABLE: &'static str = "nvim.bridge.available";

pub const NVIM_BRIDGE_SOCKET: &'static str = "nvim.bridge.socket";

pub const NVIM_PID: &'static str = "nvim.pid";

pub const NVIM_CWD: &'static str = "nvim.cwd";

pub const NVIM_FILE: &'static str = "nvim.file";

pub const NVIM_FILETYPE: &'static str = "nvim.filetype";

pub const NVIM_MODE: &'static str = "nvim.mode";

pub const NVIM_DAP_ACTIVE: &'static str = "nvim.dap.active";

pub const NVIM_DAP_STATE: &'static str = "nvim.dap.state";

pub const NVIM_DAP_ADAPTER: &'static str = "nvim.dap.adapter";

pub const NVIM_DAP_SESSION: &'static str = "nvim.dap.session";

pub const NVIM_DAPUI_AVAILABLE: &'static str = "nvim.dapui.available";

pub const NVIM_DAPUI_VISIBLE: &'static str = "nvim.dapui.visible";

pub const NVIM_NEOTEST_AVAILABLE: &'static str = "nvim.neotest.available";

pub const NVIM_NEOTEST_SUMMARY_VISIBLE: &'static str = "nvim.neotest.summary_visible";

pub const NVIM_NEOTEST_UPDATED_AT_MS: &'static str = "nvim.neotest.updated_at_ms";

pub const NVIM_DBUI_AVAILABLE: &'static str = "nvim.dbui.available";

pub const NVIM_DBUI_VISIBLE: &'static str = "nvim.dbui.visible";

pub const NVIM_DBUI_IN_BUFFER: &'static str = "nvim.dbui.in_buffer";

pub const NVIM_DBUI_CONNECTIONS_JSON: &'static str = "nvim.dbui.connections_json";

pub const PI_MODEL: &'static str = "pi.model";

pub const PI_PROVIDER: &'static str = "pi.provider";

pub const PI_THINKING: &'static str = "pi.thinking";

pub const PI_WORKFLOW_MODE: &'static str = "pi.workflow.mode";

pub const TERMINAL_AVAILABLE: &'static str = "terminal.available";

pub const TERMINAL_NAME: &'static str = "terminal.name";

pub const TERMINAL_KIND: &'static str = "terminal.kind";

pub const TERMINAL_ROOT_PID: &'static str = "terminal.root_pid";

pub const TERMINAL_COMMAND: &'static str = "terminal.command";

pub const TERMINAL_CWD: &'static str = "terminal.cwd";

pub const TERMINAL_APP: &'static str = "terminal.app";

pub const TERMINAL_APP_PID: &'static str = "terminal.app_pid";

pub const TERMINAL_NVIM_PID: &'static str = "terminal.nvim_pid";

pub const TERMINAL_TMUX_CLIENT_PID: &'static str = "terminal.tmux.client_pid";

pub const TERMINAL_TMUX_CLIENT_TTY: &'static str = "terminal.tmux.client_tty";

pub const TERMINAL_TMUX_SESSION: &'static str = "terminal.tmux.session";

pub const TERMINAL_TMUX_WINDOW: &'static str = "terminal.tmux.window";

pub const TERMINAL_TMUX_PANE_INDEX: &'static str = "terminal.tmux.pane_index";

pub const TERMINAL_TMUX_PANE_ID: &'static str = "terminal.tmux.pane_id";

pub const TERMINAL_TMUX_PANE_PID: &'static str = "terminal.tmux.pane_pid";

pub const TERMINAL_TMUX_PANE_COMMAND: &'static str = "terminal.tmux.pane_command";

pub const TERMINAL_TMUX_PANE_PATH: &'static str = "terminal.tmux.pane_path";

pub const TERMINAL_TMUX_PANE_TITLE: &'static str = "terminal.tmux.pane_title";

// The tab strip reads what the browser client writes, so the two share their keys.
pub const BROWSER_TABS_AVAILABLE: &'static str = "chromium.tabs.available";

pub const BROWSER_TABS_JSON: &'static str = "chromium.tabs.json";

pub const BROWSER_TABS_ACTIVE_INDEX: &'static str = "chromium.tabs.active_index";

/// The characters that a key's segments are made of.
pub open spec fn is_key_char(c: char) -> bool {
    ||| 'a' <= c <= 'z'
    ||| 'A' <= c <= 'Z'
    ||| '0' <= c <= '9'
    ||| c == '_'
    ||| c == '-'
}

/// A segment of a key: not empty, and made of key characters only.
pub open spec fn good_segment(segment: Seq<char>) -> bool {
    segment.len() > 0 && forall|i: int| 0 <= i < segment.len() ==> is_key_char(#[trigger] segment[i])
}

/// The first of `segments` that is no good segment.
pub open spec fn first_fault(segments: Seq<Seq<char>>) -> Option<Seq<char>>
    decreases segments.len(),
{
    if segments.len() == 0 {
        None
    } else if !good_segment(segments[0]) {
        Some(segments[0])
    } else {
        first_fault(segments.drop_first())
    }
}

/// A key: good segments with dots between them.
pub open spec fn valid_key(key: Seq<char>) -> bool {
    first_fault(scan::pieces(key, '.')) is None
}

/// Why a text is no key.
#[derive(Debug)]
pub enum KeyError {
    /// The text is empty.
    Empty,
    /// Two dots follow each other, or one stands at an end.
    EmptySegment { key: String },
    /// A segment holds a character that keys do not have.
    InvalidSegment { key: String, segment: String },
}

/// What is wrong with a text that is no key.
pub open spec fn faulty(key: Seq<char>, e: KeyError) -> bool {
    match e {
        KeyError::Empty => key.len() == 0,
        KeyError::EmptySegment { key: k } => key.len() > 0 && k@ == key && first_fault(
            scan::pieces(key, '.'),
        ) == Some(Seq::<char>::empty()),
        KeyError::InvalidSegment { key: k, segment } => key.len() > 0 && k@ == key
            && segment@.len() > 0 && first_fault(scan::pieces(key, '.')) == Some(segment@),
    }
}

/// A dotted state key, known to be valid.
#[derive(Debug)]
pub struct StateKey {
    name: String,
}

impl View for StateKey {
    type V = Seq<char>;

    closed spec fn view(&self) -> Seq<char> {
        self.name@
    }
}

impl StateKey {
    #[verifier::type_invariant]
    spec fn is_valid(self) -> bool {
        valid_key(self.name@)
    }

    /// Takes `key` where it is valid, and says what is wrong with it otherwise.
    pub fn new(key: &str) -> (r: Result<StateKey, KeyError>)
        ensures
            r is Ok <==> valid_key(key@),
            r matches Ok(k) ==> k@ == key@,
            r matches Err(e) ==> faulty(key@, e),
    {
        let name = key.to_string();
        match validate_key(key) {
            Ok(()) => Ok(StateKey { name }),
            Err(e) => Err(e),
        }
    }

    /// The key's text.
    pub fn as_str(&self) -> (r: &str)
        ensures
            r@ == self@,
            valid_key(r@),
    {
        proof {
            use_type_invariant(self);
        }
        self.name.as_str()
    }
}

impl Clone for StateKey {
    fn clone(&self) -> (r: StateKey)
        ensures
            r@ == self@,
    {
        proof {
            use_type_invariant(self);
        }
        StateKey { name: self.name.clone() }
    }
}

/// Whether `c` may stand in a key's segment.
fn key_char(c: char) -> (r: bool)
    ensures
        r == is_key_char(c),
{
    ('a' <= c && c <= 'z') || ('A' <= c && c <= 'Z') || ('0' <= c && c <= '9') || c == '_' || c
        == '-'
}

/// Whether a segment is not empty and made of key characters only.
fn is_good_segment(segment: &str) -> (r: bool)
    ensures
        r == good_segment(segment@),
{
    let chars = text::chars_of(segment);
    let mut i: usize = 0;
    while i < chars.len()
        invariant
            0 <= i <= chars@.len(),
            chars@ == segment@,
            forall|k: int| 0 <= k < i ==> is_key_char(#[trigger] chars@[k]),
        decreases chars@.len() - i,
    {
        if !key_char(chars[i]) {
            assert(!is_key_char(segment@[i as int]));
            return false;
        }
        i += 1;
    }
    chars.len() > 0
}

/// Whether `key` is a key, and what is wrong with it where it is none.
pub fn validate_key(key: &str) -> (r: Result<(), KeyError>)
    ensures
        r is Ok <==> valid_key(key@),
        r matches Err(e) ==> faulty(key@, e),
{
    let chars = text::chars_of(key);
    let segments = scan::split(key, '.');
    let ghost all = scan::pieces(key@, '.');
    if chars.len() == 0 {
        assert(all =~= seq![key@]);
        assert(!good_segment(all[0]));
        return Err(KeyError::Empty);
    }
    let mut i: usize = 0;
    assert(all.skip(0) =~= all);
    while i < segments.len()
        invariant
            0 <= i <= segments@.len(),
            key@.len() > 0,
            all == scan::pieces(key@, '.'),
            text::texts(segments@) == all,
            first_fault(all) == first_fault(all.skip(i as int)),
        decreases segments@.len() - i,
    {
        let segment = segments[i].as_str();
        assert(segment@ == all[i as int]);
        assert(all.skip(i as int)[0] == all[i as int]);
        assert(all.skip(i as int).drop_first() =~= all.skip(i + 1));
        if !is_good_segment(segment) {
            let letters = text::chars_of(segment);
            if letters.len() == 0 {
                assert(segment@ =~= Seq::<char>::empty());
                return Err(KeyError::EmptySegment { key: key.to_string() });
            }
            return Err(KeyError::InvalidSegment { key: key.to_string(), segment: segment.to_string() });
        }
        i += 1;
    }
    assert(all.skip(i as int) =~= Seq::<Seq<char>>::empty());
    Ok(())
}

/// Whether, from position `i` on, `s` goes on with a segment and ends with one.
spec fn dotted_from(s: Seq<char>, i: int) -> bool
    decreases s.len() - i,
{
    &&& 0 <= i < s.len()
    &&& is_key_char(s[i])
    &&& (i + 1 == s.len() || dotted_from(
        s,
        if s[i + 1] == '.' {
            i + 2
        } else {
            i + 1
        },
    ))
}

/// A text that reads as segments and dots from its start to its end is a key.
proof fn lemma_dotted(s: Seq<char>, i: int)
    requires
        dotted_from(s, i),
    ensures
        valid_key(s.skip(i)),
    decreases s.len() - i,
{
    let t = s.skip(i);
    let all = scan::pieces(t, '.');
    let rest = t.drop_first();
    reveal_with_fuel(scan::find, 2);
    scan::lemma_find(t, '.');
    scan::lemma_find(rest, '.');
    if i + 1 == s.len() {
        assert(all =~= seq![t]);
        assert(all.drop_first() =~= Seq::<Seq<char>>::empty());
        assert(good_segment(all[0]));
        reveal_with_fuel(first_fault, 2);
    } else if s[i + 1] == '.' {
        lemma_dotted(s, i + 2);
        assert(t.skip(2) =~= s.skip(i + 2));
        assert(all[0] =~= seq![s[i]]);
        assert(good_segment(all[0]));
        assert(all.drop_first() =~= scan::pieces(t.skip(2), '.'));
    } else {
        lemma_dotted(s, i + 1);
        assert(rest =~= s.skip(i + 1));
        let tail = scan::pieces(rest, '.');
        assert(good_segment(tail[0]));
        let n = scan::find(rest, '.') as int;
        assert(scan::find(t, '.') == 1 + n);
        if n < rest.len() {
            assert(t.skip(n + 2) =~= rest.skip(n + 1));
            assert(all.drop_first() =~= tail.drop_first());
            assert(all[0] =~= seq![s[i]] + tail[0]);
        } else {
            assert(all =~= seq![t]);
            assert(all[0] =~= seq![s[i]] + tail[0]);
            assert(all.drop_first() =~= tail.drop_first());
        }
        assert forall|k: int| 0 <= k < all[0].len() implies is_key_char(#[trigger] all[0][k]) by {
            if k > 0 {
                assert(all[0][k] == tail[0][k - 1]);
            }
        }
        assert(good_segment(all[0]));
        assert(first_fault(tail) == first_fault(tail.drop_first()));
        assert(first_fault(all) == first_fault(all.drop_first()));
    }
}

/// A text that reads as segments and dots is a key.
proof fn lemma_key(s: Seq<char>)
    requires
        dotted_from(s, 0),
    ensures
        valid_key(s),
{
    lemma_dotted(s, 0);
    assert(s.skip(0) =~= s);
}

proof fn lemma_desktop_keys()
    ensures
        valid_key(HARDWARE_BRIGHTNESS@),
        valid_key(HARDWARE_KBD_ILLUM@),
        valid_key(AUDIO_VOLUME@),
        valid_key(CONTEXT_FOCUS_CLASS@),
        valid_key(CONTEXT_FOCUS_TITLE@),
        valid_key(MEDIA_ACTIVE_PLAYER@),
        valid_key(MEDIA_ACTIVE_TRACK_ID@),
        valid_key(MEDIA_ACTIVE_STATUS@),
        valid_key(MEDIA_ACTIVE_TITLE@),
        valid_key(MEDIA_ACTIVE_ART_URL@),
        valid_key(MEDIA_ACTIVE_LENGTH@),
        valid_key(MEDIA_ACTIVE_POSITION@),
        valid_key(CHROMIUM_MEDIA_ACTIVE@),
        valid_key(CHROMIUM_TABS_AVAILABLE@),
        valid_key(CHROMIUM_TABS_JSON@),
        valid_key(CHROMIUM_TABS_COUNT@),
        valid_key(CHROMIUM_TABS_ACTIVE_INDEX@),
{
    reveal_with_fuel(dotted_from, 30);
    assert(valid_key(HARDWARE_BRIGHTNESS@)) by {
        reveal_strlit("hardware.brightness");
        lemma_key(HARDWARE_BRIGHTNESS@);
    }
    assert(valid_key(HARDWARE_KBD_ILLUM@)) by {
        reveal_strlit("hardware.kbd_illum");
        lemma_key(HARDWARE_KBD_ILLUM@);
    }
    assert(valid_key(AUDIO_VOLUME@)) by {
        reveal_strlit("audio.volume");
        lemma_key(AUDIO_VOLUME@);
    }
    assert(valid_key(CONTEXT_FOCUS_CLASS@)) by {
        reveal_strlit("context.focus.class");
        lemma_key(CONTEXT_FOCUS_CLASS@);
    }
    assert(valid_key(CONTEXT_FOCUS_TITLE@)) by {
        reveal_strlit("context.focus.title");
        lemma_key(CONTEXT_FOCUS_TITLE@);
    }
    assert(valid_key(MEDIA_ACTIVE_PLAYER@)) by {
        reveal_strlit("media.active.player");
        lemma_key(MEDIA_ACTIVE_PLAYER@);
    }
    assert(valid_key(MEDIA_ACTIVE_TRACK_ID@)) by {
        reveal_strlit("media.active.track_id");
        lemma_key(MEDIA_ACTIVE_TRACK_ID@);
    }
    assert(valid_key(MEDIA_ACTIVE_STATUS@)) by {
        reveal_strlit("media.active.status");
        lemma_key(MEDIA_ACTIVE_STATUS@);
    }
    assert(valid_key(MEDIA_ACTIVE_TITLE@)) by {
        reveal_strlit("media.active.title");
        lemma_key(MEDIA_ACTIVE_TITLE@);
    }
    assert(valid_key(MEDIA_ACTIVE_ART_URL@)) by {
        reveal_strlit("media.active.art_url");
        lemma_key(MEDIA_ACTIVE_ART_URL@);
    }
    assert(valid_key(MEDIA_ACTIVE_LENGTH@)) by {
        reveal_strlit("media.active.length");
        lemma_key(MEDIA_ACTIVE_LENGTH@);
    }
    assert(valid_key(MEDIA_ACTIVE_POSITION@)) by {
        reveal_strlit("media.active.position");
        lemma_key(MEDIA_ACTIVE_POSITION@);
    }
    assert(valid_key(CHROMIUM_MEDIA_ACTIVE@)) by {
        reveal_strlit("chromium.media.active");
        lemma_key(CHROMIUM_MEDIA_ACTIVE@);
    }
    assert(valid_key(CHROMIUM_TABS_AVAILABLE@)) by {
        reveal_strlit("chromium.tabs.available");
        lemma_key(CHROMIUM_TABS_AVAILABLE@);
    }
    assert(valid_key(CHROMIUM_TABS_JSON@)) by {
        reveal_strlit("chromium.tabs.json");
        lemma_key(CHROMIUM_TABS_JSON@);
    }
    assert(valid_key(CHROMIUM_TABS_COUNT@)) by {
        reveal_strlit("chromium.tabs.count");
        lemma_key(CHROMIUM_TABS_COUNT@);
    }
    assert(valid_key(CHROMIUM_TABS_ACTIVE_INDEX@)) by {
        reveal_strlit("chromium.tabs.active_index");
        lemma_key(CHROMIUM_TABS_ACTIVE_INDEX@);
    }
}

proof fn lemma_nvim_keys()
    ensures
        valid_key(NVIM_BRIDGE_AVAILABLE@),
        valid_key(NVIM_BRIDGE_SOCKET@),
        valid_key(NVIM_PID@),
        valid_key(NVIM_CWD@),
        valid_key(NVIM_FILE@),
        valid_key(NVIM_FILETYPE@),
        valid_key(NVIM_MODE@),
        valid_key(NVIM_DAP_ACTIVE@),
        valid_key(NVIM_DAP_STATE@),
        valid_key(NVIM_DAP_ADAPTER@),
        valid_key(NVIM_DAP_SESSION@),
        valid_key(NVIM_DAPUI_AVAILABLE@),
        valid_key(NVIM_DAPUI_VISIBLE@),
        valid_key(NVIM_NEOTEST_AVAILABLE@),
        valid_key(NVIM_NEOTEST_SUMMARY_VISIBLE@),
        valid_key(NVIM_NEOTEST_UPDATED_AT_MS@),
        valid_key(NVIM_DBUI_AVAILABLE@),
        valid_key(NVIM_DBUI_VISIBLE@),
        valid_key(NVIM_DBUI_IN_BUFFER@),
        valid_key(NVIM_DBUI_CONNECTIONS_JSON@),
{
    reveal_with_fuel(dotted_from, 30);
    assert(valid_key(NVIM_BRIDGE_AVAILABLE@)) by {
        reveal_strlit("nvim.bridge.available");
        lemma_key(NVIM_BRIDGE_AVAILABLE@);
    }
    assert(valid_key(NVIM_BRIDGE_SOCKET@)) by {
        reveal_strlit("nvim.bridge.socket");
        lemma_key(NVIM_BRIDGE_SOCKET@);
    }
    assert(valid_key(NVIM_PID@)) by {
        reveal_strlit("nvim.pid");
        lemma_key(NVIM_PID@);
    }
    assert(valid_key(NVIM_CWD@)) by {
        reveal_strlit("nvim.cwd");
        lemma_key(NVIM_CWD@);
    }
    assert(valid_key(NVIM_FILE@)) by {
        reveal_strlit("nvim.file");
        lemma_key(NVIM_FILE@);
    }
    assert(valid_key(NVIM_FILETYPE@)) by {
        reveal_strlit("nvim.filetype");
        lemma_key(NVIM_FILETYPE@);
    }
    assert(valid_key(NVIM_MODE@)) by {
        reveal_strlit("nvim.mode");
        lemma_key(NVIM_MODE@);
    }
    assert(valid_key(NVIM_DAP_ACTIVE@)) by {
        reveal_strlit("nvim.dap.active");
        lemma_key(NVIM_DAP_ACTIVE@);
    }
    assert(valid_key(NVIM_DAP_STATE@)) by {
        reveal_strlit("nvim.dap.state");
        lemma_key(NVIM_DAP_STATE@);
    }
    assert(valid_key(NVIM_DAP_ADAPTER@)) by {
        reveal_strlit("nvim.dap.adapter");
        lemma_key(NVIM_DAP_ADAPTER@);
    }
    assert(valid_key(NVIM_DAP_SESSION@)) by {
        reveal_strlit("nvim.dap.session");
        lemma_key(NVIM_DAP_SESSION@);
    }
    assert(valid_key(NVIM_DAPUI_AVAILABLE@)) by {
        reveal_strlit("nvim.dapui.available");
        lemma_key(NVIM_DAPUI_AVAILABLE@);
    }
    assert(valid_key(NVIM_DAPUI_VISIBLE@)) by {
        reveal_strlit("nvim.dapui.visible");
        lemma_key(NVIM_DAPUI_VISIBLE@);
    }
    assert(valid_key(NVIM_NEOTEST_AVAILABLE@)) by {
        reveal_strlit("nvim.neotest.available");
        lemma_key(NVIM_NEOTEST_AVAILABLE@);
    }
    assert(valid_key(NVIM_NEOTEST_SUMMARY_VISIBLE@)) by {
        reveal_strlit("nvim.neotest.summary_visible");
        lemma_key(NVIM_NEOTEST_SUMMARY_VISIBLE@);
    }
    assert(valid_key(NVIM_NEOTEST_UPDATED_AT_MS@)) by {
        reveal_strlit("nvim.neotest.updated_at_ms");
        lemma_key(NVIM_NEOTEST_UPDATED_AT_MS@);
    }
    assert(valid_key(NVIM_DBUI_AVAILABLE@)) by {
        reveal_strlit("nvim.dbui.available");
        lemma_key(NVIM_DBUI_AVAILABLE@);
    }
    assert(valid_key(NVIM_DBUI_VISIBLE@)) by {
        reveal_strlit("nvim.dbui.visible");
        lemma_key(NVIM_DBUI_VISIBLE@);
    }
    assert(valid_key(NVIM_DBUI_IN_BUFFER@)) by {
        reveal_strlit("nvim.dbui.in_buffer");
        lemma_key(NVIM_DBUI_IN_BUFFER@);
    }
    assert(valid_key(NVIM_DBUI_CONNECTIONS_JSON@)) by {
        reveal_strlit("nvim.dbui.connections_json");
        lemma_key(NVIM_DBUI_CONNECTIONS_JSON@);
    }
}

proof fn lemma_pi_keys()
    ensures
        valid_key(PI_MODEL@),
        valid_key(PI_PROVIDER@),
        valid_key(PI_THINKING@),
        valid_key(PI_WORKFLOW_MODE@),
{
    reveal_with_fuel(dotted_from, 30);
    assert(valid_key(PI_MODEL@)) by {
        reveal_strlit("pi.model");
        lemma_key(PI_MODEL@);
    }
    assert(valid_key(PI_PROVIDER@)) by {
        reveal_strlit("pi.provider");
        lemma_key(PI_PROVIDER@);
    }
    assert(valid_key(PI_THINKING@)) by {
        reveal_strlit("pi.thinking");
        lemma_key(PI_THINKING@);
    }
    assert(valid_key(PI_WORKFLOW_MODE@)) by {
        reveal_strlit("pi.workflow.mode");
        lemma_key(PI_WORKFLOW_MODE@);
    }
}

proof fn lemma_terminal_keys()
    ensures
        valid_key(TERMINAL_AVAILABLE@),
        valid_key(TERMINAL_NAME@),
        valid_key(TERMINAL_KIND@),
        valid_key(TERMINAL_ROOT_PID@),
        valid_key(TERMINAL_COMMAND@),
        valid_key(TERMINAL_CWD@),
        valid_key(TERMINAL_APP@),
        valid_key(TERMINAL_APP_PID@),
        valid_key(TERMINAL_NVIM_PID@),
{
    reveal_with_fuel(dotted_from, 30);
    assert(valid_key(TERMINAL_AVAILABLE@)) by {
        reveal_strlit("terminal.available");
        lemma_key(TERMINAL_AVAILABLE@);
    }
    assert(valid_key(TERMINAL_NAME@)) by {
        reveal_strlit("terminal.name");
        lemma_key(TERMINAL_NAME@);
    }
    assert(valid_key(TERMINAL_KIND@)) by {
        reveal_strlit("terminal.kind");
        lemma_key(TERMINAL_KIND@);
    }
    assert(valid_key(TERMINAL_ROOT_PID@)) by {
        reveal_strlit("terminal.root_pid");
        lemma_key(TERMINAL_ROOT_PID@);
    }
    assert(valid_key(TERMINAL_COMMAND@)) by {
        reveal_strlit("terminal.command");
        lemma_key(TERMINAL_COMMAND@);
    }
    assert(valid_key(TERMINAL_CWD@)) by {
        reveal_strlit("terminal.cwd");
        lemma_key(TERMINAL_CWD@);
    }
    assert(valid_key(TERMINAL_APP@)) by {
        reveal_strlit("terminal.app");
        lemma_key(TERMINAL_APP@);
    }
    assert(valid_key(TERMINAL_APP_PID@)) by {
        reveal_strlit("terminal.app_pid");
        lemma_key(TERMINAL_APP_PID@);
    }
    assert(valid_key(TERMINAL_NVIM_PID@)) by {
        reveal_strlit("terminal.nvim_pid");
        lemma_key(TERMINAL_NVIM_PID@);
    }
}

proof fn lemma_tmux_keys()
    ensures
        valid_key(TERMINAL_TMUX_CLIENT_PID@),
        valid_key(TERMINAL_TMUX_CLIENT_TTY@),
        valid_key(TERMINAL_TMUX_SESSION@),
        valid_key(TERMINAL_TMUX_WINDOW@),
        valid_key(TERMINAL_TMUX_PANE_INDEX@),
        valid_key(TERMINAL_TMUX_PANE_ID@),
        valid_key(TERMINAL_TMUX_PANE_PID@),
        valid_key(TERMINAL_TMUX_PANE_COMMAND@),
        valid_key(TERMINAL_TMUX_PANE_PATH@),
        valid_key(TERMINAL_TMUX_PANE_TITLE@),
{
    reveal_with_fuel(dotted_from, 30);
    assert(valid_key(TERMINAL_TMUX_CLIENT_PID@)) by {
        reveal_strlit("terminal.tmux.client_pid");
        lemma_key(TERMINAL_TMUX_CLIENT_PID@);
    }
    assert(valid_key(TERMINAL_TMUX_CLIENT_TTY@)) by {
        reveal_strlit("terminal.tmux.client_tty");
        lemma_key(TERMINAL_TMUX_CLIENT_TTY@);
    }
    assert(valid_key(TERMINAL_TMUX_SESSION@)) by {
        reveal_strlit("terminal.tmux.session");
        lemma_key(TERMINAL_TMUX_SESSION@);
    }
    assert(valid_key(TERMINAL_TMUX_WINDOW@)) by {
        reveal_strlit("terminal.tmux.window");
        lemma_key(TERMINAL_TMUX_WINDOW@);
    }
    assert(valid_key(TERMINAL_TMUX_PANE_INDEX@)) by {
        reveal_strlit("terminal.tmux.pane_index");
        lemma_key(TERMINAL_TMUX_PANE_INDEX@);
    }
    assert(valid_key(TERMINAL_TMUX_PANE_ID@)) by {
        reveal_strlit("terminal.tmux.pane_id");
        lemma_key(TERMINAL_TMUX_PANE_ID@);
    }
    assert(valid_key(TERMINAL_TMUX_PANE_PID@)) by {
        reveal_strlit("terminal.tmux.pane_pid");
        lemma_key(TERMINAL_TMUX_PANE_PID@);
    }
    assert(valid_key(TERMINAL_TMUX_PANE_COMMAND@)) by {
        reveal_strlit("terminal.tmux.pane_command");
        lemma_key(TERMINAL_TMUX_PANE_COMMAND@);
    }
    assert(valid_key(TERMINAL_TMUX_PANE_PATH@)) by {
        reveal_strlit("terminal.tmux.pane_path");
        lemma_key(TERMINAL_TMUX_PANE_PATH@);
    }
    assert(valid_key(TERMINAL_TMUX_PANE_TITLE@)) by {
        reveal_strlit("terminal.tmux.pane_title");
        lemma_key(TERMINAL_TMUX_PANE_TITLE@);
    }
}

/// Every built-in key is valid, so that setting one never fails.
pub proof fn law_built_in_keys_are_valid()
    ensures
        valid_key(HARDWARE_BRIGHTNESS@),
        valid_key(HARDWARE_KBD_ILLUM@),
        valid_key(AUDIO_VOLUME@),
        valid_key(CONTEXT_FOCUS_CLASS@),
        valid_key(CONTEXT_FOCUS_TITLE@),
        valid_key(MEDIA_ACTIVE_PLAYER@),
        valid_key(MEDIA_ACTIVE_TRACK_ID@),
        valid_key(MEDIA_ACTIVE_STATUS@),
        valid_key(MEDIA_ACTIVE_TITLE@),
        valid_key(MEDIA_ACTIVE_ART_URL@),
        valid_key(MEDIA_ACTIVE_LENGTH@),
        valid_key(MEDIA_ACTIVE_POSITION@),
        valid_key(CHROMIUM_MEDIA_ACTIVE@),
        valid_key(CHROMIUM_TABS_AVAILABLE@),
        valid_key(CHROMIUM_TABS_JSON@),
        valid_key(CHROMIUM_TABS_COUNT@),
        valid_key(CHROMIUM_TABS_ACTIVE_INDEX@),
        valid_key(NVIM_BRIDGE_AVAILABLE@),
        valid_key(NVIM_BRIDGE_SOCKET@),
        valid_key(NVIM_PID@),
        valid_key(NVIM_CWD@),
        valid_key(NVIM_FILE@),
        valid_key(NVIM_FILETYPE@),
        valid_key(NVIM_MODE@),
        valid_key(NVIM_DAP_ACTIVE@),
        valid_key(NVIM_DAP_STATE@),
        valid_key(NVIM_DAP_ADAPTER@),
        valid_key(NVIM_DAP_SESSION@),
        valid_key(NVIM_DAPUI_AVAILABLE@),
        valid_key(NVIM_DAPUI_VISIBLE@),
        valid_key(NVIM_NEOTEST_AVAILABLE@),
        valid_key(NVIM_NEOTEST_SUMMARY_VISIBLE@),
        valid_key(NVIM_NEOTEST_UPDATED_AT_MS@),
        valid_key(NVIM_DBUI_AVAILABLE@),
        valid_key(NVIM_DBUI_VISIBLE@),
        valid_key(NVIM_DBUI_IN_BUFFER@),
        valid_key(NVIM_DBUI_CONNECTIONS_JSON@),
        valid_key(PI_MODEL@),
        valid_key(PI_PROVIDER@),
        valid_key(PI_THINKING@),
        valid_key(PI_WORKFLOW_MODE@),
        valid_key(TERMINAL_AVAILABLE@),
        valid_key(TERMINAL_NAME@),
        valid_key(TERMINAL_KIND@),
        valid_key(TERMINAL_ROOT_PID@),
        valid_key(TERMINAL_COMMAND@),
        valid_key(TERMINAL_CWD@),
        valid_key(TERMINAL_APP@),
        valid_key(TERMINAL_APP_PID@),
        valid_key(TERMINAL_NVIM_PID@),
        valid_key(TERMINAL_TMUX_CLIENT_PID@),
        valid_key(TERMINAL_TMUX_CLIENT_TTY@),
        valid_key(TERMINAL_TMUX_SESSION@),
        valid_key(TERMINAL_TMUX_WINDOW@),
        valid_key(TERMINAL_TMUX_PANE_INDEX@),
        valid_key(TERMINAL_TMUX_PANE_ID@),
        valid_key(TERMINAL_TMUX_PANE_PID@),
        valid_key(TERMINAL_TMUX_PANE_COMMAND@),
        valid_key(TERMINAL_TMUX_PANE_PATH@),
        valid_key(TERMINAL_TMUX_PANE_TITLE@),
        valid_key(BROWSER_TABS_AVAILABLE@),
        valid_key(BROWSER_TABS_JSON@),
        valid_key(BROWSER_TABS_ACTIVE_INDEX@),
{
    lemma_desktop_keys();
    lemma_nvim_keys();
    lemma_pi_keys();
    lemma_terminal_keys();
    lemma_tmux_keys();
}

/// No other built-in key is that of the focused window's class.
pub proof fn law_class_key_is_unique()
    ensures
        HARDWARE_BRIGHTNESS@ != CONTEXT_FOCUS_CLASS@,
        HARDWARE_KBD_ILLUM@ != CONTEXT_FOCUS_CLASS@,
        AUDIO_VOLUME@ != CONTEXT_FOCUS_CLASS@,
        CONTEXT_FOCUS_TITLE@ != CONTEXT_FOCUS_CLASS@,
        MEDIA_ACTIVE_PLAYER@ != CONTEXT_FOCUS_CLASS@,
        MEDIA_ACTIVE_TRACK_ID@ != CONTEXT_FOCUS_CLASS@,
        MEDIA_ACTIVE_STATUS@ != CONTEXT_FOCUS_CLASS@,
        MEDIA_ACTIVE_TITLE@ != CONTEXT_FOCUS_CLASS@,
        MEDIA_ACTIVE_ART_URL@ != CONTEXT_FOCUS_CLASS@,
        MEDIA_ACTIVE_LENGTH@ != CONTEXT_FOCUS_CLASS@,
        MEDIA_ACTIVE_POSITION@ != CONTEXT_FOCUS_CLASS@,
        CHROMIUM_MEDIA_ACTIVE@ != CONTEXT_FOCUS_CLASS@,
        CHROMIUM_TABS_AVAILABLE@ != CONTEXT_FOCUS_CLASS@,
        CHROMIUM_TABS_JSON@ != CONTEXT_FOCUS_CLASS@,
        CHROMIUM_TABS_COUNT@ != CONTEXT_FOCUS_CLASS@,
        CHROMIUM_TABS_ACTIVE_INDEX@ != CONTEXT_FOCUS_CLASS@,
        NVIM_BRIDGE_AVAILABLE@ != CONTEXT_FOCUS_CLASS@,
        NVIM_BRIDGE_SOCKET@ != CONTEXT_FOCUS_CLASS@,
        NVIM_PID@ != CONTEXT_FOCUS_CLASS@,
        NVIM_CWD@ != CONTEXT_FOCUS_CLASS@,
        NVIM_FILE@ != CONTEXT_FOCUS_CLASS@,
        NVIM_FILETYPE@ != CONTEXT_FOCUS_CLASS@,
        NVIM_MODE@ != CONTEXT_FOCUS_CLASS@,
        NVIM_DAP_ACTIVE@ != CONTEXT_FOCUS_CLASS@,
        NVIM_DAP_STATE@ != CONTEXT_FOCUS_CLASS@,
        NVIM_DAP_ADAPTER@ != CONTEXT_FOCUS_CLASS@,
        NVIM_DAP_SESSION@ != CONTEXT_FOCUS_CLASS@,
        NVIM_DAPUI_AVAILABLE@ != CONTEXT_FOCUS_CLASS@,
        NVIM_DAPUI_VISIBLE@ != CONTEXT_FOCUS_CLASS@,
        NVIM_NEOTEST_AVAILABLE@ != CONTEXT_FOCUS_CLASS@,
        NVIM_NEOTEST_SUMMARY_VISIBLE@ != CONTEXT_FOCUS_CLASS@,
        NVIM_NEOTEST_UPDATED_AT_MS@ != CONTEXT_FOCUS_CLASS@,
        NVIM_DBUI_AVAILABLE@ != CONTEXT_FOCUS_CLASS@,
        NVIM_DBUI_VISIBLE@ != CONTEXT_FOCUS_CLASS@,
        NVIM_DBUI_IN_BUFFER@ != CONTEXT_FOCUS_CLASS@,
        NVIM_DBUI_CONNECTIONS_JSON@ != CONTEXT_FOCUS_CLASS@,
        PI_MODEL@ != CONTEXT_FOCUS_CLASS@,
        PI_PROVIDER@ != CONTEXT_FOCUS_CLASS@,
        PI_THINKING@ != CONTEXT_FOCUS_CLASS@,
        PI_WORKFLOW_MODE@ != CONTEXT_FOCUS_CLASS@,
        TERMINAL_AVAILABLE@ != CONTEXT_FOCUS_CLASS@,
        TERMINAL_NAME@ != CONTEXT_FOCUS_CLASS@,
        TERMINAL_KIND@ != CONTEXT_FOCUS_CLASS@,
        TERMINAL_ROOT_PID@ != CONTEXT_FOCUS_CLASS@,
        TERMINAL_COMMAND@ != CONTEXT_FOCUS_CLASS@,
        TERMINAL_CWD@ != CONTEXT_FOCUS_CLASS@,
        TERMINAL_APP@ != CONTEXT_FOCUS_CLASS@,
        TERMINAL_APP_PID@ != CONTEXT_FOCUS_CLASS@,
        TERMINAL_NVIM_PID@ != CONTEXT_FOCUS_CLASS@,
        TERMINAL_TMUX_CLIENT_PID@ != CONTEXT_FOCUS_CLASS@,
        TERMINAL_TMUX_CLIENT_TTY@ != CONTEXT_FOCUS_CLASS@,
        TERMINAL_TMUX_SESSION@ != CONTEXT_FOCUS_CLASS@,
        TERMINAL_TMUX_WINDOW@ != CONTEXT_FOCUS_CLASS@,
        TERMINAL_TMUX_PANE_INDEX@ != CONTEXT_FOCUS_CLASS@,
        TERMINAL_TMUX_PANE_ID@ != CONTEXT_FOCUS_CLASS@,
        TERMINAL_TMUX_PANE_PID@ != CONTEXT_FOCUS_CLASS@,
        TERMINAL_TMUX_PANE_COMMAND@ != CONTEXT_FOCUS_CLASS@,
        TERMINAL_TMUX_PANE_PATH@ != CONTEXT_FOCUS_CLASS@,
        TERMINAL_TMUX_PANE_TITLE@ != CONTEXT_FOCUS_CLASS@,
{
    reveal_strlit("context.focus.class");
    let class = CONTEXT_FOCUS_CLASS@;
    assert(class.len() == 19 && class[0] == 'c' && class[1] == 'o' && class[14] == 'c');
    assert(HARDWARE_BRIGHTNESS@ != class) by {
        reveal_strlit("hardware.brightness");
        assert(HARDWARE_BRIGHTNESS@[0] != class[0]);
    }
    assert(HARDWARE_KBD_ILLUM@ != class) by {
        reveal_strlit("hardware.kbd_illum");
        assert(HARDWARE_KBD_ILLUM@[0] != class[0]);
    }
    assert(AUDIO_VOLUME@ != class) by {
        reveal_strlit("audio.volume");
        assert(AUDIO_VOLUME@[0] != class[0]);
    }
    assert(CONTEXT_FOCUS_TITLE@ != class) by {
        reveal_strlit("context.focus.title");
        assert(CONTEXT_FOCUS_TITLE@[14] != class[14]);
    }
    assert(MEDIA_ACTIVE_PLAYER@ != class) by {
        reveal_strlit("media.active.player");
        assert(MEDIA_ACTIVE_PLAYER@[0] != class[0]);
    }
    assert(MEDIA_ACTIVE_TRACK_ID@ != class) by {
        reveal_strlit("media.active.track_id");
        assert(MEDIA_ACTIVE_TRACK_ID@[0] != class[0]);
    }
    assert(MEDIA_ACTIVE_STATUS@ != class) by {
        reveal_strlit("media.active.status");
        assert(MEDIA_ACTIVE_STATUS@[0] != class[0]);
    }
    assert(MEDIA_ACTIVE_TITLE@ != class) by {
        reveal_strlit("media.active.title");
        assert(MEDIA_ACTIVE_TITLE@[0] != class[0]);
    }
    assert(MEDIA_ACTIVE_ART_URL@ != class) by {
        reveal_strlit("media.active.art_url");
        assert(MEDIA_ACTIVE_ART_URL@[0] != class[0]);
    }
    assert(MEDIA_ACTIVE_LENGTH@ != class) by {
        reveal_strlit("media.active.length");
        assert(MEDIA_ACTIVE_LENGTH@[0] != class[0]);
    }
    assert(MEDIA_ACTIVE_POSITION@ != class) by {
        reveal_strlit("media.active.position");
        assert(MEDIA_ACTIVE_POSITION@[0] != class[0]);
    }
    assert(CHROMIUM_MEDIA_ACTIVE@ != class) by {
        reveal_strlit("chromium.media.active");
        assert(CHROMIUM_MEDIA_ACTIVE@[1] != class[1]);
    }
    assert(CHROMIUM_TABS_AVAILABLE@ != class) by {
        reveal_strlit("chromium.tabs.available");
        assert(CHROMIUM_TABS_AVAILABLE@[1] != class[1]);
    }
    assert(CHROMIUM_TABS_JSON@ != class) by {
        reveal_strlit("chromium.tabs.json");
        assert(CHROMIUM_TABS_JSON@[1] != class[1]);
    }
    assert(CHROMIUM_TABS_COUNT@ != class) by {
        reveal_strlit("chromium.tabs.count");
        assert(CHROMIUM_TABS_COUNT@[1] != class[1]);
    }
    assert(CHROMIUM_TABS_ACTIVE_INDEX@ != class) by {
        reveal_strlit("chromium.tabs.active_index");
        assert(CHROMIUM_TABS_ACTIVE_INDEX@[1] != class[1]);
    }
    assert(NVIM_BRIDGE_AVAILABLE@ != class) by {
        reveal_strlit("nvim.bridge.available");
        assert(NVIM_BRIDGE_AVAILABLE@[0] != class[0]);
    }
    assert(NVIM_BRIDGE_SOCKET@ != class) by {
        reveal_strlit("nvim.bridge.socket");
        assert(NVIM_BRIDGE_SOCKET@[0] != class[0]);
    }
    assert(NVIM_PID@ != class) by {
        reveal_strlit("nvim.pid");
        assert(NVIM_PID@[0] != class[0]);
    }
    assert(NVIM_CWD@ != class) by {
        reveal_strlit("nvim.cwd");
        assert(NVIM_CWD@[0] != class[0]);
    }
    assert(NVIM_FILE@ != class) by {
        reveal_strlit("nvim.file");
        assert(NVIM_FILE@[0] != class[0]);
    }
    assert(NVIM_FILETYPE@ != class) by {
        reveal_strlit("nvim.filetype");
        assert(NVIM_FILETYPE@[0] != class[0]);
    }
    assert(NVIM_MODE@ != class) by {
        reveal_strlit("nvim.mode");
        assert(NVIM_MODE@[0] != class[0]);
    }
    assert(NVIM_DAP_ACTIVE@ != class) by {
        reveal_strlit("nvim.dap.active");
        assert(NVIM_DAP_ACTIVE@[0] != class[0]);
    }
    assert(NVIM_DAP_STATE@ != class) by {
        reveal_strlit("nvim.dap.state");
        assert(NVIM_DAP_STATE@[0] != class[0]);
    }
    assert(NVIM_DAP_ADAPTER@ != class) by {
        reveal_strlit("nvim.dap.adapter");
        assert(NVIM_DAP_ADAPTER@[0] != class[0]);
    }
    assert(NVIM_DAP_SESSION@ != class) by {
        reveal_strlit("nvim.dap.session");
        assert(NVIM_DAP_SESSION@[0] != class[0]);
    }
    assert(NVIM_DAPUI_AVAILABLE@ != class) by {
        reveal_strlit("nvim.dapui.available");
        assert(NVIM_DAPUI_AVAILABLE@[0] != class[0]);
    }
    assert(NVIM_DAPUI_VISIBLE@ != class) by {
        reveal_strlit("nvim.dapui.visible");
        assert(NVIM_DAPUI_VISIBLE@[0] != class[0]);
    }
    assert(NVIM_NEOTEST_AVAILABLE@ != class) by {
        reveal_strlit("nvim.neotest.available");
        assert(NVIM_NEOTEST_AVAILABLE@[0] != class[0]);
    }
    assert(NVIM_NEOTEST_SUMMARY_VISIBLE@ != class) by {
        reveal_strlit("nvim.neotest.summary_visible");
        assert(NVIM_NEOTEST_SUMMARY_VISIBLE@[0] != class[0]);
    }
    assert(NVIM_NEOTEST_UPDATED_AT_MS@ != class) by {
        reveal_strlit("nvim.neotest.updated_at_ms");
        assert(NVIM_NEOTEST_UPDATED_AT_MS@[0] != class[0]);
    }
    assert(NVIM_DBUI_AVAILABLE@ != class) by {
        reveal_strlit("nvim.dbui.available");
        assert(NVIM_DBUI_AVAILABLE@[0] != class[0]);
    }
    assert(NVIM_DBUI_VISIBLE@ != class) by {
        reveal_strlit("nvim.dbui.visible");
        assert(NVIM_DBUI_VISIBLE@[0] != class[0]);
    }
    assert(NVIM_DBUI_IN_BUFFER@ != class) by {
        reveal_strlit("nvim.dbui.in_buffer");
        assert(NVIM_DBUI_IN_BUFFER@[0] != class[0]);
    }
    assert(NVIM_DBUI_CONNECTIONS_JSON@ != class) by {
        reveal_strlit("nvim.dbui.connections_json");
        assert(NVIM_DBUI_CONNECTIONS_JSON@[0] != class[0]);
    }
    assert(PI_MODEL@ != class) by {
        reveal_strlit("pi.model");
        assert(PI_MODEL@[0] != class[0]);
    }
    assert(PI_PROVIDER@ != class) by {
        reveal_strlit("pi.provider");
        assert(PI_PROVIDER@[0] != class[0]);
    }
    assert(PI_THINKING@ != class) by {
        reveal_strlit("pi.thinking");
        assert(PI_THINKING@[0] != class[0]);
    }
    assert(PI_WORKFLOW_MODE@ != class) by {
        reveal_strlit("pi.workflow.mode");
        assert(PI_WORKFLOW_MODE@[0] != class[0]);
    }
    assert(TERMINAL_AVAILABLE@ != class) by {
        reveal_strlit("terminal.available");
        assert(TERMINAL_AVAILABLE@[0] != class[0]);
    }
    assert(TERMINAL_NAME@ != class) by {
        reveal_strlit("terminal.name");
        assert(TERMINAL_NAME@[0] != class[0]);
    }
    assert(TERMINAL_KIND@ != class) by {
        reveal_strlit("terminal.kind");
        assert(TERMINAL_KIND@[0] != class[0]);
    }
    assert(TERMINAL_ROOT_PID@ != class) by {
        reveal_strlit("terminal.root_pid");
        assert(TERMINAL_ROOT_PID@[0] != class[0]);
    }
    assert(TERMINAL_COMMAND@ != class) by {
        reveal_strlit("terminal.command");
        assert(TERMINAL_COMMAND@[0] != class[0]);
    }
    assert(TERMINAL_CWD@ != class) by {
        reveal_strlit("terminal.cwd");
        assert(TERMINAL_CWD@[0] != class[0]);
    }
    assert(TERMINAL_APP@ != class) by {
        reveal_strlit("terminal.app");
        assert(TERMINAL_APP@[0] != class[0]);
    }
    assert(TERMINAL_APP_PID@ != class) by {
        reveal_strlit("terminal.app_pid");
        assert(TERMINAL_APP_PID@[0] != class[0]);
    }
    assert(TERMINAL_NVIM_PID@ != class) by {
        reveal_strlit("terminal.nvim_pid");
        assert(TERMINAL_NVIM_PID@[0] != class[0]);
    }
    assert(TERMINAL_TMUX_CLIENT_PID@ != class) by {
        reveal_strlit("terminal.tmux.client_pid");
        assert(TERMINAL_TMUX_CLIENT_PID@[0] != class[0]);
    }
    assert(TERMINAL_TMUX_CLIENT_TTY@ != class) by {
        reveal_strlit("terminal.tmux.client_tty");
        assert(TERMINAL_TMUX_CLIENT_TTY@[0] != class[0]);
    }
    assert(TERMINAL_TMUX_SESSION@ != class) by {
        reveal_strlit("terminal.tmux.session");
        assert(TERMINAL_TMUX_SESSION@[0] != class[0]);
    }
    assert(TERMINAL_TMUX_WINDOW@ != class) by {
        reveal_strlit("terminal.tmux.window");
        assert(TERMINAL_TMUX_WINDOW@[0] != class[0]);
    }
    assert(TERMINAL_TMUX_PANE_INDEX@ != class) by {
        reveal_strlit("terminal.tmux.pane_index");
        assert(TERMINAL_TMUX_PANE_INDEX@[0] != class[0]);
    }
    assert(TERMINAL_TMUX_PANE_ID@ != class) by {
        reveal_strlit("terminal.tmux.pane_id");
        assert(TERMINAL_TMUX_PANE_ID@[0] != class[0]);
    }
    assert(TERMINAL_TMUX_PANE_PID@ != class) by {
        reveal_strlit("terminal.tmux.pane_pid");
        assert(TERMINAL_TMUX_PANE_PID@[0] != class[0]);
    }
    assert(TERMINAL_TMUX_PANE_COMMAND@ != class) by {
        reveal_strlit("terminal.tmux.pane_command");
        assert(TERMINAL_TMUX_PANE_COMMAND@[0] != class[0]);
    }
    assert(TERMINAL_TMUX_PANE_PATH@ != class) by {
        reveal_strlit("terminal.tmux.pane_path");
        assert(TERMINAL_TMUX_PANE_PATH@[0] != class[0]);
    }
    assert(TERMINAL_TMUX_PANE_TITLE@ != class) by {
        reveal_strlit("terminal.tmux.pane_title");
        assert(TERMINAL_TMUX_PANE_TITLE@[0] != class[0]);
    }
}

/// No two of the media keys are the same.
pub proof fn law_media_keys_differ()
    ensures
        MEDIA_ACTIVE_PLAYER@ != MEDIA_ACTIVE_TRACK_ID@,
        MEDIA_ACTIVE_PLAYER@ != MEDIA_ACTIVE_STATUS@,
        MEDIA_ACTIVE_PLAYER@ != MEDIA_ACTIVE_TITLE@,
        MEDIA_ACTIVE_PLAYER@ != MEDIA_ACTIVE_ART_URL@,
        MEDIA_ACTIVE_PLAYER@ != MEDIA_ACTIVE_LENGTH@,
        MEDIA_ACTIVE_PLAYER@ != MEDIA_ACTIVE_POSITION@,
        MEDIA_ACTIVE_PLAYER@ != CHROMIUM_MEDIA_ACTIVE@,
        MEDIA_ACTIVE_TRACK_ID@ != MEDIA_ACTIVE_STATUS@,
        MEDIA_ACTIVE_TRACK_ID@ != MEDIA_ACTIVE_TITLE@,
        MEDIA_ACTIVE_TRACK_ID@ != MEDIA_ACTIVE_ART_URL@,
        MEDIA_ACTIVE_TRACK_ID@ != MEDIA_ACTIVE_LENGTH@,
        MEDIA_ACTIVE_TRACK_ID@ != MEDIA_ACTIVE_POSITION@,
        MEDIA_ACTIVE_TRACK_ID@ != CHROMIUM_MEDIA_ACTIVE@,
        MEDIA_ACTIVE_STATUS@ != MEDIA_ACTIVE_TITLE@,
        MEDIA_ACTIVE_STATUS@ != MEDIA_ACTIVE_ART_URL@,
        MEDIA_ACTIVE_STATUS@ != MEDIA_ACTIVE_LENGTH@,
        MEDIA_ACTIVE_STATUS@ != MEDIA_ACTIVE_POSITION@,
        MEDIA_ACTIVE_STATUS@ != CHROMIUM_MEDIA_ACTIVE@,
        MEDIA_ACTIVE_TITLE@ != MEDIA_ACTIVE_ART_URL@,
        MEDIA_ACTIVE_TITLE@ != MEDIA_ACTIVE_LENGTH@,
        MEDIA_ACTIVE_TITLE@ != MEDIA_ACTIVE_POSITION@,
        MEDIA_ACTIVE_TITLE@ != CHROMIUM_MEDIA_ACTIVE@,
        MEDIA_ACTIVE_ART_URL@ != MEDIA_ACTIVE_LENGTH@,
        MEDIA_ACTIVE_ART_URL@ != MEDIA_ACTIVE_POSITION@,
        MEDIA_ACTIVE_ART_URL@ != CHROMIUM_MEDIA_ACTIVE@,
        MEDIA_ACTIVE_LENGTH@ != MEDIA_ACTIVE_POSITION@,
        MEDIA_ACTIVE_LENGTH@ != CHROMIUM_MEDIA_ACTIVE@,
        MEDIA_ACTIVE_POSITION@ != CHROMIUM_MEDIA_ACTIVE@,
{
    reveal_strlit("media.active.player");
    reveal_strlit("media.active.track_id");
    reveal_strlit("media.active.status");
    reveal_strlit("media.active.title");
    reveal_strlit("media.active.art_url");
    reveal_strlit("media.active.length");
    reveal_strlit("media.active.position");
    reveal_strlit("chromium.media.active");
    assert(MEDIA_ACTIVE_PLAYER@.len() != MEDIA_ACTIVE_TRACK_ID@.len());
    assert(MEDIA_ACTIVE_PLAYER@[13] != MEDIA_ACTIVE_STATUS@[13]);
    assert(MEDIA_ACTIVE_PLAYER@.len() != MEDIA_ACTIVE_TITLE@.len());
    assert(MEDIA_ACTIVE_PLAYER@.len() != MEDIA_ACTIVE_ART_URL@.len());
    assert(MEDIA_ACTIVE_PLAYER@[13] != MEDIA_ACTIVE_LENGTH@[13]);
    assert(MEDIA_ACTIVE_PLAYER@.len() != MEDIA_ACTIVE_POSITION@.len());
    assert(MEDIA_ACTIVE_PLAYER@.len() != CHROMIUM_MEDIA_ACTIVE@.len());
    assert(MEDIA_ACTIVE_TRACK_ID@.len() != MEDIA_ACTIVE_STATUS@.len());
    assert(MEDIA_ACTIVE_TRACK_ID@.len() != MEDIA_ACTIVE_TITLE@.len());
    assert(MEDIA_ACTIVE_TRACK_ID@.len() != MEDIA_ACTIVE_ART_URL@.len());
    assert(MEDIA_ACTIVE_TRACK_ID@.len() != MEDIA_ACTIVE_LENGTH@.len());
    assert(MEDIA_ACTIVE_TRACK_ID@[13] != MEDIA_ACTIVE_POSITION@[13]);
    assert(MEDIA_ACTIVE_TRACK_ID@[0] != CHROMIUM_MEDIA_ACTIVE@[0]);
    assert(MEDIA_ACTIVE_STATUS@.len() != MEDIA_ACTIVE_TITLE@.len());
    assert(MEDIA_ACTIVE_STATUS@.len() != MEDIA_ACTIVE_ART_URL@.len());
    assert(MEDIA_ACTIVE_STATUS@[13] != MEDIA_ACTIVE_LENGTH@[13]);
    assert(MEDIA_ACTIVE_STATUS@.len() != MEDIA_ACTIVE_POSITION@.len());
    assert(MEDIA_ACTIVE_STATUS@.len() != CHROMIUM_MEDIA_ACTIVE@.len());
    assert(MEDIA_ACTIVE_TITLE@.len() != MEDIA_ACTIVE_ART_URL@.len());
    assert(MEDIA_ACTIVE_TITLE@.len() != MEDIA_ACTIVE_LENGTH@.len());
    assert(MEDIA_ACTIVE_TITLE@.len() != MEDIA_ACTIVE_POSITION@.len());
    assert(MEDIA_ACTIVE_TITLE@.len() != CHROMIUM_MEDIA_ACTIVE@.len());
    assert(MEDIA_ACTIVE_ART_URL@.len() != MEDIA_ACTIVE_LENGTH@.len());
    assert(MEDIA_ACTIVE_ART_URL@.len() != MEDIA_ACTIVE_POSITION@.len());
    assert(MEDIA_ACTIVE_ART_URL@.len() != CHROMIUM_MEDIA_ACTIVE@.len());
    assert(MEDIA_ACTIVE_LENGTH@.len() != MEDIA_ACTIVE_POSITION@.len());
    assert(MEDIA_ACTIVE_LENGTH@.len() != CHROMIUM_MEDIA_ACTIVE@.len());
    assert(MEDIA_ACTIVE_POSITION@[0] != CHROMIUM_MEDIA_ACTIVE@[0]);
}

/// No two of the tab keys are the same.
pub proof fn law_tabs_keys_differ()
    ensures
        CHROMIUM_TABS_AVAILABLE@ != CHROMIUM_TABS_JSON@,
        CHROMIUM_TABS_AVAILABLE@ != CHROMIUM_TABS_COUNT@,
        CHROMIUM_TABS_AVAILABLE@ != CHROMIUM_TABS_ACTIVE_INDEX@,
        CHROMIUM_TABS_JSON@ != CHROMIUM_TABS_COUNT@,
        CHROMIUM_TABS_JSON@ != CHROMIUM_TABS_ACTIVE_INDEX@,
        CHROMIUM_TABS_COUNT@ != CHROMIUM_TABS_ACTIVE_INDEX@,
{
    reveal_strlit("chromium.tabs.available");
    reveal_strlit("chromium.tabs.json");
    reveal_strlit("chromium.tabs.count");
    reveal_strlit("chromium.tabs.active_index");
    assert(CHROMIUM_TABS_AVAILABLE@.len() != CHROMIUM_TABS_JSON@.len());
    assert(CHROMIUM_TABS_AVAILABLE@.len() != CHROMIUM_TABS_COUNT@.len());
    assert(CHROMIUM_TABS_AVAILABLE@.len() != CHROMIUM_TABS_ACTIVE_INDEX@.len());
    assert(CHROMIUM_TABS_JSON@.len() != CHROMIUM_TABS_COUNT@.len());
    assert(CHROMIUM_TABS_JSON@.len() != CHROMIUM_TABS_ACTIVE_INDEX@.len());
    assert(CHROMIUM_TABS_COUNT@.len() != CHROMIUM_TABS_ACTIVE_INDEX@.len());
}

/// No two of the terminal keys are the same.
pub proof fn law_terminal_keys_differ()
    ensures
        TERMINAL_AVAILABLE@ != TERMINAL_NAME@,
        TERMINAL_AVAILABLE@ != TERMINAL_KIND@,
        TERMINAL_AVAILABLE@ != TERMINAL_ROOT_PID@,
        TERMINAL_AVAILABLE@ != TERMINAL_COMMAND@,
        TERMINAL_AVAILABLE@ != TERMINAL_CWD@,
        TERMINAL_AVAILABLE@ != TERMINAL_APP@,
        TERMINAL_AVAILABLE@ != TERMINAL_APP_PID@,
        TERMINAL_AVAILABLE@ != TERMINAL_NVIM_PID@,
        TERMINAL_AVAILABLE@ != TERMINAL_TMUX_CLIENT_PID@,
        TERMINAL_AVAILABLE@ != TERMINAL_TMUX_CLIENT_TTY@,
        TERMINAL_AVAILABLE@ != TERMINAL_TMUX_SESSION@,
        TERMINAL_AVAILABLE@ != TERMINAL_TMUX_WINDOW@,
        TERMINAL_AVAILABLE@ != TERMINAL_TMUX_PANE_INDEX@,
        TERMINAL_AVAILABLE@ != TERMINAL_TMUX_PANE_ID@,
        TERMINAL_AVAILABLE@ != TERMINAL_TMUX_PANE_PID@,
        TERMINAL_AVAILABLE@ != TERMINAL_TMUX_PANE_COMMAND@,
        TERMINAL_AVAILABLE@ != TERMINAL_TMUX_PANE_PATH@,
        TERMINAL_AVAILABLE@ != TERMINAL_TMUX_PANE_TITLE@,
        TERMINAL_NAME@ != TERMINAL_KIND@,
        TERMINAL_NAME@ != TERMINAL_ROOT_PID@,
        TERMINAL_NAME@ != TERMINAL_COMMAND@,
        TERMINAL_NAME@ != TERMINAL_CWD@,
        TERMINAL_NAME@ != TERMINAL_APP@,
        TERMINAL_NAME@ != TERMINAL_APP_PID@,
        TERMINAL_NAME@ != TERMINAL_NVIM_PID@,
        TERMINAL_NAME@ != TERMINAL_TMUX_CLIENT_PID@,
        TERMINAL_NAME@ != TERMINAL_TMUX_CLIENT_TTY@,
        TERMINAL_NAME@ != TERMINAL_TMUX_SESSION@,
        TERMINAL_NAME@ != TERMINAL_TMUX_WINDOW@,
        TERMINAL_NAME@ != TERMINAL_TMUX_PANE_INDEX@,
        TERMINAL_NAME@ != TERMINAL_TMUX_PANE_ID@,
        TERMINAL_NAME@ != TERMINAL_TMUX_PANE_PID@,
        TERMINAL_NAME@ != TERMINAL_TMUX_PANE_COMMAND@,
        TERMINAL_NAME@ != TERMINAL_TMUX_PANE_PATH@,
        TERMINAL_NAME@ != TERMINAL_TMUX_PANE_TITLE@,
        TERMINAL_KIND@ != TERMINAL_ROOT_PID@,
        TERMINAL_KIND@ != TERMINAL_COMMAND@,
        TERMINAL_KIND@ != TERMINAL_CWD@,
        TERMINAL_KIND@ != TERMINAL_APP@,
        TERMINAL_KIND@ != TERMINAL_APP_PID@,
        TERMINAL_KIND@ != TERMINAL_NVIM_PID@,
        TERMINAL_KIND@ != TERMINAL_TMUX_CLIENT_PID@,
        TERMINAL_KIND@ != TERMINAL_TMUX_CLIENT_TTY@,
        TERMINAL_KIND@ != TERMINAL_TMUX_SESSION@,
        TERMINAL_KIND@ != TERMINAL_TMUX_WINDOW@,
        TERMINAL_KIND@ != TERMINAL_TMUX_PANE_INDEX@,
        TERMINAL_KIND@ != TERMINAL_TMUX_PANE_ID@,
        TERMINAL_KIND@ != TERMINAL_TMUX_PANE_PID@,
        TERMINAL_KIND@ != TERMINAL_TMUX_PANE_COMMAND@,
        TERMINAL_KIND@ != TERMINAL_TMUX_PANE_PATH@,
        TERMINAL_KIND@ != TERMINAL_TMUX_PANE_TITLE@,
        TERMINAL_ROOT_PID@ != TERMINAL_COMMAND@,
        TERMINAL_ROOT_PID@ != TERMINAL_CWD@,
        TERMINAL_ROOT_PID@ != TERMINAL_APP@,
        TERMINAL_ROOT_PID@ != TERMINAL_APP_PID@,
        TERMINAL_ROOT_PID@ != TERMINAL_NVIM_PID@,
        TERMINAL_ROOT_PID@ != TERMINAL_TMUX_CLIENT_PID@,
        TERMINAL_ROOT_PID@ != TERMINAL_TMUX_CLIENT_TTY@,
        TERMINAL_ROOT_PID@ != TERMINAL_TMUX_SESSION@,
        TERMINAL_ROOT_PID@ != TERMINAL_TMUX_WINDOW@,
        TERMINAL_ROOT_PID@ != TERMINAL_TMUX_PANE_INDEX@,
        TERMINAL_ROOT_PID@ != TERMINAL_TMUX_PANE_ID@,
        TERMINAL_ROOT_PID@ != TERMINAL_TMUX_PANE_PID@,
        TERMINAL_ROOT_PID@ != TERMINAL_TMUX_PANE_COMMAND@,
        TERMINAL_ROOT_PID@ != TERMINAL_TMUX_PANE_PATH@,
        TERMINAL_ROOT_PID@ != TERMINAL_TMUX_PANE_TITLE@,
        TERMINAL_COMMAND@ != TERMINAL_CWD@,
        TERMINAL_COMMAND@ != TERMINAL_APP@,
        TERMINAL_COMMAND@ != TERMINAL_APP_PID@,
        TERMINAL_COMMAND@ != TERMINAL_NVIM_PID@,
        TERMINAL_COMMAND@ != TERMINAL_TMUX_CLIENT_PID@,
        TERMINAL_COMMAND@ != TERMINAL_TMUX_CLIENT_TTY@,
        TERMINAL_COMMAND@ != TERMINAL_TMUX_SESSION@,
        TERMINAL_COMMAND@ != TERMINAL_TMUX_WINDOW@,
        TERMINAL_COMMAND@ != TERMINAL_TMUX_PANE_INDEX@,
        TERMINAL_COMMAND@ != TERMINAL_TMUX_PANE_ID@,
        TERMINAL_COMMAND@ != TERMINAL_TMUX_PANE_PID@,
        TERMINAL_COMMAND@ != TERMINAL_TMUX_PANE_COMMAND@,
        TERMINAL_COMMAND@ != TERMINAL_TMUX_PANE_PATH@,
        TERMINAL_COMMAND@ != TERMINAL_TMUX_PANE_TITLE@,
        TERMINAL_CWD@ != TERMINAL_APP@,
        TERMINAL_CWD@ != TERMINAL_APP_PID@,
        TERMINAL_CWD@ != TERMINAL_NVIM_PID@,
        TERMINAL_CWD@ != TERMINAL_TMUX_CLIENT_PID@,
        TERMINAL_CWD@ != TERMINAL_TMUX_CLIENT_TTY@,
        TERMINAL_CWD@ != TERMINAL_TMUX_SESSION@,
        TERMINAL_CWD@ != TERMINAL_TMUX_WINDOW@,
        TERMINAL_CWD@ != TERMINAL_TMUX_PANE_INDEX@,
        TERMINAL_CWD@ != TERMINAL_TMUX_PANE_ID@,
        TERMINAL_CWD@ != TERMINAL_TMUX_PANE_PID@,
        TERMINAL_CWD@ != TERMINAL_TMUX_PANE_COMMAND@,
        TERMINAL_CWD@ != TERMINAL_TMUX_PANE_PATH@,
        TERMINAL_CWD@ != TERMINAL_TMUX_PANE_TITLE@,
        TERMINAL_APP@ != TERMINAL_APP_PID@,
        TERMINAL_APP@ != TERMINAL_NVIM_PID@,
        TERMINAL_APP@ != TERMINAL_TMUX_CLIENT_PID@,
        TERMINAL_APP@ != TERMINAL_TMUX_CLIENT_TTY@,
        TERMINAL_APP@ != TERMINAL_TMUX_SESSION@,
        TERMINAL_APP@ != TERMINAL_TMUX_WINDOW@,
        TERMINAL_APP@ != TERMINAL_TMUX_PANE_INDEX@,
        TERMINAL_APP@ != TERMINAL_TMUX_PANE_ID@,
        TERMINAL_APP@ != TERMINAL_TMUX_PANE_PID@,
        TERMINAL_APP@ != TERMINAL_TMUX_PANE_COMMAND@,
        TERMINAL_APP@ != TERMINAL_TMUX_PANE_PATH@,
        TERMINAL_APP@ != TERMINAL_TMUX_PANE_TITLE@,
        TERMINAL_APP_PID@ != TERMINAL_NVIM_PID@,
        TERMINAL_APP_PID@ != TERMINAL_TMUX_CLIENT_PID@,
        TERMINAL_APP_PID@ != TERMINAL_TMUX_CLIENT_TTY@,
        TERMINAL_APP_PID@ != TERMINAL_TMUX_SESSION@,
        TERMINAL_APP_PID@ != TERMINAL_TMUX_WINDOW@,
        TERMINAL_APP_PID@ != TERMINAL_TMUX_PANE_INDEX@,
        TERMINAL_APP_PID@ != TERMINAL_TMUX_PANE_ID@,
        TERMINAL_APP_PID@ != TERMINAL_TMUX_PANE_PID@,
        TERMINAL_APP_PID@ != TERMINAL_TMUX_PANE_COMMAND@,
        TERMINAL_APP_PID@ != TERMINAL_TMUX_PANE_PATH@,
        TERMINAL_APP_PID@ != TERMINAL_TMUX_PANE_TITLE@,
        TERMINAL_NVIM_PID@ != TERMINAL_TMUX_CLIENT_PID@,
        TERMINAL_NVIM_PID@ != TERMINAL_TMUX_CLIENT_TTY@,
        TERMINAL_NVIM_PID@ != TERMINAL_TMUX_SESSION@,
        TERMINAL_NVIM_PID@ != TERMINAL_TMUX_WINDOW@,
        TERMINAL_NVIM_PID@ != TERMINAL_TMUX_PANE_INDEX@,
        TERMINAL_NVIM_PID@ != TERMINAL_TMUX_PANE_ID@,
        TERMINAL_NVIM_PID@ != TERMINAL_TMUX_PANE_PID@,
        TERMINAL_NVIM_PID@ != TERMINAL_TMUX_PANE_COMMAND@,
        TERMINAL_NVIM_PID@ != TERMINAL_TMUX_PANE_PATH@,
        TERMINAL_NVIM_PID@ != TERMINAL_TMUX_PANE_TITLE@,
        TERMINAL_TMUX_CLIENT_PID@ != TERMINAL_TMUX_CLIENT_TTY@,
        TERMINAL_TMUX_CLIENT_PID@ != TERMINAL_TMUX_SESSION@,
        TERMINAL_TMUX_CLIENT_PID@ != TERMINAL_TMUX_WINDOW@,
        TERMINAL_TMUX_CLIENT_PID@ != TERMINAL_TMUX_PANE_INDEX@,
        TERMINAL_TMUX_CLIENT_PID@ != TERMINAL_TMUX_PANE_ID@,
        TERMINAL_TMUX_CLIENT_PID@ != TERMINAL_TMUX_PANE_PID@,
        TERMINAL_TMUX_CLIENT_PID@ != TERMINAL_TMUX_PANE_COMMAND@,
        TERMINAL_TMUX_CLIENT_PID@ != TERMINAL_TMUX_PANE_PATH@,
        TERMINAL_TMUX_CLIENT_PID@ != TERMINAL_TMUX_PANE_TITLE@,
        TERMINAL_TMUX_CLIENT_TTY@ != TERMINAL_TMUX_SESSION@,
        TERMINAL_TMUX_CLIENT_TTY@ != TERMINAL_TMUX_WINDOW@,
        TERMINAL_TMUX_CLIENT_TTY@ != TERMINAL_TMUX_PANE_INDEX@,
        TERMINAL_TMUX_CLIENT_TTY@ != TERMINAL_TMUX_PANE_ID@,
        TERMINAL_TMUX_CLIENT_TTY@ != TERMINAL_TMUX_PANE_PID@,
        TERMINAL_TMUX_CLIENT_TTY@ != TERMINAL_TMUX_PANE_COMMAND@,
        TERMINAL_TMUX_CLIENT_TTY@ != TERMINAL_TMUX_PANE_PATH@,
        TERMINAL_TMUX_CLIENT_TTY@ != TERMINAL_TMUX_PANE_TITLE@,
        TERMINAL_TMUX_SESSION@ != TERMINAL_TMUX_WINDOW@,
        TERMINAL_TMUX_SESSION@ != TERMINAL_TMUX_PANE_INDEX@,
        TERMINAL_TMUX_SESSION@ != TERMINAL_TMUX_PANE_ID@,
        TERMINAL_TMUX_SESSION@ != TERMINAL_TMUX_PANE_PID@,
        TERMINAL_TMUX_SESSION@ != TERMINAL_TMUX_PANE_COMMAND@,
        TERMINAL_TMUX_SESSION@ != TERMINAL_TMUX_PANE_PATH@,
        TERMINAL_TMUX_SESSION@ != TERMINAL_TMUX_PANE_TITLE@,
        TERMINAL_TMUX_WINDOW@ != TERMINAL_TMUX_PANE_INDEX@,
        TERMINAL_TMUX_WINDOW@ != TERMINAL_TMUX_PANE_ID@,
        TERMINAL_TMUX_WINDOW@ != TERMINAL_TMUX_PANE_PID@,
        TERMINAL_TMUX_WINDOW@ != TERMINAL_TMUX_PANE_COMMAND@,
        TERMINAL_TMUX_WINDOW@ != TERMINAL_TMUX_PANE_PATH@,
        TERMINAL_TMUX_WINDOW@ != TERMINAL_TMUX_PANE_TITLE@,
        TERMINAL_TMUX_PANE_INDEX@ != TERMINAL_TMUX_PANE_ID@,
        TERMINAL_TMUX_PANE_INDEX@ != TERMINAL_TMUX_PANE_PID@,
        TERMINAL_TMUX_PANE_INDEX@ != TERMINAL_TMUX_PANE_COMMAND@,
        TERMINAL_TMUX_PANE_INDEX@ != TERMINAL_TMUX_PANE_PATH@,
        TERMINAL_TMUX_PANE_INDEX@ != TERMINAL_TMUX_PANE_TITLE@,
        TERMINAL_TMUX_PANE_ID@ != TERMINAL_TMUX_PANE_PID@,
        TERMINAL_TMUX_PANE_ID@ != TERMINAL_TMUX_PANE_COMMAND@,
        TERMINAL_TMUX_PANE_ID@ != TERMINAL_TMUX_PANE_PATH@,
        TERMINAL_TMUX_PANE_ID@ != TERMINAL_TMUX_PANE_TITLE@,
        TERMINAL_TMUX_PANE_PID@ != TERMINAL_TMUX_PANE_COMMAND@,
        TERMINAL_TMUX_PANE_PID@ != TERMINAL_TMUX_PANE_PATH@,
        TERMINAL_TMUX_PANE_PID@ != TERMINAL_TMUX_PANE_TITLE@,
        TERMINAL_TMUX_PANE_COMMAND@ != TERMINAL_TMUX_PANE_PATH@,
        TERMINAL_TMUX_PANE_COMMAND@ != TERMINAL_TMUX_PANE_TITLE@,
        TERMINAL_TMUX_PANE_PATH@ != TERMINAL_TMUX_PANE_TITLE@,
{
    reveal_strlit("terminal.available");
    reveal_strlit("terminal.name");
    reveal_strlit("terminal.kind");
    reveal_strlit("terminal.root_pid");
    reveal_strlit("terminal.command");
    reveal_strlit("terminal.cwd");
    reveal_strlit("terminal.app");
    reveal_strlit("terminal.app_pid");
    reveal_strlit("terminal.nvim_pid");
    reveal_strlit("terminal.tmux.client_pid");
    reveal_strlit("terminal.tmux.client_tty");
    reveal_strlit("terminal.tmux.session");
    reveal_strlit("terminal.tmux.window");
    reveal_strlit("terminal.tmux.pane_index");
    reveal_strlit("terminal.tmux.pane_id");
    reveal_strlit("terminal.tmux.pane_pid");
    reveal_strlit("terminal.tmux.pane_command");
    reveal_strlit("terminal.tmux.pane_path");
    reveal_strlit("terminal.tmux.pane_title");
    assert(TERMINAL_AVAILABLE@.len() != TERMINAL_NAME@.len());
    assert(TERMINAL_AVAILABLE@.len() != TERMINAL_KIND@.len());
    assert(TERMINAL_AVAILABLE@.len() != TERMINAL_ROOT_PID@.len());
    assert(TERMINAL_AVAILABLE@.len() != TERMINAL_COMMAND@.len());
    assert(TERMINAL_AVAILABLE@.len() != TERMINAL_CWD@.len());
    assert(TERMINAL_AVAILABLE@.len() != TERMINAL_APP@.len());
    assert(TERMINAL_AVAILABLE@.len() != TERMINAL_APP_PID@.len());
    assert(TERMINAL_AVAILABLE@.len() != TERMINAL_NVIM_PID@.len());
    assert(TERMINAL_AVAILABLE@.len() != TERMINAL_TMUX_CLIENT_PID@.len());
    assert(TERMINAL_AVAILABLE@.len() != TERMINAL_TMUX_CLIENT_TTY@.len());
    assert(TERMINAL_AVAILABLE@.len() != TERMINAL_TMUX_SESSION@.len());
    assert(TERMINAL_AVAILABLE@.len() != TERMINAL_TMUX_WINDOW@.len());
    assert(TERMINAL_AVAILABLE@.len() != TERMINAL_TMUX_PANE_INDEX@.len());
    assert(TERMINAL_AVAILABLE@.len() != TERMINAL_TMUX_PANE_ID@.len());
    assert(TERMINAL_AVAILABLE@.len() != TERMINAL_TMUX_PANE_PID@.len());
    assert(TERMINAL_AVAILABLE@.len() != TERMINAL_TMUX_PANE_COMMAND@.len());
    assert(TERMINAL_AVAILABLE@.len() != TERMINAL_TMUX_PANE_PATH@.len());
    assert(TERMINAL_AVAILABLE@.len() != TERMINAL_TMUX_PANE_TITLE@.len());
    assert(TERMINAL_NAME@[9] != TERMINAL_KIND@[9]);
    assert(TERMINAL_NAME@.len() != TERMINAL_ROOT_PID@.len());
    assert(TERMINAL_NAME@.len() != TERMINAL_COMMAND@.len());
    assert(TERMINAL_NAME@.len() != TERMINAL_CWD@.len());
    assert(TERMINAL_NAME@.len() != TERMINAL_APP@.len());
    assert(TERMINAL_NAME@.len() != TERMINAL_APP_PID@.len());
    assert(TERMINAL_NAME@.len() != TERMINAL_NVIM_PID@.len());
    assert(TERMINAL_NAME@.len() != TERMINAL_TMUX_CLIENT_PID@.len());
    assert(TERMINAL_NAME@.len() != TERMINAL_TMUX_CLIENT_TTY@.len());
    assert(TERMINAL_NAME@.len() != TERMINAL_TMUX_SESSION@.len());
    assert(TERMINAL_NAME@.len() != TERMINAL_TMUX_WINDOW@.len());
    assert(TERMINAL_NAME@.len() != TERMINAL_TMUX_PANE_INDEX@.len());
    assert(TERMINAL_NAME@.len() != TERMINAL_TMUX_PANE_ID@.len());
    assert(TERMINAL_NAME@.len() != TERMINAL_TMUX_PANE_PID@.len());
    assert(TERMINAL_NAME@.len() != TERMINAL_TMUX_PANE_COMMAND@.len());
    assert(TERMINAL_NAME@.len() != TERMINAL_TMUX_PANE_PATH@.len());
    assert(TERMINAL_NAME@.len() != TERMINAL_TMUX_PANE_TITLE@.len());
    assert(TERMINAL_KIND@.len() != TERMINAL_ROOT_PID@.len());
    assert(TERMINAL_KIND@.len() != TERMINAL_COMMAND@.len());
    assert(TERMINAL_KIND@.len() != TERMINAL_CWD@.len());
    assert(TERMINAL_KIND@.len() != TERMINAL_APP@.len());
    assert(TERMINAL_KIND@.len() != TERMINAL_APP_PID@.len());
    assert(TERMINAL_KIND@.len() != TERMINAL_NVIM_PID@.len());
    assert(TERMINAL_KIND@.len() != TERMINAL_TMUX_CLIENT_PID@.len());
    assert(TERMINAL_KIND@.len() != TERMINAL_TMUX_CLIENT_TTY@.len());
    assert(TERMINAL_KIND@.len() != TERMINAL_TMUX_SESSION@.len());
    assert(TERMINAL_KIND@.len() != TERMINAL_TMUX_WINDOW@.len());
    assert(TERMINAL_KIND@.len() != TERMINAL_TMUX_PANE_INDEX@.len());
    assert(TERMINAL_KIND@.len() != TERMINAL_TMUX_PANE_ID@.len());
    assert(TERMINAL_KIND@.len() != TERMINAL_TMUX_PANE_PID@.len());
    assert(TERMINAL_KIND@.len() != TERMINAL_TMUX_PANE_COMMAND@.len());
    assert(TERMINAL_KIND@.len() != TERMINAL_TMUX_PANE_PATH@.len());
    assert(TERMINAL_KIND@.len() != TERMINAL_TMUX_PANE_TITLE@.len());
    assert(TERMINAL_ROOT_PID@.len() != TERMINAL_COMMAND@.len());
    assert(TERMINAL_ROOT_PID@.len() != TERMINAL_CWD@.len());
    assert(TERMINAL_ROOT_PID@.len() != TERMINAL_APP@.len());
    assert(TERMINAL_ROOT_PID@.len() != TERMINAL_APP_PID@.len());
    assert(TERMINAL_ROOT_PID@[9] != TERMINAL_NVIM_PID@[9]);
    assert(TERMINAL_ROOT_PID@.len() != TERMINAL_TMUX_CLIENT_PID@.len());
    assert(TERMINAL_ROOT_PID@.len() != TERMINAL_TMUX_CLIENT_TTY@.len());
    assert(TERMINAL_ROOT_PID@.len() != TERMINAL_TMUX_SESSION@.len());
    assert(TERMINAL_ROOT_PID@.len() != TERMINAL_TMUX_WINDOW@.len());
    assert(TERMINAL_ROOT_PID@.len() != TERMINAL_TMUX_PANE_INDEX@.len());
    assert(TERMINAL_ROOT_PID@.len() != TERMINAL_TMUX_PANE_ID@.len());
    assert(TERMINAL_ROOT_PID@.len() != TERMINAL_TMUX_PANE_PID@.len());
    assert(TERMINAL_ROOT_PID@.len() != TERMINAL_TMUX_PANE_COMMAND@.len());
    assert(TERMINAL_ROOT_PID@.len() != TERMINAL_TMUX_PANE_PATH@.len());
    assert(TERMINAL_ROOT_PID@.len() != TERMINAL_TMUX_PANE_TITLE@.len());
    assert(TERMINAL_COMMAND@.len() != TERMINAL_CWD@.len());
    assert(TERMINAL_COMMAND@.len() != TERMINAL_APP@.len());
    assert(TERMINAL_COMMAND@[9] != TERMINAL_APP_PID@[9]);
    assert(TERMINAL_COMMAND@.len() != TERMINAL_NVIM_PID@.len());
    assert(TERMINAL_COMMAND@.len() != TERMINAL_TMUX_CLIENT_PID@.len());
    assert(TERMINAL_COMMAND@.len() != TERMINAL_TMUX_CLIENT_TTY@.len());
    assert(TERMINAL_COMMAND@.len() != TERMINAL_TMUX_SESSION@.len());
    assert(TERMINAL_COMMAND@.len() != TERMINAL_TMUX_WINDOW@.len());
    assert(TERMINAL_COMMAND@.len() != TERMINAL_TMUX_PANE_INDEX@.len());
    assert(TERMINAL_COMMAND@.len() != TERMINAL_TMUX_PANE_ID@.len());
    assert(TERMINAL_COMMAND@.len() != TERMINAL_TMUX_PANE_PID@.len());
    assert(TERMINAL_COMMAND@.len() != TERMINAL_TMUX_PANE_COMMAND@.len());
    assert(TERMINAL_COMMAND@.len() != TERMINAL_TMUX_PANE_PATH@.len());
    assert(TERMINAL_COMMAND@.len() != TERMINAL_TMUX_PANE_TITLE@.len());
    assert(TERMINAL_CWD@[9] != TERMINAL_APP@[9]);
    assert(TERMINAL_CWD@.len() != TERMINAL_APP_PID@.len());
    assert(TERMINAL_CWD@.len() != TERMINAL_NVIM_PID@.len());
    assert(TERMINAL_CWD@.len() != TERMINAL_TMUX_CLIENT_PID@.len());
    assert(TERMINAL_CWD@.len() != TERMINAL_TMUX_CLIENT_TTY@.len());
    assert(TERMINAL_CWD@.len() != TERMINAL_TMUX_SESSION@.len());
    assert(TERMINAL_CWD@.len() != TERMINAL_TMUX_WINDOW@.len());
    assert(TERMINAL_CWD@.len() != TERMINAL_TMUX_PANE_INDEX@.len());
    assert(TERMINAL_CWD@.len() != TERMINAL_TMUX_PANE_ID@.len());
    assert(TERMINAL_CWD@.len() != TERMINAL_TMUX_PANE_PID@.len());
    assert(TERMINAL_CWD@.len() != TERMINAL_TMUX_PANE_COMMAND@.len());
    assert(TERMINAL_CWD@.len() != TERMINAL_TMUX_PANE_PATH@.len());
    assert(TERMINAL_CWD@.len() != TERMINAL_TMUX_PANE_TITLE@.len());
    assert(TERMINAL_APP@.len() != TERMINAL_APP_PID@.len());
    assert(TERMINAL_APP@.len() != TERMINAL_NVIM_PID@.len());
    assert(TERMINAL_APP@.len() != TERMINAL_TMUX_CLIENT_PID@.len());
    assert(TERMINAL_APP@.len() != TERMINAL_TMUX_CLIENT_TTY@.len());
    assert(TERMINAL_APP@.len() != TERMINAL_TMUX_SESSION@.len());
    assert(TERMINAL_APP@.len() != TERMINAL_TMUX_WINDOW@.len());
    assert(TERMINAL_APP@.len() != TERMINAL_TMUX_PANE_INDEX@.len());
    assert(TERMINAL_APP@.len() != TERMINAL_TMUX_PANE_ID@.len());
    assert(TERMINAL_APP@.len() != TERMINAL_TMUX_PANE_PID@.len());
    assert(TERMINAL_APP@.len() != TERMINAL_TMUX_PANE_COMMAND@.len());
    assert(TERMINAL_APP@.len() != TERMINAL_TMUX_PANE_PATH@.len());
    assert(TERMINAL_APP@.len() != TERMINAL_TMUX_PANE_TITLE@.len());
    assert(TERMINAL_APP_PID@.len() != TERMINAL_NVIM_PID@.len());
    assert(TERMINAL_APP_PID@.len() != TERMINAL_TMUX_CLIENT_PID@.len());
    assert(TERMINAL_APP_PID@.len() != TERMINAL_TMUX_CLIENT_TTY@.len());
    assert(TERMINAL_APP_PID@.len() != TERMINAL_TMUX_SESSION@.len());
    assert(TERMINAL_APP_PID@.len() != TERMINAL_TMUX_WINDOW@.len());
    assert(TERMINAL_APP_PID@.len() != TERMINAL_TMUX_PANE_INDEX@.len());
    assert(TERMINAL_APP_PID@.len() != TERMINAL_TMUX_PANE_ID@.len());
    assert(TERMINAL_APP_PID@.len() != TERMINAL_TMUX_PANE_PID@.len());
    assert(TERMINAL_APP_PID@.len() != TERMINAL_TMUX_PANE_COMMAND@.len());
    assert(TERMINAL_APP_PID@.len() != TERMINAL_TMUX_PANE_PATH@.len());
    assert(TERMINAL_APP_PID@.len() != TERMINAL_TMUX_PANE_TITLE@.len());
    assert(TERMINAL_NVIM_PID@.len() != TERMINAL_TMUX_CLIENT_PID@.len());
    assert(TERMINAL_NVIM_PID@.len() != TERMINAL_TMUX_CLIENT_TTY@.len());
    assert(TERMINAL_NVIM_PID@.len() != TERMINAL_TMUX_SESSION@.len());
    assert(TERMINAL_NVIM_PID@.len() != TERMINAL_TMUX_WINDOW@.len());
    assert(TERMINAL_NVIM_PID@.len() != TERMINAL_TMUX_PANE_INDEX@.len());
    assert(TERMINAL_NVIM_PID@.len() != TERMINAL_TMUX_PANE_ID@.len());
    assert(TERMINAL_NVIM_PID@.len() != TERMINAL_TMUX_PANE_PID@.len());
    assert(TERMINAL_NVIM_PID@.len() != TERMINAL_TMUX_PANE_COMMAND@.len());
    assert(TERMINAL_NVIM_PID@.len() != TERMINAL_TMUX_PANE_PATH@.len());
    assert(TERMINAL_NVIM_PID@.len() != TERMINAL_TMUX_PANE_TITLE@.len());
    assert(TERMINAL_TMUX_CLIENT_PID@[21] != TERMINAL_TMUX_CLIENT_TTY@[21]);
    assert(TERMINAL_TMUX_CLIENT_PID@.len() != TERMINAL_TMUX_SESSION@.len());
    assert(TERMINAL_TMUX_CLIENT_PID@.len() != TERMINAL_TMUX_WINDOW@.len());
    assert(TERMINAL_TMUX_CLIENT_PID@[14] != TERMINAL_TMUX_PANE_INDEX@[14]);
    assert(TERMINAL_TMUX_CLIENT_PID@.len() != TERMINAL_TMUX_PANE_ID@.len());
    assert(TERMINAL_TMUX_CLIENT_PID@.len() != TERMINAL_TMUX_PANE_PID@.len());
    assert(TERMINAL_TMUX_CLIENT_PID@.len() != TERMINAL_TMUX_PANE_COMMAND@.len());
    assert(TERMINAL_TMUX_CLIENT_PID@.len() != TERMINAL_TMUX_PANE_PATH@.len());
    assert(TERMINAL_TMUX_CLIENT_PID@[14] != TERMINAL_TMUX_PANE_TITLE@[14]);
    assert(TERMINAL_TMUX_CLIENT_TTY@.len() != TERMINAL_TMUX_SESSION@.len());
    assert(TERMINAL_TMUX_CLIENT_TTY@.len() != TERMINAL_TMUX_WINDOW@.len());
    assert(TERMINAL_TMUX_CLIENT_TTY@[14] != TERMINAL_TMUX_PANE_INDEX@[14]);
    assert(TERMINAL_TMUX_CLIENT_TTY@.len() != TERMINAL_TMUX_PANE_ID@.len());
    assert(TERMINAL_TMUX_CLIENT_TTY@.len() != TERMINAL_TMUX_PANE_PID@.len());
    assert(TERMINAL_TMUX_CLIENT_TTY@.len() != TERMINAL_TMUX_PANE_COMMAND@.len());
    assert(TERMINAL_TMUX_CLIENT_TTY@.len() != TERMINAL_TMUX_PANE_PATH@.len());
    assert(TERMINAL_TMUX_CLIENT_TTY@[14] != TERMINAL_TMUX_PANE_TITLE@[14]);
    assert(TERMINAL_TMUX_SESSION@.len() != TERMINAL_TMUX_WINDOW@.len());
    assert(TERMINAL_TMUX_SESSION@.len() != TERMINAL_TMUX_PANE_INDEX@.len());
    assert(TERMINAL_TMUX_SESSION@[14] != TERMINAL_TMUX_PANE_ID@[14]);
    assert(TERMINAL_TMUX_SESSION@.len() != TERMINAL_TMUX_PANE_PID@.len());
    assert(TERMINAL_TMUX_SESSION@.len() != TERMINAL_TMUX_PANE_COMMAND@.len());
    assert(TERMINAL_TMUX_SESSION@.len() != TERMINAL_TMUX_PANE_PATH@.len());
    assert(TERMINAL_TMUX_SESSION@.len() != TERMINAL_TMUX_PANE_TITLE@.len());
    assert(TERMINAL_TMUX_WINDOW@.len() != TERMINAL_TMUX_PANE_INDEX@.len());
    assert(TERMINAL_TMUX_WINDOW@.len() != TERMINAL_TMUX_PANE_ID@.len());
    assert(TERMINAL_TMUX_WINDOW@.len() != TERMINAL_TMUX_PANE_PID@.len());
    assert(TERMINAL_TMUX_WINDOW@.len() != TERMINAL_TMUX_PANE_COMMAND@.len());
    assert(TERMINAL_TMUX_WINDOW@.len() != TERMINAL_TMUX_PANE_PATH@.len());
    assert(TERMINAL_TMUX_WINDOW@.len() != TERMINAL_TMUX_PANE_TITLE@.len());
    assert(TERMINAL_TMUX_PANE_INDEX@.len() != TERMINAL_TMUX_PANE_ID@.len());
    assert(TERMINAL_TMUX_PANE_INDEX@.len() != TERMINAL_TMUX_PANE_PID@.len());
    assert(TERMINAL_TMUX_PANE_INDEX@.len() != TERMINAL_TMUX_PANE_COMMAND@.len());
    assert(TERMINAL_TMUX_PANE_INDEX@.len() != TERMINAL_TMUX_PANE_PATH@.len());
    assert(TERMINAL_TMUX_PANE_INDEX@[19] != TERMINAL_TMUX_PANE_TITLE@[19]);
    assert(TERMINAL_TMUX_PANE_ID@.len() != TERMINAL_TMUX_PANE_PID@.len());
    assert(TERMINAL_TMUX_PANE_ID@.len() != TERMINAL_TMUX_PANE_COMMAND@.len());
    assert(TERMINAL_TMUX_PANE_ID@.len() != TERMINAL_TMUX_PANE_PATH@.len());
    assert(TERMINAL_TMUX_PANE_ID@.len() != TERMINAL_TMUX_PANE_TITLE@.len());
    assert(TERMINAL_TMUX_PANE_PID@.len() != TERMINAL_TMUX_PANE_COMMAND@.len());
    assert(TERMINAL_TMUX_PANE_PID@.len() != TERMINAL_TMUX_PANE_PATH@.len());
    assert(TERMINAL_TMUX_PANE_PID@.len() != TERMINAL_TMUX_PANE_TITLE@.len());
    assert(TERMINAL_TMUX_PANE_COMMAND@.len() != TERMINAL_TMUX_PANE_PATH@.len());
    assert(TERMINAL_TMUX_PANE_COMMAND@.len() != TERMINAL_TMUX_PANE_TITLE@.len());
    assert(TERMINAL_TMUX_PANE_PATH@.len() != TERMINAL_TMUX_PANE_TITLE@.len());
}

/// No two of the Neovim keys are the same.
pub proof fn law_nvim_keys_differ()
    ensures
        NVIM_BRIDGE_AVAILABLE@ != NVIM_BRIDGE_SOCKET@,
        NVIM_BRIDGE_AVAILABLE@ != NVIM_PID@,
        NVIM_BRIDGE_AVAILABLE@ != NVIM_CWD@,
        NVIM_BRIDGE_AVAILABLE@ != NVIM_FILE@,
        NVIM_BRIDGE_AVAILABLE@ != NVIM_FILETYPE@,
        NVIM_BRIDGE_AVAILABLE@ != NVIM_MODE@,
        NVIM_BRIDGE_AVAILABLE@ != NVIM_DAP_ACTIVE@,
        NVIM_BRIDGE_AVAILABLE@ != NVIM_DAP_STATE@,
        NVIM_BRIDGE_AVAILABLE@ != NVIM_DAP_ADAPTER@,
        NVIM_BRIDGE_AVAILABLE@ != NVIM_DAP_SESSION@,
        NVIM_BRIDGE_AVAILABLE@ != NVIM_DAPUI_AVAILABLE@,
        NVIM_BRIDGE_AVAILABLE@ != NVIM_DAPUI_VISIBLE@,
        NVIM_BRIDGE_AVAILABLE@ != NVIM_NEOTEST_AVAILABLE@,
        NVIM_BRIDGE_AVAILABLE@ != NVIM_NEOTEST_SUMMARY_VISIBLE@,
        NVIM_BRIDGE_AVAILABLE@ != NVIM_NEOTEST_UPDATED_AT_MS@,
        NVIM_BRIDGE_AVAILABLE@ != NVIM_DBUI_AVAILABLE@,
        NVIM_BRIDGE_AVAILABLE@ != NVIM_DBUI_VISIBLE@,
        NVIM_BRIDGE_AVAILABLE@ != NVIM_DBUI_IN_BUFFER@,
        NVIM_BRIDGE_AVAILABLE@ != NVIM_DBUI_CONNECTIONS_JSON@,
        NVIM_BRIDGE_SOCKET@ != NVIM_PID@,
        NVIM_BRIDGE_SOCKET@ != NVIM_CWD@,
        NVIM_BRIDGE_SOCKET@ != NVIM_FILE@,
        NVIM_BRIDGE_SOCKET@ != NVIM_FILETYPE@,
        NVIM_BRIDGE_SOCKET@ != NVIM_MODE@,
        NVIM_BRIDGE_SOCKET@ != NVIM_DAP_ACTIVE@,
        NVIM_BRIDGE_SOCKET@ != NVIM_DAP_STATE@,
        NVIM_BRIDGE_SOCKET@ != NVIM_DAP_ADAPTER@,
        NVIM_BRIDGE_SOCKET@ != NVIM_DAP_SESSION@,
        NVIM_BRIDGE_SOCKET@ != NVIM_DAPUI_AVAILABLE@,
        NVIM_BRIDGE_SOCKET@ != NVIM_DAPUI_VISIBLE@,
        NVIM_BRIDGE_SOCKET@ != NVIM_NEOTEST_AVAILABLE@,
        NVIM_BRIDGE_SOCKET@ != NVIM_NEOTEST_SUMMARY_VISIBLE@,
        NVIM_BRIDGE_SOCKET@ != NVIM_NEOTEST_UPDATED_AT_MS@,
        NVIM_BRIDGE_SOCKET@ != NVIM_DBUI_AVAILABLE@,
        NVIM_BRIDGE_SOCKET@ != NVIM_DBUI_VISIBLE@,
        NVIM_BRIDGE_SOCKET@ != NVIM_DBUI_IN_BUFFER@,
        NVIM_BRIDGE_SOCKET@ != NVIM_DBUI_CONNECTIONS_JSON@,
        NVIM_PID@ != NVIM_CWD@,
        NVIM_PID@ != NVIM_FILE@,
        NVIM_PID@ != NVIM_FILETYPE@,
        NVIM_PID@ != NVIM_MODE@,
        NVIM_PID@ != NVIM_DAP_ACTIVE@,
        NVIM_PID@ != NVIM_DAP_STATE@,
        NVIM_PID@ != NVIM_DAP_ADAPTER@,
        NVIM_PID@ != NVIM_DAP_SESSION@,
        NVIM_PID@ != NVIM_DAPUI_AVAILABLE@,
        NVIM_PID@ != NVIM_DAPUI_VISIBLE@,
        NVIM_PID@ != NVIM_NEOTEST_AVAILABLE@,
        NVIM_PID@ != NVIM_NEOTEST_SUMMARY_VISIBLE@,
        NVIM_PID@ != NVIM_NEOTEST_UPDATED_AT_MS@,
        NVIM_PID@ != NVIM_DBUI_AVAILABLE@,
        NVIM_PID@ != NVIM_DBUI_VISIBLE@,
        NVIM_PID@ != NVIM_DBUI_IN_BUFFER@,
        NVIM_PID@ != NVIM_DBUI_CONNECTIONS_JSON@,
        NVIM_CWD@ != NVIM_FILE@,
        NVIM_CWD@ != NVIM_FILETYPE@,
        NVIM_CWD@ != NVIM_MODE@,
        NVIM_CWD@ != NVIM_DAP_ACTIVE@,
        NVIM_CWD@ != NVIM_DAP_STATE@,
        NVIM_CWD@ != NVIM_DAP_ADAPTER@,
        NVIM_CWD@ != NVIM_DAP_SESSION@,
        NVIM_CWD@ != NVIM_DAPUI_AVAILABLE@,
        NVIM_CWD@ != NVIM_DAPUI_VISIBLE@,
        NVIM_CWD@ != NVIM_NEOTEST_AVAILABLE@,
        NVIM_CWD@ != NVIM_NEOTEST_SUMMARY_VISIBLE@,
        NVIM_CWD@ != NVIM_NEOTEST_UPDATED_AT_MS@,
        NVIM_CWD@ != NVIM_DBUI_AVAILABLE@,
        NVIM_CWD@ != NVIM_DBUI_VISIBLE@,
        NVIM_CWD@ != NVIM_DBUI_IN_BUFFER@,
        NVIM_CWD@ != NVIM_DBUI_CONNECTIONS_JSON@,
        NVIM_FILE@ != NVIM_FILETYPE@,
        NVIM_FILE@ != NVIM_MODE@,
        NVIM_FILE@ != NVIM_DAP_ACTIVE@,
        NVIM_FILE@ != NVIM_DAP_STATE@,
        NVIM_FILE@ != NVIM_DAP_ADAPTER@,
        NVIM_FILE@ != NVIM_DAP_SESSION@,
        NVIM_FILE@ != NVIM_DAPUI_AVAILABLE@,
        NVIM_FILE@ != NVIM_DAPUI_VISIBLE@,
        NVIM_FILE@ != NVIM_NEOTEST_AVAILABLE@,
        NVIM_FILE@ != NVIM_NEOTEST_SUMMARY_VISIBLE@,
        NVIM_FILE@ != NVIM_NEOTEST_UPDATED_AT_MS@,
        NVIM_FILE@ != NVIM_DBUI_AVAILABLE@,
        NVIM_FILE@ != NVIM_DBUI_VISIBLE@,
        NVIM_FILE@ != NVIM_DBUI_IN_BUFFER@,
        NVIM_FILE@ != NVIM_DBUI_CONNECTIONS_JSON@,
        NVIM_FILETYPE@ != NVIM_MODE@,
        NVIM_FILETYPE@ != NVIM_DAP_ACTIVE@,
        NVIM_FILETYPE@ != NVIM_DAP_STATE@,
        NVIM_FILETYPE@ != NVIM_DAP_ADAPTER@,
        NVIM_FILETYPE@ != NVIM_DAP_SESSION@,
        NVIM_FILETYPE@ != NVIM_DAPUI_AVAILABLE@,
        NVIM_FILETYPE@ != NVIM_DAPUI_VISIBLE@,
        NVIM_FILETYPE@ != NVIM_NEOTEST_AVAILABLE@,
        NVIM_FILETYPE@ != NVIM_NEOTEST_SUMMARY_VISIBLE@,
        NVIM_FILETYPE@ != NVIM_NEOTEST_UPDATED_AT_MS@,
        NVIM_FILETYPE@ != NVIM_DBUI_AVAILABLE@,
        NVIM_FILETYPE@ != NVIM_DBUI_VISIBLE@,
        NVIM_FILETYPE@ != NVIM_DBUI_IN_BUFFER@,
        NVIM_FILETYPE@ != NVIM_DBUI_CONNECTIONS_JSON@,
        NVIM_MODE@ != NVIM_DAP_ACTIVE@,
        NVIM_MODE@ != NVIM_DAP_STATE@,
        NVIM_MODE@ != NVIM_DAP_ADAPTER@,
        NVIM_MODE@ != NVIM_DAP_SESSION@,
        NVIM_MODE@ != NVIM_DAPUI_AVAILABLE@,
        NVIM_MODE@ != NVIM_DAPUI_VISIBLE@,
        NVIM_MODE@ != NVIM_NEOTEST_AVAILABLE@,
        NVIM_MODE@ != NVIM_NEOTEST_SUMMARY_VISIBLE@,
        NVIM_MODE@ != NVIM_NEOTEST_UPDATED_AT_MS@,
        NVIM_MODE@ != NVIM_DBUI_AVAILABLE@,
        NVIM_MODE@ != NVIM_DBUI_VISIBLE@,
        NVIM_MODE@ != NVIM_DBUI_IN_BUFFER@,
        NVIM_MODE@ != NVIM_DBUI_CONNECTIONS_JSON@,
        NVIM_DAP_ACTIVE@ != NVIM_DAP_STATE@,
        NVIM_DAP_ACTIVE@ != NVIM_DAP_ADAPTER@,
        NVIM_DAP_ACTIVE@ != NVIM_DAP_SESSION@,
        NVIM_DAP_ACTIVE@ != NVIM_DAPUI_AVAILABLE@,
        NVIM_DAP_ACTIVE@ != NVIM_DAPUI_VISIBLE@,
        NVIM_DAP_ACTIVE@ != NVIM_NEOTEST_AVAILABLE@,
        NVIM_DAP_ACTIVE@ != NVIM_NEOTEST_SUMMARY_VISIBLE@,
        NVIM_DAP_ACTIVE@ != NVIM_NEOTEST_UPDATED_AT_MS@,
        NVIM_DAP_ACTIVE@ != NVIM_DBUI_AVAILABLE@,
        NVIM_DAP_ACTIVE@ != NVIM_DBUI_VISIBLE@,
        NVIM_DAP_ACTIVE@ != NVIM_DBUI_IN_BUFFER@,
        NVIM_DAP_ACTIVE@ != NVIM_DBUI_CONNECTIONS_JSON@,
        NVIM_DAP_STATE@ != NVIM_DAP_ADAPTER@,
        NVIM_DAP_STATE@ != NVIM_DAP_SESSION@,
        NVIM_DAP_STATE@ != NVIM_DAPUI_AVAILABLE@,
        NVIM_DAP_STATE@ != NVIM_DAPUI_VISIBLE@,
        NVIM_DAP_STATE@ != NVIM_NEOTEST_AVAILABLE@,
        NVIM_DAP_STATE@ != NVIM_NEOTEST_SUMMARY_VISIBLE@,
        NVIM_DAP_STATE@ != NVIM_NEOTEST_UPDATED_AT_MS@,
        NVIM_DAP_STATE@ != NVIM_DBUI_AVAILABLE@,
        NVIM_DAP_STATE@ != NVIM_DBUI_VISIBLE@,
        NVIM_DAP_STATE@ != NVIM_DBUI_IN_BUFFER@,
        NVIM_DAP_STATE@ != NVIM_DBUI_CONNECTIONS_JSON@,
        NVIM_DAP_ADAPTER@ != NVIM_DAP_SESSION@,
        NVIM_DAP_ADAPTER@ != NVIM_DAPUI_AVAILABLE@,
        NVIM_DAP_ADAPTER@ != NVIM_DAPUI_VISIBLE@,
        NVIM_DAP_ADAPTER@ != NVIM_NEOTEST_AVAILABLE@,
        NVIM_DAP_ADAPTER@ != NVIM_NEOTEST_SUMMARY_VISIBLE@,
        NVIM_DAP_ADAPTER@ != NVIM_NEOTEST_UPDATED_AT_MS@,
        NVIM_DAP_ADAPTER@ != NVIM_DBUI_AVAILABLE@,
        NVIM_DAP_ADAPTER@ != NVIM_DBUI_VISIBLE@,
        NVIM_DAP_ADAPTER@ != NVIM_DBUI_IN_BUFFER@,
        NVIM_DAP_ADAPTER@ != NVIM_DBUI_CONNECTIONS_JSON@,
        NVIM_DAP_SESSION@ != NVIM_DAPUI_AVAILABLE@,
        NVIM_DAP_SESSION@ != NVIM_DAPUI_VISIBLE@,
        NVIM_DAP_SESSION@ != NVIM_NEOTEST_AVAILABLE@,
        NVIM_DAP_SESSION@ != NVIM_NEOTEST_SUMMARY_VISIBLE@,
        NVIM_DAP_SESSION@ != NVIM_NEOTEST_UPDATED_AT_MS@,
        NVIM_DAP_SESSION@ != NVIM_DBUI_AVAILABLE@,
        NVIM_DAP_SESSION@ != NVIM_DBUI_VISIBLE@,
        NVIM_DAP_SESSION@ != NVIM_DBUI_IN_BUFFER@,
        NVIM_DAP_SESSION@ != NVIM_DBUI_CONNECTIONS_JSON@,
        NVIM_DAPUI_AVAILABLE@ != NVIM_DAPUI_VISIBLE@,
        NVIM_DAPUI_AVAILABLE@ != NVIM_NEOTEST_AVAILABLE@,
        NVIM_DAPUI_AVAILABLE@ != NVIM_NEOTEST_SUMMARY_VISIBLE@,
        NVIM_DAPUI_AVAILABLE@ != NVIM_NEOTEST_UPDATED_AT_MS@,
        NVIM_DAPUI_AVAILABLE@ != NVIM_DBUI_AVAILABLE@,
        NVIM_DAPUI_AVAILABLE@ != NVIM_DBUI_VISIBLE@,
        NVIM_DAPUI_AVAILABLE@ != NVIM_DBUI_IN_BUFFER@,
        NVIM_DAPUI_AVAILABLE@ != NVIM_DBUI_CONNECTIONS_JSON@,
        NVIM_DAPUI_VISIBLE@ != NVIM_NEOTEST_AVAILABLE@,
        NVIM_DAPUI_VISIBLE@ != NVIM_NEOTEST_SUMMARY_VISIBLE@,
        NVIM_DAPUI_VISIBLE@ != NVIM_NEOTEST_UPDATED_AT_MS@,
        NVIM_DAPUI_VISIBLE@ != NVIM_DBUI_AVAILABLE@,
        NVIM_DAPUI_VISIBLE@ != NVIM_DBUI_VISIBLE@,
        NVIM_DAPUI_VISIBLE@ != NVIM_DBUI_IN_BUFFER@,
        NVIM_DAPUI_VISIBLE@ != NVIM_DBUI_CONNECTIONS_JSON@,
        NVIM_NEOTEST_AVAILABLE@ != NVIM_NEOTEST_SUMMARY_VISIBLE@,
        NVIM_NEOTEST_AVAILABLE@ != NVIM_NEOTEST_UPDATED_AT_MS@,
        NVIM_NEOTEST_AVAILABLE@ != NVIM_DBUI_AVAILABLE@,
        NVIM_NEOTEST_AVAILABLE@ != NVIM_DBUI_VISIBLE@,
        NVIM_NEOTEST_AVAILABLE@ != NVIM_DBUI_IN_BUFFER@,
        NVIM_NEOTEST_AVAILABLE@ != NVIM_DBUI_CONNECTIONS_JSON@,
        NVIM_NEOTEST_SUMMARY_VISIBLE@ != NVIM_NEOTEST_UPDATED_AT_MS@,
        NVIM_NEOTEST_SUMMARY_VISIBLE@ != NVIM_DBUI_AVAILABLE@,
        NVIM_NEOTEST_SUMMARY_VISIBLE@ != NVIM_DBUI_VISIBLE@,
        NVIM_NEOTEST_SUMMARY_VISIBLE@ != NVIM_DBUI_IN_BUFFER@,
        NVIM_NEOTEST_SUMMARY_VISIBLE@ != NVIM_DBUI_CONNECTIONS_JSON@,
        NVIM_NEOTEST_UPDATED_AT_MS@ != NVIM_DBUI_AVAILABLE@,
        NVIM_NEOTEST_UPDATED_AT_MS@ != NVIM_DBUI_VISIBLE@,
        NVIM_NEOTEST_UPDATED_AT_MS@ != NVIM_DBUI_IN_BUFFER@,
        NVIM_NEOTEST_UPDATED_AT_MS@ != NVIM_DBUI_CONNECTIONS_JSON@,
        NVIM_DBUI_AVAILABLE@ != NVIM_DBUI_VISIBLE@,
        NVIM_DBUI_AVAILABLE@ != NVIM_DBUI_IN_BUFFER@,
        NVIM_DBUI_AVAILABLE@ != NVIM_DBUI_CONNECTIONS_JSON@,
        NVIM_DBUI_VISIBLE@ != NVIM_DBUI_IN_BUFFER@,
        NVIM_DBUI_VISIBLE@ != NVIM_DBUI_CONNECTIONS_JSON@,
        NVIM_DBUI_IN_BUFFER@ != NVIM_DBUI_CONNECTIONS_JSON@,
{
    reveal_strlit("nvim.bridge.available");
    reveal_strlit("nvim.bridge.socket");
    reveal_strlit("nvim.pid");
    reveal_strlit("nvim.cwd");
    reveal_strlit("nvim.file");
    reveal_strlit("nvim.filetype");
    reveal_strlit("nvim.mode");
    reveal_strlit("nvim.dap.active");
    reveal_strlit("nvim.dap.state");
    reveal_strlit("nvim.dap.adapter");
    reveal_strlit("nvim.dap.session");
    reveal_strlit("nvim.dapui.available");
    reveal_strlit("nvim.dapui.visible");
    reveal_strlit("nvim.neotest.available");
    reveal_strlit("nvim.neotest.summary_visible");
    reveal_strlit("nvim.neotest.updated_at_ms");
    reveal_strlit("nvim.dbui.available");
    reveal_strlit("nvim.dbui.visible");
    reveal_strlit("nvim.dbui.in_buffer");
    reveal_strlit("nvim.dbui.connections_json");
    assert(NVIM_BRIDGE_AVAILABLE@.len() != NVIM_BRIDGE_SOCKET@.len());
    assert(NVIM_BRIDGE_AVAILABLE@.len() != NVIM_PID@.len());
    assert(NVIM_BRIDGE_AVAILABLE@.len() != NVIM_CWD@.len());
    assert(NVIM_BRIDGE_AVAILABLE@.len() != NVIM_FILE@.len());
    assert(NVIM_BRIDGE_AVAILABLE@.len() != NVIM_FILETYPE@.len());
    assert(NVIM_BRIDGE_AVAILABLE@.len() != NVIM_MODE@.len());
    assert(NVIM_BRIDGE_AVAILABLE@.len() != NVIM_DAP_ACTIVE@.len());
    assert(NVIM_BRIDGE_AVAILABLE@.len() != NVIM_DAP_STATE@.len());
    assert(NVIM_BRIDGE_AVAILABLE@.len() != NVIM_DAP_ADAPTER@.len());
    assert(NVIM_BRIDGE_AVAILABLE@.len() != NVIM_DAP_SESSION@.len());
    assert(NVIM_BRIDGE_AVAILABLE@.len() != NVIM_DAPUI_AVAILABLE@.len());
    assert(NVIM_BRIDGE_AVAILABLE@.len() != NVIM_DAPUI_VISIBLE@.len());
    assert(NVIM_BRIDGE_AVAILABLE@.len() != NVIM_NEOTEST_AVAILABLE@.len());
    assert(NVIM_BRIDGE_AVAILABLE@.len() != NVIM_NEOTEST_SUMMARY_VISIBLE@.len());
    assert(NVIM_BRIDGE_AVAILABLE@.len() != NVIM_NEOTEST_UPDATED_AT_MS@.len());
    assert(NVIM_BRIDGE_AVAILABLE@.len() != NVIM_DBUI_AVAILABLE@.len());
    assert(NVIM_BRIDGE_AVAILABLE@.len() != NVIM_DBUI_VISIBLE@.len());
    assert(NVIM_BRIDGE_AVAILABLE@.len() != NVIM_DBUI_IN_BUFFER@.len());
    assert(NVIM_BRIDGE_AVAILABLE@.len() != NVIM_DBUI_CONNECTIONS_JSON@.len());
    assert(NVIM_BRIDGE_SOCKET@.len() != NVIM_PID@.len());
    assert(NVIM_BRIDGE_SOCKET@.len() != NVIM_CWD@.len());
    assert(NVIM_BRIDGE_SOCKET@.len() != NVIM_FILE@.len());
    assert(NVIM_BRIDGE_SOCKET@.len() != NVIM_FILETYPE@.len());
    assert(NVIM_BRIDGE_SOCKET@.len() != NVIM_MODE@.len());
    assert(NVIM_BRIDGE_SOCKET@.len() != NVIM_DAP_ACTIVE@.len());
    assert(NVIM_BRIDGE_SOCKET@.len() != NVIM_DAP_STATE@.len());
    assert(NVIM_BRIDGE_SOCKET@.len() != NVIM_DAP_ADAPTER@.len());
    assert(NVIM_BRIDGE_SOCKET@.len() != NVIM_DAP_SESSION@.len());
    assert(NVIM_BRIDGE_SOCKET@.len() != NVIM_DAPUI_AVAILABLE@.len());
    assert(NVIM_BRIDGE_SOCKET@[5] != NVIM_DAPUI_VISIBLE@[5]);
    assert(NVIM_BRIDGE_SOCKET@.len() != NVIM_NEOTEST_AVAILABLE@.len());
    assert(NVIM_BRIDGE_SOCKET@.len() != NVIM_NEOTEST_SUMMARY_VISIBLE@.len());
    assert(NVIM_BRIDGE_SOCKET@.len() != NVIM_NEOTEST_UPDATED_AT_MS@.len());
    assert(NVIM_BRIDGE_SOCKET@.len() != NVIM_DBUI_AVAILABLE@.len());
    assert(NVIM_BRIDGE_SOCKET@.len() != NVIM_DBUI_VISIBLE@.len());
    assert(NVIM_BRIDGE_SOCKET@.len() != NVIM_DBUI_IN_BUFFER@.len());
    assert(NVIM_BRIDGE_SOCKET@.len() != NVIM_DBUI_CONNECTIONS_JSON@.len());
    assert(NVIM_PID@[5] != NVIM_CWD@[5]);
    assert(NVIM_PID@.len() != NVIM_FILE@.len());
    assert(NVIM_PID@.len() != NVIM_FILETYPE@.len());
    assert(NVIM_PID@.len() != NVIM_MODE@.len());
    assert(NVIM_PID@.len() != NVIM_DAP_ACTIVE@.len());
    assert(NVIM_PID@.len() != NVIM_DAP_STATE@.len());
    assert(NVIM_PID@.len() != NVIM_DAP_ADAPTER@.len());
    assert(NVIM_PID@.len() != NVIM_DAP_SESSION@.len());
    assert(NVIM_PID@.len() != NVIM_DAPUI_AVAILABLE@.len());
    assert(NVIM_PID@.len() != NVIM_DAPUI_VISIBLE@.len());
    assert(NVIM_PID@.len() != NVIM_NEOTEST_AVAILABLE@.len());
    assert(NVIM_PID@.len() != NVIM_NEOTEST_SUMMARY_VISIBLE@.len());
    assert(NVIM_PID@.len() != NVIM_NEOTEST_UPDATED_AT_MS@.len());
    assert(NVIM_PID@.len() != NVIM_DBUI_AVAILABLE@.len());
    assert(NVIM_PID@.len() != NVIM_DBUI_VISIBLE@.len());
    assert(NVIM_PID@.len() != NVIM_DBUI_IN_BUFFER@.len());
    assert(NVIM_PID@.len() != NVIM_DBUI_CONNECTIONS_JSON@.len());
    assert(NVIM_CWD@.len() != NVIM_FILE@.len());
    assert(NVIM_CWD@.len() != NVIM_FILETYPE@.len());
    assert(NVIM_CWD@.len() != NVIM_MODE@.len());
    assert(NVIM_CWD@.len() != NVIM_DAP_ACTIVE@.len());
    assert(NVIM_CWD@.len() != NVIM_DAP_STATE@.len());
    assert(NVIM_CWD@.len() != NVIM_DAP_ADAPTER@.len());
    assert(NVIM_CWD@.len() != NVIM_DAP_SESSION@.len());
    assert(NVIM_CWD@.len() != NVIM_DAPUI_AVAILABLE@.len());
    assert(NVIM_CWD@.len() != NVIM_DAPUI_VISIBLE@.len());
    assert(NVIM_CWD@.len() != NVIM_NEOTEST_AVAILABLE@.len());
    assert(NVIM_CWD@.len() != NVIM_NEOTEST_SUMMARY_VISIBLE@.len());
    assert(NVIM_CWD@.len() != NVIM_NEOTEST_UPDATED_AT_MS@.len());
    assert(NVIM_CWD@.len() != NVIM_DBUI_AVAILABLE@.len());
    assert(NVIM_CWD@.len() != NVIM_DBUI_VISIBLE@.len());
    assert(NVIM_CWD@.len() != NVIM_DBUI_IN_BUFFER@.len());
    assert(NVIM_CWD@.len() != NVIM_DBUI_CONNECTIONS_JSON@.len());
    assert(NVIM_FILE@.len() != NVIM_FILETYPE@.len());
    assert(NVIM_FILE@[5] != NVIM_MODE@[5]);
    assert(NVIM_FILE@.len() != NVIM_DAP_ACTIVE@.len());
    assert(NVIM_FILE@.len() != NVIM_DAP_STATE@.len());
    assert(NVIM_FILE@.len() != NVIM_DAP_ADAPTER@.len());
    assert(NVIM_FILE@.len() != NVIM_DAP_SESSION@.len());
    assert(NVIM_FILE@.len() != NVIM_DAPUI_AVAILABLE@.len());
    assert(NVIM_FILE@.len() != NVIM_DAPUI_VISIBLE@.len());
    assert(NVIM_FILE@.len() != NVIM_NEOTEST_AVAILABLE@.len());
    assert(NVIM_FILE@.len() != NVIM_NEOTEST_SUMMARY_VISIBLE@.len());
    assert(NVIM_FILE@.len() != NVIM_NEOTEST_UPDATED_AT_MS@.len());
    assert(NVIM_FILE@.len() != NVIM_DBUI_AVAILABLE@.len());
    assert(NVIM_FILE@.len() != NVIM_DBUI_VISIBLE@.len());
    assert(NVIM_FILE@.len() != NVIM_DBUI_IN_BUFFER@.len());
    assert(NVIM_FILE@.len() != NVIM_DBUI_CONNECTIONS_JSON@.len());
    assert(NVIM_FILETYPE@.len() != NVIM_MODE@.len());
    assert(NVIM_FILETYPE@.len() != NVIM_DAP_ACTIVE@.len());
    assert(NVIM_FILETYPE@.len() != NVIM_DAP_STATE@.len());
    assert(NVIM_FILETYPE@.len() != NVIM_DAP_ADAPTER@.len());
    assert(NVIM_FILETYPE@.len() != NVIM_DAP_SESSION@.len());
    assert(NVIM_FILETYPE@.len() != NVIM_DAPUI_AVAILABLE@.len());
    assert(NVIM_FILETYPE@.len() != NVIM_DAPUI_VISIBLE@.len());
    assert(NVIM_FILETYPE@.len() != NVIM_NEOTEST_AVAILABLE@.len());
    assert(NVIM_FILETYPE@.len() != NVIM_NEOTEST_SUMMARY_VISIBLE@.len());
    assert(NVIM_FILETYPE@.len() != NVIM_NEOTEST_UPDATED_AT_MS@.len());
    assert(NVIM_FILETYPE@.len() != NVIM_DBUI_AVAILABLE@.len());
    assert(NVIM_FILETYPE@.len() != NVIM_DBUI_VISIBLE@.len());
    assert(NVIM_FILETYPE@.len() != NVIM_DBUI_IN_BUFFER@.len());
    assert(NVIM_FILETYPE@.len() != NVIM_DBUI_CONNECTIONS_JSON@.len());
    assert(NVIM_MODE@.len() != NVIM_DAP_ACTIVE@.len());
    assert(NVIM_MODE@.len() != NVIM_DAP_STATE@.len());
    assert(NVIM_MODE@.len() != NVIM_DAP_ADAPTER@.len());
    assert(NVIM_MODE@.len() != NVIM_DAP_SESSION@.len());
    assert(NVIM_MODE@.len() != NVIM_DAPUI_AVAILABLE@.len());
    assert(NVIM_MODE@.len() != NVIM_DAPUI_VISIBLE@.len());
    assert(NVIM_MODE@.len() != NVIM_NEOTEST_AVAILABLE@.len());
    assert(NVIM_MODE@.len() != NVIM_NEOTEST_SUMMARY_VISIBLE@.len());
    assert(NVIM_MODE@.len() != NVIM_NEOTEST_UPDATED_AT_MS@.len());
    assert(NVIM_MODE@.len() != NVIM_DBUI_AVAILABLE@.len());
    assert(NVIM_MODE@.len() != NVIM_DBUI_VISIBLE@.len());
    assert(NVIM_MODE@.len() != NVIM_DBUI_IN_BUFFER@.len());
    assert(NVIM_MODE@.len() != NVIM_DBUI_CONNECTIONS_JSON@.len());
    assert(NVIM_DAP_ACTIVE@.len() != NVIM_DAP_STATE@.len());
    assert(NVIM_DAP_ACTIVE@.len() != NVIM_DAP_ADAPTER@.len());
    assert(NVIM_DAP_ACTIVE@.len() != NVIM_DAP_SESSION@.len());
    assert(NVIM_DAP_ACTIVE@.len() != NVIM_DAPUI_AVAILABLE@.len());
    assert(NVIM_DAP_ACTIVE@.len() != NVIM_DAPUI_VISIBLE@.len());
    assert(NVIM_DAP_ACTIVE@.len() != NVIM_NEOTEST_AVAILABLE@.len());
    assert(NVIM_DAP_ACTIVE@.len() != NVIM_NEOTEST_SUMMARY_VISIBLE@.len());
    assert(NVIM_DAP_ACTIVE@.len() != NVIM_NEOTEST_UPDATED_AT_MS@.len());
    assert(NVIM_DAP_ACTIVE@.len() != NVIM_DBUI_AVAILABLE@.len());
    assert(NVIM_DAP_ACTIVE@.len() != NVIM_DBUI_VISIBLE@.len());
    assert(NVIM_DAP_ACTIVE@.len() != NVIM_DBUI_IN_BUFFER@.len());
    assert(NVIM_DAP_ACTIVE@.len() != NVIM_DBUI_CONNECTIONS_JSON@.len());
    assert(NVIM_DAP_STATE@.len() != NVIM_DAP_ADAPTER@.len());
    assert(NVIM_DAP_STATE@.len() != NVIM_DAP_SESSION@.len());
    assert(NVIM_DAP_STATE@.len() != NVIM_DAPUI_AVAILABLE@.len());
    assert(NVIM_DAP_STATE@.len() != NVIM_DAPUI_VISIBLE@.len());
    assert(NVIM_DAP_STATE@.len() != NVIM_NEOTEST_AVAILABLE@.len());
    assert(NVIM_DAP_STATE@.len() != NVIM_NEOTEST_SUMMARY_VISIBLE@.len());
    assert(NVIM_DAP_STATE@.len() != NVIM_NEOTEST_UPDATED_AT_MS@.len());
    assert(NVIM_DAP_STATE@.len() != NVIM_DBUI_AVAILABLE@.len());
    assert(NVIM_DAP_STATE@.len() != NVIM_DBUI_VISIBLE@.len());
    assert(NVIM_DAP_STATE@.len() != NVIM_DBUI_IN_BUFFER@.len());
    assert(NVIM_DAP_STATE@.len() != NVIM_DBUI_CONNECTIONS_JSON@.len());
    assert(NVIM_DAP_ADAPTER@[9] != NVIM_DAP_SESSION@[9]);
    assert(NVIM_DAP_ADAPTER@.len() != NVIM_DAPUI_AVAILABLE@.len());
    assert(NVIM_DAP_ADAPTER@.len() != NVIM_DAPUI_VISIBLE@.len());
    assert(NVIM_DAP_ADAPTER@.len() != NVIM_NEOTEST_AVAILABLE@.len());
    assert(NVIM_DAP_ADAPTER@.len() != NVIM_NEOTEST_SUMMARY_VISIBLE@.len());
    assert(NVIM_DAP_ADAPTER@.len() != NVIM_NEOTEST_UPDATED_AT_MS@.len());
    assert(NVIM_DAP_ADAPTER@.len() != NVIM_DBUI_AVAILABLE@.len());
    assert(NVIM_DAP_ADAPTER@.len() != NVIM_DBUI_VISIBLE@.len());
    assert(NVIM_DAP_ADAPTER@.len() != NVIM_DBUI_IN_BUFFER@.len());
    assert(NVIM_DAP_ADAPTER@.len() != NVIM_DBUI_CONNECTIONS_JSON@.len());
    assert(NVIM_DAP_SESSION@.len() != NVIM_DAPUI_AVAILABLE@.len());
    assert(NVIM_DAP_SESSION@.len() != NVIM_DAPUI_VISIBLE@.len());
    assert(NVIM_DAP_SESSION@.len() != NVIM_NEOTEST_AVAILABLE@.len());
    assert(NVIM_DAP_SESSION@.len() != NVIM_NEOTEST_SUMMARY_VISIBLE@.len());
    assert(NVIM_DAP_SESSION@.len() != NVIM_NEOTEST_UPDATED_AT_MS@.len());
    assert(NVIM_DAP_SESSION@.len() != NVIM_DBUI_AVAILABLE@.len());
    assert(NVIM_DAP_SESSION@.len() != NVIM_DBUI_VISIBLE@.len());
    assert(NVIM_DAP_SESSION@.len() != NVIM_DBUI_IN_BUFFER@.len());
    assert(NVIM_DAP_SESSION@.len() != NVIM_DBUI_CONNECTIONS_JSON@.len());
    assert(NVIM_DAPUI_AVAILABLE@.len() != NVIM_DAPUI_VISIBLE@.len());
    assert(NVIM_DAPUI_AVAILABLE@.len() != NVIM_NEOTEST_AVAILABLE@.len());
    assert(NVIM_DAPUI_AVAILABLE@.len() != NVIM_NEOTEST_SUMMARY_VISIBLE@.len());
    assert(NVIM_DAPUI_AVAILABLE@.len() != NVIM_NEOTEST_UPDATED_AT_MS@.len());
    assert(NVIM_DAPUI_AVAILABLE@.len() != NVIM_DBUI_AVAILABLE@.len());
    assert(NVIM_DAPUI_AVAILABLE@.len() != NVIM_DBUI_VISIBLE@.len());
    assert(NVIM_DAPUI_AVAILABLE@.len() != NVIM_DBUI_IN_BUFFER@.len());
    assert(NVIM_DAPUI_AVAILABLE@.len() != NVIM_DBUI_CONNECTIONS_JSON@.len());
    assert(NVIM_DAPUI_VISIBLE@.len() != NVIM_NEOTEST_AVAILABLE@.len());
    assert(NVIM_DAPUI_VISIBLE@.len() != NVIM_NEOTEST_SUMMARY_VISIBLE@.len());
    assert(NVIM_DAPUI_VISIBLE@.len() != NVIM_NEOTEST_UPDATED_AT_MS@.len());
    assert(NVIM_DAPUI_VISIBLE@.len() != NVIM_DBUI_AVAILABLE@.len());
    assert(NVIM_DAPUI_VISIBLE@.len() != NVIM_DBUI_VISIBLE@.len());
    assert(NVIM_DAPUI_VISIBLE@.len() != NVIM_DBUI_IN_BUFFER@.len());
    assert(NVIM_DAPUI_VISIBLE@.len() != NVIM_DBUI_CONNECTIONS_JSON@.len());
    assert(NVIM_NEOTEST_AVAILABLE@.len() != NVIM_NEOTEST_SUMMARY_VISIBLE@.len());
    assert(NVIM_NEOTEST_AVAILABLE@.len() != NVIM_NEOTEST_UPDATED_AT_MS@.len());
    assert(NVIM_NEOTEST_AVAILABLE@.len() != NVIM_DBUI_AVAILABLE@.len());
    assert(NVIM_NEOTEST_AVAILABLE@.len() != NVIM_DBUI_VISIBLE@.len());
    assert(NVIM_NEOTEST_AVAILABLE@.len() != NVIM_DBUI_IN_BUFFER@.len());
    assert(NVIM_NEOTEST_AVAILABLE@.len() != NVIM_DBUI_CONNECTIONS_JSON@.len());
    assert(NVIM_NEOTEST_SUMMARY_VISIBLE@.len() != NVIM_NEOTEST_UPDATED_AT_MS@.len());
    assert(NVIM_NEOTEST_SUMMARY_VISIBLE@.len() != NVIM_DBUI_AVAILABLE@.len());
    assert(NVIM_NEOTEST_SUMMARY_VISIBLE@.len() != NVIM_DBUI_VISIBLE@.len());
    assert(NVIM_NEOTEST_SUMMARY_VISIBLE@.len() != NVIM_DBUI_IN_BUFFER@.len());
    assert(NVIM_NEOTEST_SUMMARY_VISIBLE@.len() != NVIM_DBUI_CONNECTIONS_JSON@.len());
    assert(NVIM_NEOTEST_UPDATED_AT_MS@.len() != NVIM_DBUI_AVAILABLE@.len());
    assert(NVIM_NEOTEST_UPDATED_AT_MS@.len() != NVIM_DBUI_VISIBLE@.len());
    assert(NVIM_NEOTEST_UPDATED_AT_MS@.len() != NVIM_DBUI_IN_BUFFER@.len());
    assert(NVIM_NEOTEST_UPDATED_AT_MS@[5] != NVIM_DBUI_CONNECTIONS_JSON@[5]);
    assert(NVIM_DBUI_AVAILABLE@.len() != NVIM_DBUI_VISIBLE@.len());
    assert(NVIM_DBUI_AVAILABLE@[10] != NVIM_DBUI_IN_BUFFER@[10]);
    assert(NVIM_DBUI_AVAILABLE@.len() != NVIM_DBUI_CONNECTIONS_JSON@.len());
    assert(NVIM_DBUI_VISIBLE@.len() != NVIM_DBUI_IN_BUFFER@.len());
    assert(NVIM_DBUI_VISIBLE@.len() != NVIM_DBUI_CONNECTIONS_JSON@.len());
    assert(NVIM_DBUI_IN_BUFFER@.len() != NVIM_DBUI_CONNECTIONS_JSON@.len());
}

/// No two of the agent keys are the same.
pub proof fn law_pi_keys_differ()
    ensures
        PI_MODEL@ != PI_PROVIDER@,
        PI_MODEL@ != PI_THINKING@,
        PI_MODEL@ != PI_WORKFLOW_MODE@,
        PI_PROVIDER@ != PI_THINKING@,
        PI_PROVIDER@ != PI_WORKFLOW_MODE@,
        PI_THINKING@ != PI_WORKFLOW_MODE@,
{
    reveal_strlit("pi.model");
    reveal_strlit("pi.provider");
    reveal_strlit("pi.thinking");
    reveal_strlit("pi.workflow.mode");
    assert(PI_MODEL@.len() != PI_PROVIDER@.len());
    assert(PI_MODEL@.len() != PI_THINKING@.len());
    assert(PI_MODEL@.len() != PI_WORKFLOW_MODE@.len());
    assert(PI_PROVIDER@[3] != PI_THINKING@[3]);
    assert(PI_PROVIDER@.len() != PI_WORKFLOW_MODE@.len());
    assert(PI_THINKING@.len() != PI_WORKFLOW_MODE@.len());
}

/// The letters that the names of keys begin with tell their groups apart.
pub proof fn lemma_first_letters()
    ensures
        HARDWARE_BRIGHTNESS@.len() > 0 && HARDWARE_BRIGHTNESS@[0] == 'h',
        HARDWARE_KBD_ILLUM@.len() > 0 && HARDWARE_KBD_ILLUM@[0] == 'h',
        AUDIO_VOLUME@.len() > 0 && AUDIO_VOLUME@[0] == 'a',
        CONTEXT_FOCUS_CLASS@.len() > 0 && CONTEXT_FOCUS_CLASS@[0] == 'c',
        CONTEXT_FOCUS_TITLE@.len() > 0 && CONTEXT_FOCUS_TITLE@[0] == 'c',
        MEDIA_ACTIVE_PLAYER@.len() > 0 && MEDIA_ACTIVE_PLAYER@[0] == 'm',
        MEDIA_ACTIVE_TRACK_ID@.len() > 0 && MEDIA_ACTIVE_TRACK_ID@[0] == 'm',
        MEDIA_ACTIVE_STATUS@.len() > 0 && MEDIA_ACTIVE_STATUS@[0] == 'm',
        MEDIA_ACTIVE_TITLE@.len() > 0 && MEDIA_ACTIVE_TITLE@[0] == 'm',
        MEDIA_ACTIVE_ART_URL@.len() > 0 && MEDIA_ACTIVE_ART_URL@[0] == 'm',
        MEDIA_ACTIVE_LENGTH@.len() > 0 && MEDIA_ACTIVE_LENGTH@[0] == 'm',
        MEDIA_ACTIVE_POSITION@.len() > 0 && MEDIA_ACTIVE_POSITION@[0] == 'm',
        CHROMIUM_MEDIA_ACTIVE@.len() > 0 && CHROMIUM_MEDIA_ACTIVE@[0] == 'c',
        CHROMIUM_TABS_AVAILABLE@.len() > 0 && CHROMIUM_TABS_AVAILABLE@[0] == 'c',
        CHROMIUM_TABS_JSON@.len() > 0 && CHROMIUM_TABS_JSON@[0] == 'c',
        CHROMIUM_TABS_COUNT@.len() > 0 && CHROMIUM_TABS_COUNT@[0] == 'c',
        CHROMIUM_TABS_ACTIVE_INDEX@.len() > 0 && CHROMIUM_TABS_ACTIVE_INDEX@[0] == 'c',
        NVIM_BRIDGE_AVAILABLE@.len() > 0 && NVIM_BRIDGE_AVAILABLE@[0] == 'n',
        NVIM_BRIDGE_SOCKET@.len() > 0 && NVIM_BRIDGE_SOCKET@[0] == 'n',
        NVIM_PID@.len() > 0 && NVIM_PID@[0] == 'n',
        NVIM_CWD@.len() > 0 && NVIM_CWD@[0] == 'n',
        NVIM_FILE@.len() > 0 && NVIM_FILE@[0] == 'n',
        NVIM_FILETYPE@.len() > 0 && NVIM_FILETYPE@[0] == 'n',
        NVIM_MODE@.len() > 0 && NVIM_MODE@[0] == 'n',
        NVIM_DAP_ACTIVE@.len() > 0 && NVIM_DAP_ACTIVE@[0] == 'n',
        NVIM_DAP_STATE@.len() > 0 && NVIM_DAP_STATE@[0] == 'n',
        NVIM_DAP_ADAPTER@.len() > 0 && NVIM_DAP_ADAPTER@[0] == 'n',
        NVIM_DAP_SESSION@.len() > 0 && NVIM_DAP_SESSION@[0] == 'n',
        NVIM_DAPUI_AVAILABLE@.len() > 0 && NVIM_DAPUI_AVAILABLE@[0] == 'n',
        NVIM_DAPUI_VISIBLE@.len() > 0 && NVIM_DAPUI_VISIBLE@[0] == 'n',
        NVIM_NEOTEST_AVAILABLE@.len() > 0 && NVIM_NEOTEST_AVAILABLE@[0] == 'n',
        NVIM_NEOTEST_SUMMARY_VISIBLE@.len() > 0 && NVIM_NEOTEST_SUMMARY_VISIBLE@[0] == 'n',
        NVIM_NEOTEST_UPDATED_AT_MS@.len() > 0 && NVIM_NEOTEST_UPDATED_AT_MS@[0] == 'n',
        NVIM_DBUI_AVAILABLE@.len() > 0 && NVIM_DBUI_AVAILABLE@[0] == 'n',
        NVIM_DBUI_VISIBLE@.len() > 0 && NVIM_DBUI_VISIBLE@[0] == 'n',
        NVIM_DBUI_IN_BUFFER@.len() > 0 && NVIM_DBUI_IN_BUFFER@[0] == 'n',
        NVIM_DBUI_CONNECTIONS_JSON@.len() > 0 && NVIM_DBUI_CONNECTIONS_JSON@[0] == 'n',
        PI_MODEL@.len() > 0 && PI_MODEL@[0] == 'p',
        PI_PROVIDER@.len() > 0 && PI_PROVIDER@[0] == 'p',
        PI_THINKING@.len() > 0 && PI_THINKING@[0] == 'p',
        PI_WORKFLOW_MODE@.len() > 0 && PI_WORKFLOW_MODE@[0] == 'p',
        TERMINAL_AVAILABLE@.len() > 0 && TERMINAL_AVAILABLE@[0] == 't',
        TERMINAL_NAME@.len() > 0 && TERMINAL_NAME@[0] == 't',
        TERMINAL_KIND@.len() > 0 && TERMINAL_KIND@[0] == 't',
        TERMINAL_ROOT_PID@.len() > 0 && TERMINAL_ROOT_PID@[0] == 't',
        TERMINAL_COMMAND@.len() > 0 && TERMINAL_COMMAND@[0] == 't',
        TERMINAL_CWD@.len() > 0 && TERMINAL_CWD@[0] == 't',
        TERMINAL_APP@.len() > 0 && TERMINAL_APP@[0] == 't',
        TERMINAL_APP_PID@.len() > 0 && TERMINAL_APP_PID@[0] == 't',
        TERMINAL_NVIM_PID@.len() > 0 && TERMINAL_NVIM_PID@[0] == 't',
        TERMINAL_TMUX_CLIENT_PID@.len() > 0 && TERMINAL_TMUX_CLIENT_PID@[0] == 't',
        TERMINAL_TMUX_CLIENT_TTY@.len() > 0 && TERMINAL_TMUX_CLIENT_TTY@[0] == 't',
        TERMINAL_TMUX_SESSION@.len() > 0 && TERMINAL_TMUX_SESSION@[0] == 't',
        TERMINAL_TMUX_WINDOW@.len() > 0 && TERMINAL_TMUX_WINDOW@[0] == 't',
        TERMINAL_TMUX_PANE_INDEX@.len() > 0 && TERMINAL_TMUX_PANE_INDEX@[0] == 't',
        TERMINAL_TMUX_PANE_ID@.len() > 0 && TERMINAL_TMUX_PANE_ID@[0] == 't',
        TERMINAL_TMUX_PANE_PID@.len() > 0 && TERMINAL_TMUX_PANE_PID@[0] == 't',
        TERMINAL_TMUX_PANE_COMMAND@.len() > 0 && TERMINAL_TMUX_PANE_COMMAND@[0] == 't',
        TERMINAL_TMUX_PANE_PATH@.len() > 0 && TERMINAL_TMUX_PANE_PATH@[0] == 't',
        TERMINAL_TMUX_PANE_TITLE@.len() > 0 && TERMINAL_TMUX_PANE_TITLE@[0] == 't',
        BROWSER_TABS_AVAILABLE@.len() > 0 && BROWSER_TABS_AVAILABLE@[0] == 'c',
        BROWSER_TABS_JSON@.len() > 0 && BROWSER_TABS_JSON@[0] == 'c',
        BROWSER_TABS_ACTIVE_INDEX@.len() > 0 && BROWSER_TABS_ACTIVE_INDEX@[0] == 'c',
{
    reveal_strlit("audio.volume");
    reveal_strlit("chromium.media.active");
    reveal_strlit("chromium.tabs.active_index");
    reveal_strlit("chromium.tabs.available");
    reveal_strlit("chromium.tabs.count");
    reveal_strlit("chromium.tabs.json");
    reveal_strlit("context.focus.class");
    reveal_strlit("context.focus.title");
    reveal_strlit("hardware.brightness");
    reveal_strlit("hardware.kbd_illum");
    reveal_strlit("media.active.art_url");
    reveal_strlit("media.active.length");
    reveal_strlit("media.active.player");
    reveal_strlit("media.active.position");
    reveal_strlit("media.active.status");
    reveal_strlit("media.active.title");
    reveal_strlit("media.active.track_id");
    reveal_strlit("nvim.bridge.available");
    reveal_strlit("nvim.bridge.socket");
    reveal_strlit("nvim.cwd");
    reveal_strlit("nvim.dap.active");
    reveal_strlit("nvim.dap.adapter");
    reveal_strlit("nvim.dap.session");
    reveal_strlit("nvim.dap.state");
    reveal_strlit("nvim.dapui.available");
    reveal_strlit("nvim.dapui.visible");
    reveal_strlit("nvim.dbui.available");
    reveal_strlit("nvim.dbui.connections_json");
    reveal_strlit("nvim.dbui.in_buffer");
    reveal_strlit("nvim.dbui.visible");
    reveal_strlit("nvim.file");
    reveal_strlit("nvim.filetype");
    reveal_strlit("nvim.mode");
    reveal_strlit("nvim.neotest.available");
    reveal_strlit("nvim.neotest.summary_visible");
    reveal_strlit("nvim.neotest.updated_at_ms");
    reveal_strlit("nvim.pid");
    reveal_strlit("pi.model");
    reveal_strlit("pi.provider");
    reveal_strlit("pi.thinking");
    reveal_strlit("pi.workflow.mode");
    reveal_strlit("terminal.app");
    reveal_strlit("terminal.app_pid");
    reveal_strlit("terminal.available");
    reveal_strlit("terminal.command");
    reveal_strlit("terminal.cwd");
    reveal_strlit("terminal.kind");
    reveal_strlit("terminal.name");
    reveal_strlit("terminal.nvim_pid");
    reveal_strlit("terminal.root_pid");
    reveal_strlit("terminal.tmux.client_pid");
    reveal_strlit("terminal.tmux.client_tty");
    reveal_strlit("terminal.tmux.pane_command");
    reveal_strlit("terminal.tmux.pane_id");
    reveal_strlit("terminal.tmux.pane_index");
    reveal_strlit("terminal.tmux.pane_path");
    reveal_strlit("terminal.tmux.pane_pid");
    reveal_strlit("terminal.tmux.pane_title");
    reveal_strlit("terminal.tmux.session");
    reveal_strlit("terminal.tmux.window");
}

} // verus!

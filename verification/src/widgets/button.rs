//! Buttons: the shared press highlight, and the behaviours behind it.
use crate::action;
use crate::action::{Action, ActionView, Edge, Key, KEY_L, KEY_LEFT_CTRL, KEY_LEFT_SHIFT, KEY_M, KEY_TAB};
use crate::config::{ButtonConfig, ButtonConfigView};
use crate::key;
use crate::store::{Store, StoreView};
use crate::text;
use vstd::prelude::*;

verus! {

/// The side of an icon whose size is not configured, in pixels.
pub const DEFAULT_ICON_SIZE: i32 = 48;

/// The side of the icons that stand beside a label, in pixels.
pub const LABELLED_ICON_SIZE: i32 = 38;

/// An icon, as it is to be looked up and loaded.
#[derive(Debug)]
pub struct IconRequest {
    pub name: String,
    pub theme: Option<String>,
    pub width: i32,
    pub height: i32,
    /// Whether only a vector image will do.
    pub svg_only: bool,
}

/// An icon request, its texts taken as sequences.
pub struct IconView {
    pub name: Seq<char>,
    pub theme: Option<Seq<char>>,
    pub width: i32,
    pub height: i32,
    pub svg_only: bool,
}

impl View for IconRequest {
    type V = IconView;

    open spec fn view(&self) -> IconView {
        IconView {
            name: self.name@,
            theme: text::opt_text(self.theme),
            width: self.width,
            height: self.height,
            svg_only: self.svg_only,
        }
    }
}

/// What a list of icon requests holds.
pub open spec fn icons(list: Seq<IconRequest>) -> Seq<IconView> {
    list.map_values(|i: IconRequest| i@)
}

/// The icon `name` of no theme, with sides of the given length.
pub open spec fn plain_icon(name: Seq<char>, side: i32) -> IconView {
    IconView { name, theme: None, width: side, height: side, svg_only: false }
}

impl IconRequest {
    /// The icon `name` of no theme, with sides of the given length.
    pub fn plain(name: &str, side: i32) -> (r: IconRequest)
        ensures
            r@ == plain_icon(name@, side),
    {
        IconRequest { name: name.to_string(), theme: None, width: side, height: side, svg_only: false }
    }

    /// Whether two requests ask for the same icon.
    pub fn same(&self, other: &IconRequest) -> (r: bool)
        ensures
            r == (self@ == other@),
    {
        let themes = match (&self.theme, &other.theme) {
            (Some(a), Some(b)) => text::same(a.as_str(), b.as_str()),
            (None, None) => true,
            _ => false,
        };
        text::same(self.name.as_str(), other.name.as_str()) && themes && self.width == other.width
            && self.height == other.height && self.svg_only == other.svg_only
    }

    /// Whether this icon is among `list`.
    pub fn is_in(&self, list: &Vec<IconRequest>) -> (r: bool)
        ensures
            r == icons(list@).contains(self@),
    {
        let mut i: usize = 0;
        while i < list.len()
            invariant
                0 <= i <= list@.len(),
                forall|k: int| 0 <= k < i ==> icons(list@)[k] != self@,
            decreases list@.len() - i,
        {
            if self.same(&list[i]) {
                assert(icons(list@)[i as int] == self@);
                return true;
            }
            i += 1;
        }
        false
    }

    /// The files that an icon of no theme may stand in, the most preferred first.
    pub fn paths(name: &str) -> (r: Vec<String>)
        ensures
            text::texts(r@) == icon_paths(name@),
    {
        let mut out: Vec<String> = Vec::new();
        out.push(text::concat3("/etc/tiny-dfr/", name, ".svg"));
        out.push(text::concat3("/etc/tiny-dfr/", name, ".png"));
        out.push(text::concat3("/usr/share/tiny-dfr/", name, ".svg"));
        out.push(text::concat3("/usr/share/tiny-dfr/", name, ".png"));
        assert(text::texts(out@) =~= icon_paths(name@));
        out
    }
}

/// The files that an icon of no theme may stand in, the most preferred first.
pub open spec fn icon_paths(name: Seq<char>) -> Seq<Seq<char>> {
    seq![
        "/etc/tiny-dfr/"@ + name + ".svg"@,
        "/etc/tiny-dfr/"@ + name + ".png"@,
        "/usr/share/tiny-dfr/"@ + name + ".svg"@,
        "/usr/share/tiny-dfr/"@ + name + ".png"@,
    ]
}

/// How an image file is read.
#[derive(Clone, Copy, Debug, PartialEq, Eq, Structural)]
pub enum Loader {
    Png,
    Svg,
    Unknown,
}

/// How a file with the given extension is read.
pub fn loader_for(extension: Option<&str>) -> (r: Loader)
    ensures
        r == match extension {
            Some(e) => if e@ == "png"@ {
                Loader::Png
            } else if e@ == "svg"@ {
                Loader::Svg
            } else {
                Loader::Unknown
            },
            None => Loader::Unknown,
        },
{
    match extension {
        Some(e) => if text::same(e, "png") {
            Loader::Png
        } else if text::same(e, "svg") {
            Loader::Svg
        } else {
            Loader::Unknown
        },
        None => Loader::Unknown,
    }
}

/// What is drawn on a key button.
#[derive(Debug)]
pub enum ButtonImage {
    Text(String),
    Icon(IconRequest),
}

/// What is drawn on a key button, its texts taken as sequences.
pub enum ImageView {
    Text(Seq<char>),
    Icon(IconView),
}

impl View for ButtonImage {
    type V = ImageView;

    open spec fn view(&self) -> ImageView {
        match *self {
            ButtonImage::Text(t) => ImageView::Text(t@),
            ButtonImage::Icon(i) => ImageView::Icon(i@),
        }
    }
}

/// A button that sends keys, opens or closes a layer, or talks to Neovim.
#[derive(Debug)]
pub struct KeyButton {
    pub keys: Vec<Key>,
    pub content: ButtonImage,
    /// The layer that a press opens for as long as it lasts.
    pub open_layer: Option<String>,
    /// The layer that a press opens over the whole bar.
    pub push_layer: Option<String>,
    /// Whether a press closes the layer that was opened last.
    pub pop_layer: bool,
    /// The action that a press sends to the Neovim bridge.
    pub nvim_action: Option<String>,
}

/// A key button, its texts and keys taken as sequences.
pub struct KeyButtonView {
    pub keys: Seq<Key>,
    pub content: ImageView,
    pub open_layer: Option<Seq<char>>,
    pub push_layer: Option<Seq<char>>,
    pub pop_layer: bool,
    pub nvim_action: Option<Seq<char>>,
}

impl View for KeyButton {
    type V = KeyButtonView;

    open spec fn view(&self) -> KeyButtonView {
        KeyButtonView {
            keys: self.keys@,
            content: self.content@,
            open_layer: text::opt_text(self.open_layer),
            push_layer: text::opt_text(self.push_layer),
            pop_layer: self.pop_layer,
            nvim_action: text::opt_text(self.nvim_action),
        }
    }
}

impl KeyButton {
    /// A button with a text on it.
    pub fn new_text(
        text: String,
        keys: Vec<Key>,
        open_layer: Option<String>,
        push_layer: Option<String>,
        pop_layer: bool,
    ) -> (r: KeyButton)
        ensures
            r@ == (KeyButtonView {
                keys: keys@,
                content: ImageView::Text(text@),
                open_layer: text::opt_text(open_layer),
                push_layer: text::opt_text(push_layer),
                pop_layer,
                nvim_action: None,
            }),
    {
        KeyButton {
            keys,
            content: ButtonImage::Text(text),
            open_layer,
            push_layer,
            pop_layer,
            nvim_action: None,
        }
    }

    /// A button with an icon on it, unless the icon is among those that do not load.
    pub fn new_icon(
        icon: IconRequest,
        keys: Vec<Key>,
        open_layer: Option<String>,
        push_layer: Option<String>,
        pop_layer: bool,
        failed: &Vec<IconRequest>,
    ) -> (r: Result<KeyButton, IconRequest>)
        ensures
            r is Ok <==> !icons(failed@).contains(icon@),
            r matches Ok(b) ==> b@ == (KeyButtonView {
                keys: keys@,
                content: ImageView::Icon(icon@),
                open_layer: text::opt_text(open_layer),
                push_layer: text::opt_text(push_layer),
                pop_layer,
                nvim_action: None,
            }),
            r matches Err(e) ==> e@ == icon@,
    {
        if icon.is_in(failed) {
            return Err(icon);
        }
        Ok(
            KeyButton {
                keys,
                content: ButtonImage::Icon(icon),
                open_layer,
                push_layer,
                pop_layer,
                nvim_action: None,
            },
        )
    }

    /// A button with a text on it that sends an action to the Neovim bridge.
    pub fn new_nvim_action_text(text: String, nvim_action: String) -> (r: KeyButton)
        ensures
            r@ == nvim_button(ImageView::Text(text@), nvim_action@),
    {
        let r = KeyButton {
            keys: Vec::new(),
            content: ButtonImage::Text(text),
            open_layer: None,
            push_layer: None,
            pop_layer: false,
            nvim_action: Some(nvim_action),
        };
        assert(r@.keys =~= Seq::<Key>::empty());
        r
    }

    /// A button with an icon on it that sends an action to the Neovim bridge, unless the
    /// icon is among those that do not load.
    pub fn new_nvim_action_icon(icon: &str, nvim_action: String, failed: &Vec<IconRequest>) -> (r: Result<
        KeyButton,
        IconRequest,
    >)
        ensures
            r is Ok <==> !icons(failed@).contains(plain_icon(icon@, DEFAULT_ICON_SIZE)),
            r matches Ok(b) ==> b@ == nvim_button(
                ImageView::Icon(plain_icon(icon@, DEFAULT_ICON_SIZE)),
                nvim_action@,
            ),
            r matches Err(e) ==> e@ == plain_icon(icon@, DEFAULT_ICON_SIZE),
    {
        let request = IconRequest::plain(icon, DEFAULT_ICON_SIZE);
        if request.is_in(failed) {
            return Err(request);
        }
        let r = KeyButton {
            keys: Vec::new(),
            content: ButtonImage::Icon(request),
            open_layer: None,
            push_layer: None,
            pop_layer: false,
            nvim_action: Some(nvim_action),
        };
        assert(r@.keys =~= Seq::<Key>::empty());
        Ok(r)
    }
}

/// A button that does nothing but send an action to the Neovim bridge.
pub open spec fn nvim_button(content: ImageView, nvim_action: Seq<char>) -> KeyButtonView {
    KeyButtonView {
        keys: Seq::empty(),
        content,
        open_layer: None,
        push_layer: None,
        pop_layer: false,
        nvim_action: Some(nvim_action),
    }
}

/// What a button does and shows.
#[derive(Debug)]
pub enum ButtonBackend {
    Key(KeyButton),
    /// Pauses or continues the debugger that runs in Neovim.
    DapContinuePause,
    /// Shows and changes the agent's model.
    PiModel,
    /// Shows and changes how much the agent thinks.
    PiThinking,
    /// Shows and changes whether the agent plans or builds.
    PiWorkflowMode,
}

/// What a button does and shows, its texts taken as sequences.
pub enum BackendView {
    Key(KeyButtonView),
    DapContinuePause,
    PiModel,
    PiThinking,
    PiWorkflowMode,
}

impl View for ButtonBackend {
    type V = BackendView;

    open spec fn view(&self) -> BackendView {
        match *self {
            ButtonBackend::Key(b) => BackendView::Key(b@),
            ButtonBackend::DapContinuePause => BackendView::DapContinuePause,
            ButtonBackend::PiModel => BackendView::PiModel,
            ButtonBackend::PiThinking => BackendView::PiThinking,
            ButtonBackend::PiWorkflowMode => BackendView::PiWorkflowMode,
        }
    }
}

/// What a button shows at the moment.
#[derive(Debug)]
pub enum ButtonContent {
    Text(String),
    Icon(IconRequest),
    /// An icon with a label beside it, in the given colour.
    Labelled { icon: IconRequest, label: String, red: u8, green: u8, blue: u8 },
}

/// What a button shows, its texts taken as sequences.
pub enum ContentView {
    Text(Seq<char>),
    Icon(IconView),
    Labelled { icon: IconView, label: Seq<char>, red: u8, green: u8, blue: u8 },
}

impl View for ButtonContent {
    type V = ContentView;

    open spec fn view(&self) -> ContentView {
        match *self {
            ButtonContent::Text(t) => ContentView::Text(t@),
            ButtonContent::Icon(i) => ContentView::Icon(i@),
            ButtonContent::Labelled { icon, label, red, green, blue } => ContentView::Labelled {
                icon: icon@,
                label: label@,
                red,
                green,
                blue,
            },
        }
    }
}

/// Whether the debugger that runs in Neovim is running the program.
pub open spec fn dap_running(store: StoreView) -> bool {
    store.text_or_empty(key::NVIM_DAP_STATE@) == "running"@
}

/// A label that shows a text, or only its name where the text is empty.
pub open spec fn titled(name: Seq<char>, value: Seq<char>) -> Seq<char> {
    if value.len() == 0 {
        name
    } else {
        name + ": "@ + value
    }
}

impl BackendView {
    /// The keys of the buttons that always send the same ones.
    pub open spec fn fixed_keys(self) -> Seq<Key> {
        match self {
            BackendView::PiModel => seq![Key { code: KEY_LEFT_CTRL }, Key { code: KEY_L }],
            BackendView::PiThinking => seq![Key { code: KEY_LEFT_SHIFT }, Key { code: KEY_TAB }],
            BackendView::PiWorkflowMode => seq![
                Key { code: KEY_LEFT_CTRL },
                Key { code: KEY_LEFT_SHIFT },
                Key { code: KEY_M },
            ],
            _ => Seq::empty(),
        }
    }

    /// What a press asks for.
    pub open spec fn press(self, store: StoreView) -> Option<ActionView> {
        match self {
            BackendView::Key(b) => if b.open_layer is Some {
                Some(ActionView::OpenModal(b.open_layer->0))
            } else if b.push_layer is Some {
                Some(ActionView::PushLayer(b.push_layer->0))
            } else if b.pop_layer {
                Some(ActionView::PopLayer)
            } else if b.nvim_action is Some {
                Some(ActionView::NvimBridge(b.nvim_action->0))
            } else if b.keys.len() == 0 {
                None
            } else {
                Some(ActionView::Key(b.keys, Edge::Press))
            },
            BackendView::DapContinuePause => Some(
                ActionView::NvimBridge(
                    if dap_running(store) {
                        "dap.pause"@
                    } else {
                        "dap.continue"@
                    },
                ),
            ),
            _ => Some(ActionView::Key(self.fixed_keys(), Edge::Press)),
        }
    }

    /// What a release asks for.
    pub open spec fn release(self) -> Option<ActionView> {
        match self {
            BackendView::Key(b) => if b.open_layer is Some || b.push_layer is Some || b.pop_layer
                || b.nvim_action is Some || b.keys.len() == 0 {
                None
            } else {
                Some(ActionView::Key(b.keys, Edge::Release))
            },
            BackendView::DapContinuePause => None,
            _ => Some(ActionView::Key(self.fixed_keys(), Edge::Release)),
        }
    }

    /// Whether what the button shows has changed.
    pub open spec fn stale(self, store: StoreView) -> bool {
        match self {
            BackendView::Key(_) => false,
            BackendView::DapContinuePause => store.dirty.contains(key::NVIM_DAP_STATE@),
            BackendView::PiModel => store.dirty.contains(key::PI_MODEL@),
            BackendView::PiThinking => store.dirty.contains(key::PI_THINKING@),
            BackendView::PiWorkflowMode => store.dirty.contains(key::PI_WORKFLOW_MODE@),
        }
    }

    /// What the button shows.
    pub open spec fn content(self, store: StoreView) -> ContentView {
        match self {
            BackendView::Key(b) => match b.content {
                ImageView::Text(t) => ContentView::Text(t),
                ImageView::Icon(i) => ContentView::Icon(i),
            },
            BackendView::DapContinuePause => ContentView::Icon(
                plain_icon(
                    if dap_running(store) {
                        "debug_pause"@
                    } else {
                        "debug_continue"@
                    },
                    DEFAULT_ICON_SIZE,
                ),
            ),
            BackendView::PiModel => ContentView::Text(
                titled("Model"@, store.text_or_empty(key::PI_MODEL@)),
            ),
            BackendView::PiThinking => ContentView::Text(
                titled("Thinking"@, store.text_or_empty(key::PI_THINKING@)),
            ),
            BackendView::PiWorkflowMode => if store.text_or_empty(key::PI_WORKFLOW_MODE@)
                == "plan"@ {
                ContentView::Labelled {
                    icon: plain_icon("pi_plan"@, LABELLED_ICON_SIZE),
                    label: "Plan"@,
                    red: 196,
                    green: 181,
                    blue: 253,
                }
            } else if store.text_or_empty(key::PI_WORKFLOW_MODE@) == "build"@ {
                ContentView::Labelled {
                    icon: plain_icon("pi_build"@, LABELLED_ICON_SIZE),
                    label: "Build"@,
                    red: 96,
                    green: 165,
                    blue: 250,
                }
            } else {
                ContentView::Text("Plan / Build"@)
            },
        }
    }
}

/// The keys with the given codes.
fn keys2(a: u16, b: u16) -> (r: Vec<Key>)
    ensures
        r@ == seq![Key { code: a }, Key { code: b }],
{
    let r = vec![Key { code: a }, Key { code: b }];
    assert(r@ =~= seq![Key { code: a }, Key { code: b }]);
    r
}

/// The keys with the given codes.
fn keys3(a: u16, b: u16, c: u16) -> (r: Vec<Key>)
    ensures
        r@ == seq![Key { code: a }, Key { code: b }, Key { code: c }],
{
    let r = vec![Key { code: a }, Key { code: b }, Key { code: c }];
    assert(r@ =~= seq![Key { code: a }, Key { code: b }, Key { code: c }]);
    r
}

/// A label that shows a text, or only its name where the text is empty.
fn label(name: &str, value: &str) -> (r: String)
    ensures
        r@ == titled(name@, value@),
{
    if text::is_empty(value) {
        name.to_string()
    } else {
        text::concat3(name, ": ", value)
    }
}

impl ButtonBackend {
    /// The debugger's button, unless one of its icons does not load.
    pub fn dap_continue_pause(failed: &Vec<IconRequest>) -> (r: Result<ButtonBackend, IconRequest>)
        ensures
            r is Ok <==> !icons(failed@).contains(plain_icon("debug_continue"@, DEFAULT_ICON_SIZE))
                && !icons(failed@).contains(plain_icon("debug_pause"@, DEFAULT_ICON_SIZE)),
            r matches Ok(b) ==> b@ is DapContinuePause,
            r matches Err(e) ==> e@ == if icons(failed@).contains(
                plain_icon("debug_continue"@, DEFAULT_ICON_SIZE),
            ) {
                plain_icon("debug_continue"@, DEFAULT_ICON_SIZE)
            } else {
                plain_icon("debug_pause"@, DEFAULT_ICON_SIZE)
            },
    {
        let first = IconRequest::plain("debug_continue", DEFAULT_ICON_SIZE);
        if first.is_in(failed) {
            return Err(first);
        }
        let second = IconRequest::plain("debug_pause", DEFAULT_ICON_SIZE);
        if second.is_in(failed) {
            return Err(second);
        }
        Ok(ButtonBackend::DapContinuePause)
    }

    /// The button of the agent's working mode, unless one of its icons does not load.
    pub fn pi_workflow_mode(failed: &Vec<IconRequest>) -> (r: Result<ButtonBackend, IconRequest>)
        ensures
            r is Ok <==> !icons(failed@).contains(plain_icon("pi_plan"@, LABELLED_ICON_SIZE))
                && !icons(failed@).contains(plain_icon("pi_build"@, LABELLED_ICON_SIZE)),
            r matches Ok(b) ==> b@ is PiWorkflowMode,
            r matches Err(e) ==> e@ == if icons(failed@).contains(
                plain_icon("pi_plan"@, LABELLED_ICON_SIZE),
            ) {
                plain_icon("pi_plan"@, LABELLED_ICON_SIZE)
            } else {
                plain_icon("pi_build"@, LABELLED_ICON_SIZE)
            },
    {
        let first = IconRequest::plain("pi_plan", LABELLED_ICON_SIZE);
        if first.is_in(failed) {
            return Err(first);
        }
        let second = IconRequest::plain("pi_build", LABELLED_ICON_SIZE);
        if second.is_in(failed) {
            return Err(second);
        }
        Ok(ButtonBackend::PiWorkflowMode)
    }

    /// What a press asks for.
    pub fn on_press(&self, store: &Store) -> (r: Option<Action>)
        requires
            store.wf(),
        ensures
            action::opt_action(r) == self@.press(store@),
    {
        match self {
            ButtonBackend::Key(b) => if let Some(layer) = &b.open_layer {
                Some(Action::OpenModal(layer.clone()))
            } else if let Some(layer) = &b.push_layer {
                Some(Action::PushLayer(layer.clone()))
            } else if b.pop_layer {
                Some(Action::PopLayer)
            } else if let Some(a) = &b.nvim_action {
                Some(Action::NvimBridge(a.clone()))
            } else if b.keys.len() == 0 {
                None
            } else {
                Some(Action::Key(action::clone_keys(&b.keys), Edge::Press))
            },
            ButtonBackend::DapContinuePause => if running(store) {
                Some(Action::NvimBridge("dap.pause".to_string()))
            } else {
                Some(Action::NvimBridge("dap.continue".to_string()))
            },
            ButtonBackend::PiModel => Some(Action::Key(keys2(KEY_LEFT_CTRL, KEY_L), Edge::Press)),
            ButtonBackend::PiThinking => Some(
                Action::Key(keys2(KEY_LEFT_SHIFT, KEY_TAB), Edge::Press),
            ),
            ButtonBackend::PiWorkflowMode => Some(
                Action::Key(keys3(KEY_LEFT_CTRL, KEY_LEFT_SHIFT, KEY_M), Edge::Press),
            ),
        }
    }

    /// What a release asks for.
    pub fn on_release(&self) -> (r: Option<Action>)
        ensures
            action::opt_action(r) == self@.release(),
    {
        match self {
            ButtonBackend::Key(b) => if b.open_layer.is_some() || b.push_layer.is_some()
                || b.pop_layer || b.nvim_action.is_some() || b.keys.len() == 0 {
                None
            } else {
                Some(Action::Key(action::clone_keys(&b.keys), Edge::Release))
            },
            ButtonBackend::DapContinuePause => None,
            ButtonBackend::PiModel => Some(Action::Key(keys2(KEY_LEFT_CTRL, KEY_L), Edge::Release)),
            ButtonBackend::PiThinking => Some(
                Action::Key(keys2(KEY_LEFT_SHIFT, KEY_TAB), Edge::Release),
            ),
            ButtonBackend::PiWorkflowMode => Some(
                Action::Key(keys3(KEY_LEFT_CTRL, KEY_LEFT_SHIFT, KEY_M), Edge::Release),
            ),
        }
    }

    /// Whether what the button shows has changed.
    pub fn needs_redraw(&self, store: &Store) -> (r: bool)
        requires
            store.wf(),
        ensures
            r == self@.stale(store@),
    {
        match self {
            ButtonBackend::Key(_) => false,
            ButtonBackend::DapContinuePause => store.changed(key::NVIM_DAP_STATE),
            ButtonBackend::PiModel => store.changed(key::PI_MODEL),
            ButtonBackend::PiThinking => store.changed(key::PI_THINKING),
            ButtonBackend::PiWorkflowMode => store.changed(key::PI_WORKFLOW_MODE),
        }
    }

    /// What the button shows.
    pub fn content(&self, store: &Store) -> (r: ButtonContent)
        requires
            store.wf(),
        ensures
            r@ == self@.content(store@),
    {
        proof {
            key::law_built_in_keys_are_valid();
        }
        match self {
            ButtonBackend::Key(b) => match &b.content {
                ButtonImage::Text(t) => ButtonContent::Text(t.clone()),
                ButtonImage::Icon(i) => ButtonContent::Icon(i.copy()),
            },
            ButtonBackend::DapContinuePause => if running(store) {
                ButtonContent::Icon(IconRequest::plain("debug_pause", DEFAULT_ICON_SIZE))
            } else {
                ButtonContent::Icon(IconRequest::plain("debug_continue", DEFAULT_ICON_SIZE))
            },
            ButtonBackend::PiModel => ButtonContent::Text(
                label("Model", store.text_or_empty(key::PI_MODEL).as_str()),
            ),
            ButtonBackend::PiThinking => ButtonContent::Text(
                label("Thinking", store.text_or_empty(key::PI_THINKING).as_str()),
            ),
            ButtonBackend::PiWorkflowMode => {
                let mode = store.text_or_empty(key::PI_WORKFLOW_MODE);
                if text::same(mode.as_str(), "plan") {
                    ButtonContent::Labelled {
                        icon: IconRequest::plain("pi_plan", LABELLED_ICON_SIZE),
                        label: "Plan".to_string(),
                        red: 196,
                        green: 181,
                        blue: 253,
                    }
                } else if text::same(mode.as_str(), "build") {
                    ButtonContent::Labelled {
                        icon: IconRequest::plain("pi_build", LABELLED_ICON_SIZE),
                        label: "Build".to_string(),
                        red: 96,
                        green: 165,
                        blue: 250,
                    }
                } else {
                    ButtonContent::Text("Plan / Build".to_string())
                }
            },
        }
    }
}

impl IconRequest {
    /// A copy of the request.
    pub fn copy(&self) -> (r: IconRequest)
        ensures
            r@ == self@,
    {
        IconRequest {
            name: self.name.clone(),
            theme: action::clone_text(&self.theme),
            width: self.width,
            height: self.height,
            svg_only: self.svg_only,
        }
    }
}

/// Whether the debugger that runs in Neovim is running the program.
pub fn running(store: &Store) -> (r: bool)
    requires
        store.wf(),
    ensures
        r == dap_running(store@),
{
    proof {
        key::law_built_in_keys_are_valid();
    }
    text::same(store.text_or_empty(key::NVIM_DAP_STATE).as_str(), "running")
}

/// A button: the press highlight and the behaviour behind it.
#[derive(Debug)]
pub struct Button {
    /// Whether the button has to be drawn again.
    pub changed: bool,
    /// Whether the button is pressed.
    pub active: bool,
    /// Whether a release leaves the button pressed.
    pub sticky: bool,
    pub backend: ButtonBackend,
}

/// How a control's background is filled.
#[derive(Clone, Copy, Debug, PartialEq, Eq, Structural)]
pub enum Shade {
    /// As a control under the finger.
    Pressed,
    /// As a control that can be pressed.
    Outlined,
    /// Not at all.
    Bare,
}

/// How a control's background is filled, where those that are not pressed may be outlined.
pub open spec fn shade(pressed: bool, outlines: bool) -> Shade {
    if pressed {
        Shade::Pressed
    } else if outlines {
        Shade::Outlined
    } else {
        Shade::Bare
    }
}

/// How a control's background is filled.
pub fn shade_of(pressed: bool, outlines: bool) -> (r: Shade)
    ensures
        r == shade(pressed, outlines),
{
    if pressed {
        Shade::Pressed
    } else if outlines {
        Shade::Outlined
    } else {
        Shade::Bare
    }
}

/// A button, its texts taken as sequences.
pub struct ButtonView {
    pub changed: bool,
    pub active: bool,
    pub sticky: bool,
    pub backend: BackendView,
}

impl View for Button {
    type V = ButtonView;

    open spec fn view(&self) -> ButtonView {
        ButtonView {
            changed: self.changed,
            active: self.active,
            sticky: self.sticky,
            backend: self.backend@,
        }
    }
}

/// Whether an action hands the touch over to a layer or to Neovim, so that the button is
/// not left pressed.
pub open spec fn hands_over(a: Option<ActionView>) -> bool {
    match a {
        Some(ActionView::OpenModal(_)) => true,
        Some(ActionView::PushLayer(_)) => true,
        Some(ActionView::PopLayer) => true,
        Some(ActionView::NvimBridge(_)) => true,
        Some(ActionView::NvimDbConnect(_)) => true,
        _ => false,
    }
}

impl ButtonView {
    /// A button that has not been touched.
    pub open spec fn fresh(backend: BackendView) -> ButtonView {
        ButtonView { changed: false, active: false, sticky: false, backend }
    }

    /// The button after a press, and what the press asks for.
    pub open spec fn pressed(self, store: StoreView) -> (ButtonView, Option<ActionView>) {
        if hands_over(self.backend.press(store)) {
            (self, self.backend.press(store))
        } else if self.active {
            (self, None)
        } else {
            (ButtonView { active: true, changed: true, ..self }, self.backend.press(store))
        }
    }

    /// The button after a release, and what the release asks for.
    pub open spec fn released(self) -> (ButtonView, Option<ActionView>) {
        if self.sticky || !self.active {
            (self, None)
        } else {
            (ButtonView { active: false, changed: true, ..self }, self.backend.release())
        }
    }
}

impl Button {
    /// A button that has not been touched.
    pub fn new(backend: ButtonBackend) -> (r: Button)
        ensures
            r@ == ButtonView::fresh(backend@),
    {
        Button { changed: false, active: false, sticky: false, backend }
    }

    /// Whether the button has to be drawn again.
    pub fn changed(&self, store: &Store) -> (r: bool)
        requires
            store.wf(),
        ensures
            r == (self@.changed || self@.backend.stale(store@)),
    {
        self.changed || self.backend.needs_redraw(store)
    }

    /// How the button's background is filled, and what stands on it.
    pub fn face(&self, outlines: bool, store: &Store) -> (r: (Shade, ButtonContent))
        requires
            store.wf(),
        ensures
            r.0 == shade(self@.active, outlines),
            r.1@ == self@.backend.content(store@),
    {
        (shade_of(self.active, outlines), self.backend.content(store))
    }

    /// Presses the button. Pressing a button that is pressed does nothing, so that a
    /// finger that moves on it sends nothing twice.
    pub fn on_press(&mut self, store: &Store) -> (r: Option<Action>)
        requires
            store.wf(),
        ensures
            (final(self)@, action::opt_action(r)) == old(self)@.pressed(store@),
    {
        let asked = self.backend.on_press(store);
        let over = match &asked {
            Some(a) => match a {
                Action::OpenModal(_) => true,
                Action::PushLayer(_) => true,
                Action::PopLayer => true,
                Action::NvimBridge(_) => true,
                Action::NvimDbConnect(_) => true,
                _ => false,
            },
            None => false,
        };
        if over {
            return asked;
        }
        if self.active {
            return None;
        }
        self.active = true;
        self.changed = true;
        asked
    }

    /// Releases the button. Releasing one that is not pressed does nothing, so that no
    /// key is released that was not pressed.
    pub fn on_release(&mut self) -> (r: Option<Action>)
        ensures
            (final(self)@, action::opt_action(r)) == old(self)@.released(),
    {
        if self.sticky || !self.active {
            return None;
        }
        self.active = false;
        self.changed = true;
        self.backend.on_release()
    }

    /// Notes that the button has been drawn.
    pub fn drawn(&mut self)
        ensures
            final(self)@ == (ButtonView { changed: false, ..old(self)@ }),
    {
        self.changed = false;
    }
}

/// Why a button cannot be made from its configuration.
#[derive(Debug)]
pub enum ButtonError {
    /// Neither a text nor an icon is configured.
    NoContent,
    /// The icon does not load.
    Icon(IconRequest),
}

/// The icon that a button's configuration names.
pub open spec fn configured_icon(cfg: ButtonConfigView, icon: Seq<char>) -> IconView {
    IconView {
        name: icon,
        theme: cfg.theme,
        width: cfg.icon_width.unwrap_or(DEFAULT_ICON_SIZE),
        height: cfg.icon_height.unwrap_or(DEFAULT_ICON_SIZE),
        svg_only: false,
    }
}

/// The button that a configuration with a text or an icon describes.
pub open spec fn configured_button(cfg: ButtonConfigView) -> ButtonView {
    ButtonView::fresh(
        BackendView::Key(
            KeyButtonView {
                keys: cfg.action,
                content: match cfg.text {
                    Some(t) => ImageView::Text(t),
                    None => ImageView::Icon(configured_icon(cfg, cfg.icon->0)),
                },
                open_layer: cfg.open_layer,
                push_layer: cfg.push_layer,
                pop_layer: cfg.pop_layer.unwrap_or(false),
                nvim_action: None,
            },
        ),
    )
}

impl Button {
    /// The button that a configuration describes.
    pub fn from_config(cfg: ButtonConfig, failed: &Vec<IconRequest>) -> (r: Result<
        Button,
        ButtonError,
    >)
        ensures
            r is Ok <==> cfg@.text is Some || (cfg@.icon is Some && !icons(failed@).contains(
                configured_icon(cfg@, cfg@.icon->0),
            )),
            r matches Ok(b) ==> b@ == configured_button(cfg@),
            r matches Err(ButtonError::NoContent) ==> cfg@.text is None && cfg@.icon is None,
            r matches Err(ButtonError::Icon(i)) ==> cfg@.text is None && cfg@.icon is Some && i@
                == configured_icon(cfg@, cfg@.icon->0),
    {
        let pop_layer = match cfg.pop_layer {
            Some(p) => p,
            None => false,
        };
        match cfg.text {
            Some(text) => Ok(
                Button::new(
                    ButtonBackend::Key(
                        KeyButton::new_text(
                            text,
                            cfg.action,
                            cfg.open_layer,
                            cfg.push_layer,
                            pop_layer,
                        ),
                    ),
                ),
            ),
            None => match cfg.icon {
                None => Err(ButtonError::NoContent),
                Some(name) => {
                    let icon = IconRequest {
                        name,
                        theme: cfg.theme,
                        width: match cfg.icon_width {
                            Some(w) => w,
                            None => DEFAULT_ICON_SIZE,
                        },
                        height: match cfg.icon_height {
                            Some(h) => h,
                            None => DEFAULT_ICON_SIZE,
                        },
                        svg_only: false,
                    };
                    match KeyButton::new_icon(
                        icon,
                        cfg.action,
                        cfg.open_layer,
                        cfg.push_layer,
                        pop_layer,
                        failed,
                    ) {
                        Ok(b) => Ok(Button::new(ButtonBackend::Key(b))),
                        Err(e) => Err(ButtonError::Icon(e)),
                    }
                },
            },
        }
    }
}

/// A press and the release that ends it send the same keys, and leave the button as
/// it was but for the mark that it has to be drawn again.
pub proof fn law_press_then_release(b: ButtonView, store: StoreView)
    requires
        !b.active,
        !b.sticky,
    ensures
        b.pressed(store).0.released().0 == (ButtonView {
            changed: b.changed || !hands_over(b.backend.press(store)),
            ..b
        }),
        forall|keys: Seq<Key>| #[trigger]
            b.pressed(store).1 == Some(ActionView::Key(keys, Edge::Press))
                <==> b.pressed(store).0.released().1 == Some(ActionView::Key(keys, Edge::Release)),
{
}

/// A finger that stays on a pressed button sends no key again.
pub proof fn law_press_is_idempotent(b: ButtonView, store: StoreView)
    ensures
        b.pressed(store).0.pressed(store).0 == b.pressed(store).0,
        !hands_over(b.backend.press(store)) ==> b.pressed(store).0.pressed(store).1 is None,
{
}

/// No key is released that was not pressed: a second release asks for nothing.
pub proof fn law_release_is_idempotent(b: ButtonView)
    ensures
        b.released().0.released() == (b.released().0, if b.sticky {
            b.released().1
        } else {
            None::<ActionView>
        }),
{
}

} // verus!

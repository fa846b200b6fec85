//! The configuration: how each key of the bar is described, and the layers that follow.
use crate::action;
use crate::action::{Key, KEY_ESC};
use crate::function_layer;
use crate::function_layer::{CellView, FunctionLayer};
use crate::layer::{LayerStore, LayerStoreView};
use crate::text;
use crate::widgets;
use crate::widgets::button;
use crate::widgets::button::{IconRequest, IconView, DEFAULT_ICON_SIZE};
use crate::widgets::slider::SliderBackend;
use crate::widgets::{Environment, EnvironmentView, LayerError, LayerFault};
use vstd::prelude::*;

verus! {

/// How one cell of a layer is configured.
#[derive(Debug)]
pub struct ButtonConfig {
    pub icon: Option<String>,
    pub text: Option<String>,
    pub theme: Option<String>,
    pub time: Option<String>,
    pub battery: Option<String>,
    pub media: Option<String>,
    pub chromium_tabs: Option<String>,
    pub locale: Option<String>,
    pub action: Vec<Key>,
    pub stretch: Option<usize>,
    pub icon_width: Option<i32>,
    pub icon_height: Option<i32>,
    /// The layer that a touch opens for as long as it lasts.
    pub open_layer: Option<String>,
    /// The layer that a touch opens over the whole bar.
    pub push_layer: Option<String>,
    /// Whether a touch closes the layer that was opened last.
    pub pop_layer: Option<bool>,
}

/// How one cell is configured, its texts and keys taken as sequences.
pub struct ButtonConfigView {
    pub icon: Option<Seq<char>>,
    pub text: Option<Seq<char>>,
    pub theme: Option<Seq<char>>,
    pub time: Option<Seq<char>>,
    pub battery: Option<Seq<char>>,
    pub media: Option<Seq<char>>,
    pub chromium_tabs: Option<Seq<char>>,
    pub locale: Option<Seq<char>>,
    pub action: Seq<Key>,
    pub stretch: Option<usize>,
    pub icon_width: Option<i32>,
    pub icon_height: Option<i32>,
    pub open_layer: Option<Seq<char>>,
    pub push_layer: Option<Seq<char>>,
    pub pop_layer: Option<bool>,
}

impl View for ButtonConfig {
    type V = ButtonConfigView;

    open spec fn view(&self) -> ButtonConfigView {
        ButtonConfigView {
            icon: text::opt_text(self.icon),
            text: text::opt_text(self.text),
            theme: text::opt_text(self.theme),
            time: text::opt_text(self.time),
            battery: text::opt_text(self.battery),
            media: text::opt_text(self.media),
            chromium_tabs: text::opt_text(self.chromium_tabs),
            locale: text::opt_text(self.locale),
            action: self.action@,
            stretch: self.stretch,
            icon_width: self.icon_width,
            icon_height: self.icon_height,
            open_layer: text::opt_text(self.open_layer),
            push_layer: text::opt_text(self.push_layer),
            pop_layer: self.pop_layer,
        }
    }
}

/// The width from which on the bar has no Esc key beside it and needs one on each base layer.
pub const WIDE_BAR: u16 = 2170;

/// A cell with nothing configured.
pub open spec fn blank() -> ButtonConfigView {
    ButtonConfigView {
        icon: None,
        text: None,
        theme: None,
        time: None,
        battery: None,
        media: None,
        chromium_tabs: None,
        locale: None,
        action: Seq::empty(),
        stretch: None,
        icon_width: None,
        icon_height: None,
        open_layer: None,
        push_layer: None,
        pop_layer: None,
    }
}

/// The Esc key.
pub open spec fn esc() -> ButtonConfigView {
    ButtonConfigView { text: Some("esc"@), action: seq![Key { code: KEY_ESC }], ..blank() }
}

/// A button with an icon that opens a layer for as long as it is touched.
pub open spec fn opener(icon: Seq<char>, layer: Seq<char>) -> ButtonConfigView {
    ButtonConfigView { icon: Some(icon), open_layer: Some(layer), ..blank() }
}

/// The button that closes a layer over the whole bar.
pub open spec fn closer() -> ButtonConfigView {
    ButtonConfigView { text: Some("×"@), stretch: Some(1), pop_layer: Some(true), ..blank() }
}

/// The media widget with the given share of the width.
pub open spec fn media_cell(stretch: usize) -> ButtonConfigView {
    ButtonConfigView { media: Some("active"@), stretch: Some(stretch), ..blank() }
}

/// The tab strip with the given share of the width.
pub open spec fn tabs_cell(stretch: usize) -> ButtonConfigView {
    ButtonConfigView { chromium_tabs: Some("active"@), stretch: Some(stretch), ..blank() }
}

impl ButtonConfig {
    /// A cell with nothing configured.
    pub fn blank() -> (r: ButtonConfig)
        ensures
            r@ == blank(),
    {
        let r = ButtonConfig {
            icon: None,
            text: None,
            theme: None,
            time: None,
            battery: None,
            media: None,
            chromium_tabs: None,
            locale: None,
            action: Vec::new(),
            stretch: None,
            icon_width: None,
            icon_height: None,
            open_layer: None,
            push_layer: None,
            pop_layer: None,
        };
        assert(r@.action =~= Seq::<Key>::empty());
        r
    }

    fn esc() -> (r: ButtonConfig)
        ensures
            r@ == esc(),
    {
        let mut r = ButtonConfig::blank();
        r.text = Some("esc".to_string());
        r.action = vec![Key { code: KEY_ESC }];
        assert(r@.action =~= seq![Key { code: KEY_ESC }]);
        r
    }

    fn opener(icon: &str, layer: &str) -> (r: ButtonConfig)
        ensures
            r@ == opener(icon@, layer@),
    {
        let mut r = ButtonConfig::blank();
        r.icon = Some(icon.to_string());
        r.open_layer = Some(layer.to_string());
        r
    }

    fn closer() -> (r: ButtonConfig)
        ensures
            r@ == closer(),
    {
        let mut r = ButtonConfig::blank();
        r.text = Some("×".to_string());
        r.stretch = Some(1);
        r.pop_layer = Some(true);
        r
    }

    fn media_cell(stretch: usize) -> (r: ButtonConfig)
        ensures
            r@ == media_cell(stretch),
    {
        let mut r = ButtonConfig::blank();
        r.media = Some("active".to_string());
        r.stretch = Some(stretch);
        r
    }

    fn tabs_cell(stretch: usize) -> (r: ButtonConfig)
        ensures
            r@ == tabs_cell(stretch),
    {
        let mut r = ButtonConfig::blank();
        r.chromium_tabs = Some("active".to_string());
        r.stretch = Some(stretch);
        r
    }
}

/// A layer's name and its cells.
#[derive(Debug)]
pub struct LayerConfig {
    pub name: String,
    pub keys: Vec<ButtonConfig>,
}

/// A layer's name and its cells, its texts taken as sequences.
pub struct LayerConfigView {
    pub name: Seq<char>,
    pub keys: Seq<ButtonConfigView>,
}

impl View for LayerConfig {
    type V = LayerConfigView;

    open spec fn view(&self) -> LayerConfigView {
        LayerConfigView { name: self.name@, keys: function_layer::configs(self.keys@) }
    }
}

/// What a list of layer configurations holds.
pub open spec fn layer_configs(v: Seq<LayerConfig>) -> Seq<LayerConfigView> {
    v.map_values(|l: LayerConfig| l@)
}

/// A window class and the layer that is shown while such a window is focused.
#[derive(Debug)]
pub struct AppLayer {
    pub class: String,
    pub layer: String,
}

/// A window class and its layer, its texts taken as sequences.
pub struct AppLayerView {
    pub class: Seq<char>,
    pub layer: Seq<char>,
}

impl View for AppLayer {
    type V = AppLayerView;

    open spec fn view(&self) -> AppLayerView {
        AppLayerView { class: self.class@, layer: self.layer@ }
    }
}

/// What a list of window classes and layers holds.
pub open spec fn app_layer_views(v: Seq<AppLayer>) -> Seq<AppLayerView> {
    v.map_values(|a: AppLayer| a@)
}

/// The layer of the first entry for a class.
pub open spec fn layer_for(list: Seq<AppLayerView>, class: Seq<char>) -> Option<Seq<char>>
    decreases list.len(),
{
    if list.len() == 0 {
        None
    } else if list[0].class == class {
        Some(list[0].layer)
    } else {
        layer_for(list.drop_first(), class)
    }
}

/// A configuration file, as it is read: every entry may be missing.
#[derive(Debug)]
pub struct ConfigProxy {
    pub media_layer_default: Option<bool>,
    pub show_button_outlines: Option<bool>,
    pub enable_pixel_shift: Option<bool>,
    pub font_template: Option<String>,
    pub adaptive_brightness: Option<bool>,
    pub active_brightness: Option<u32>,
    pub double_press_switch_layers: Option<u32>,
    pub primary_layer_keys: Option<Vec<ButtonConfig>>,
    pub media_layer_keys: Option<Vec<ButtonConfig>>,
    pub app_layers: Option<Vec<AppLayer>>,
    pub layers: Option<Vec<LayerConfig>>,
}

/// A configuration file, its texts taken as sequences.
pub struct ConfigProxyView {
    pub media_layer_default: Option<bool>,
    pub show_button_outlines: Option<bool>,
    pub enable_pixel_shift: Option<bool>,
    pub font_template: Option<Seq<char>>,
    pub adaptive_brightness: Option<bool>,
    pub active_brightness: Option<u32>,
    pub double_press_switch_layers: Option<u32>,
    pub primary_layer_keys: Option<Seq<ButtonConfigView>>,
    pub media_layer_keys: Option<Seq<ButtonConfigView>>,
    pub app_layers: Option<Seq<AppLayerView>>,
    pub layers: Option<Seq<LayerConfigView>>,
}

/// What an optional list of cells holds.
pub open spec fn opt_configs(v: Option<Vec<ButtonConfig>>) -> Option<Seq<ButtonConfigView>> {
    match v {
        Some(v) => Some(function_layer::configs(v@)),
        None => None,
    }
}

impl View for ConfigProxy {
    type V = ConfigProxyView;

    open spec fn view(&self) -> ConfigProxyView {
        ConfigProxyView {
            media_layer_default: self.media_layer_default,
            show_button_outlines: self.show_button_outlines,
            enable_pixel_shift: self.enable_pixel_shift,
            font_template: text::opt_text(self.font_template),
            adaptive_brightness: self.adaptive_brightness,
            active_brightness: self.active_brightness,
            double_press_switch_layers: self.double_press_switch_layers,
            primary_layer_keys: opt_configs(self.primary_layer_keys),
            media_layer_keys: opt_configs(self.media_layer_keys),
            app_layers: match self.app_layers {
                Some(v) => Some(app_layer_views(v@)),
                None => None,
            },
            layers: match self.layers {
                Some(v) => Some(layer_configs(v@)),
                None => None,
            },
        }
    }
}

// ---------------------------------------------------------------------------
// Merging the user's configuration into the shipped one
// ---------------------------------------------------------------------------

/// The first value, or the second where there is no first.
pub open spec fn either<T>(a: Option<T>, b: Option<T>) -> Option<T> {
    match a {
        Some(_) => a,
        None => b,
    }
}

/// Where the layer `name` stands, or the number of layers where there is none.
pub open spec fn place_of(layers: Seq<LayerConfigView>, name: Seq<char>) -> nat
    decreases layers.len(),
{
    if layers.len() == 0 || layers[0].name == name {
        0
    } else {
        1 + place_of(layers.drop_first(), name)
    }
}

/// The layers with one more, which replaces the one of the same name.
pub open spec fn with_layer(layers: Seq<LayerConfigView>, new: LayerConfigView) -> Seq<
    LayerConfigView,
> {
    let i = place_of(layers, new.name) as int;
    if i < layers.len() {
        layers.update(i, new)
    } else {
        layers.push(new)
    }
}

/// The layers with the first `n` of `more`, each of which replaces the one of the same name.
pub open spec fn with_layers(
    layers: Seq<LayerConfigView>,
    more: Seq<LayerConfigView>,
    n: int,
) -> Seq<LayerConfigView>
    decreases n,
{
    if n <= 0 {
        layers
    } else {
        with_layer(with_layers(layers, more, n - 1), more[n - 1])
    }
}

impl ConfigProxyView {
    /// This configuration, with what the user has configured in its place.
    pub open spec fn overridden(self, user: ConfigProxyView) -> ConfigProxyView {
        ConfigProxyView {
            media_layer_default: either(user.media_layer_default, self.media_layer_default),
            show_button_outlines: either(user.show_button_outlines, self.show_button_outlines),
            enable_pixel_shift: either(user.enable_pixel_shift, self.enable_pixel_shift),
            font_template: either(user.font_template, self.font_template),
            adaptive_brightness: either(user.adaptive_brightness, self.adaptive_brightness),
            active_brightness: either(user.active_brightness, self.active_brightness),
            double_press_switch_layers: either(
                user.double_press_switch_layers,
                self.double_press_switch_layers,
            ),
            primary_layer_keys: either(user.primary_layer_keys, self.primary_layer_keys),
            media_layer_keys: either(user.media_layer_keys, self.media_layer_keys),
            app_layers: either(user.app_layers, self.app_layers),
            layers: match user.layers {
                Some(more) => Some(
                    with_layers(
                        self.layers.unwrap_or(Seq::empty()),
                        more,
                        more.len() as int,
                    ),
                ),
                None => self.layers,
            },
        }
    }
}

/// Where the layer `name` stands, or the number of layers where there is none.
fn find_place(layers: &Vec<LayerConfig>, name: &str) -> (r: usize)
    ensures
        r == place_of(layer_configs(layers@), name@),
        r <= layers@.len(),
{
    let ghost all = layer_configs(layers@);
    let mut i: usize = 0;
    assert(all.skip(0) =~= all);
    while i < layers.len()
        invariant
            0 <= i <= layers@.len(),
            all == layer_configs(layers@),
            place_of(all, name@) == i + place_of(all.skip(i as int), name@),
        decreases layers@.len() - i,
    {
        assert(all.skip(i as int)[0] == layers@[i as int]@);
        if text::same(layers[i].name.as_str(), name) {
            return i;
        }
        assert(all.skip(i as int).drop_first() =~= all.skip(i + 1));
        i += 1;
    }
    i
}

/// Adds layers, each of which replaces the one of the same name.
fn extend_layers(layers: &mut Vec<LayerConfig>, more: Vec<LayerConfig>)
    ensures
        layer_configs(final(layers)@) == with_layers(
            layer_configs(old(layers)@),
            layer_configs(more@),
            more@.len() as int,
        ),
{
    let ghost start = layer_configs(layers@);
    let ghost wanted = layer_configs(more@);
    for new in it: more
        invariant
            it.seq() == more@,
            wanted == layer_configs(more@),
            layer_configs(layers@) == with_layers(start, wanted, it.index() as int),
    {
        let ghost before = layer_configs(layers@);
        let ghost n = it.index() as int;
        assert(new@ == wanted[n]);
        let at = find_place(layers, new.name.as_str());
        if at < layers.len() {
            layers.set(at, new);
            assert(layer_configs(layers@) =~= before.update(at as int, new@));
        } else {
            layers.push(new);
            assert(layer_configs(layers@) =~= before.push(new@));
        }
    }
}

/// The first value, or the second where there is no first.
fn pick<T>(a: Option<T>, b: Option<T>) -> (r: Option<T>)
    ensures
        r == either(a, b),
{
    match a {
        Some(v) => Some(v),
        None => b,
    }
}

impl ConfigProxy {
    /// This configuration, with what the user has configured in its place.
    pub fn overridden(self, user: ConfigProxy) -> (r: ConfigProxy)
        ensures
            r@ == self@.overridden(user@),
    {
        let layers = match user.layers {
            Some(more) => {
                let mut all: Vec<LayerConfig> = match self.layers {
                    Some(v) => v,
                    None => Vec::new(),
                };
                assert(self@.layers is None ==> layer_configs(all@) =~= Seq::empty());
                extend_layers(&mut all, more);
                Some(all)
            },
            None => self.layers,
        };
        ConfigProxy {
            media_layer_default: pick(user.media_layer_default, self.media_layer_default),
            show_button_outlines: pick(user.show_button_outlines, self.show_button_outlines),
            enable_pixel_shift: pick(user.enable_pixel_shift, self.enable_pixel_shift),
            font_template: pick(user.font_template, self.font_template),
            adaptive_brightness: pick(user.adaptive_brightness, self.adaptive_brightness),
            active_brightness: pick(user.active_brightness, self.active_brightness),
            double_press_switch_layers: pick(
                user.double_press_switch_layers,
                self.double_press_switch_layers,
            ),
            primary_layer_keys: pick(user.primary_layer_keys, self.primary_layer_keys),
            media_layer_keys: pick(user.media_layer_keys, self.media_layer_keys),
            app_layers: pick(user.app_layers, self.app_layers),
            layers,
        }
    }
}

// ---------------------------------------------------------------------------
// The configuration and the layers that follow from a file
// ---------------------------------------------------------------------------

/// The configuration that is in force, besides the layers.
#[derive(Debug)]
pub struct Config {
    pub show_button_outlines: bool,
    pub enable_pixel_shift: bool,
    pub font_template: String,
    pub adaptive_brightness: bool,
    pub active_brightness: u32,
    pub double_press_switch_layers: u32,
    /// The layers of the focused applications.
    pub app_layers: Vec<AppLayer>,
}

/// The configuration that is in force, its texts taken as sequences.
pub struct ConfigView {
    pub show_button_outlines: bool,
    pub enable_pixel_shift: bool,
    pub font_template: Seq<char>,
    pub adaptive_brightness: bool,
    pub active_brightness: u32,
    pub double_press_switch_layers: u32,
    pub app_layers: Seq<AppLayerView>,
}

impl View for Config {
    type V = ConfigView;

    open spec fn view(&self) -> ConfigView {
        ConfigView {
            show_button_outlines: self.show_button_outlines,
            enable_pixel_shift: self.enable_pixel_shift,
            font_template: self.font_template@,
            adaptive_brightness: self.adaptive_brightness,
            active_brightness: self.active_brightness,
            double_press_switch_layers: self.double_press_switch_layers,
            app_layers: app_layer_views(self.app_layers@),
        }
    }
}

impl Config {
    /// The layer of the windows of a class.
    pub fn app_layer(&self, class: &str) -> (r: Option<String>)
        ensures
            text::opt_text(r) == layer_for(self@.app_layers, class@),
    {
        let ghost all = self@.app_layers;
        let mut i: usize = 0;
        assert(all.skip(0) =~= all);
        while i < self.app_layers.len()
            invariant
                0 <= i <= self.app_layers@.len(),
                all == app_layer_views(self.app_layers@),
                layer_for(all, class@) == layer_for(all.skip(i as int), class@),
            decreases self.app_layers@.len() - i,
        {
            assert(all.skip(i as int)[0] == self.app_layers@[i as int]@);
            if text::same(self.app_layers[i].class.as_str(), class) {
                return Some(self.app_layers[i].layer.clone());
            }
            assert(all.skip(i as int).drop_first() =~= all.skip(i + 1));
            i += 1;
        }
        None
    }
}

/// Why a configuration cannot be used.
#[derive(Debug)]
pub enum ConfigError {
    /// An entry is missing.
    Missing(&'static str),
    /// A layer cannot be made; `configured` tells a layer of the file from a built-in one.
    Layer { name: String, configured: bool, error: LayerError },
    /// A window class is given a layer that does not exist.
    UnknownLayer { class: String, layer: String },
    /// The font does not load.
    Font(String),
}

/// Why a configuration cannot be used, its texts taken as sequences.
pub enum ConfigFault {
    Missing(Seq<char>),
    Layer { name: Seq<char>, configured: bool, error: LayerFault },
    UnknownLayer { class: Seq<char>, layer: Seq<char> },
    Font(Seq<char>),
}

impl View for ConfigError {
    type V = ConfigFault;

    open spec fn view(&self) -> ConfigFault {
        match *self {
            ConfigError::Missing(key) => ConfigFault::Missing(key@),
            ConfigError::Layer { name, configured, error } => ConfigFault::Layer {
                name: name@,
                configured,
                error: error@,
            },
            ConfigError::UnknownLayer { class, layer } => ConfigFault::UnknownLayer {
                class: class@,
                layer: layer@,
            },
            ConfigError::Font(f) => ConfigFault::Font(f@),
        }
    }
}

/// A base layer's cells, with an Esc key in front on a wide bar.
pub open spec fn with_esc(keys: Seq<ButtonConfigView>, width: u16) -> Seq<ButtonConfigView> {
    if width >= WIDE_BAR {
        seq![esc()] + keys
    } else {
        keys
    }
}

/// How many layers are built in.
pub const BUILT_IN_LAYERS: usize = 10;

/// The layers to make, in the order in which they are made: the base layers, the other
/// built-in ones, and those of the file.
pub open spec fn layer_plan(
    media: Seq<ButtonConfigView>,
    primary: Seq<ButtonConfigView>,
    configured: Seq<LayerConfigView>,
    width: u16,
) -> Seq<LayerConfigView> {
    let volume = opener("volume_up"@, "volume"@);
    let brightness = opener("brightness_high"@, "brightness"@);
    seq![
        LayerConfigView { name: "media"@, keys: with_esc(media, width) },
        LayerConfigView { name: "fkeys"@, keys: with_esc(primary, width) },
        LayerConfigView { name: "global-left"@, keys: seq![esc()] },
        LayerConfigView { name: "global-right"@, keys: seq![volume, brightness] },
        LayerConfigView {
            name: "global-right-media"@,
            keys: seq![
                ButtonConfigView {
                    icon: Some("play_pause"@),
                    push_layer: Some("media-overlay"@),
                    ..blank()
                },
                volume,
                brightness,
            ],
        },
        LayerConfigView { name: "media-active"@, keys: seq![media_cell(8)] },
        LayerConfigView { name: "media-overlay"@, keys: seq![media_cell(16), closer()] },
        LayerConfigView { name: "chromium-tabs"@, keys: seq![tabs_cell(8)] },
        LayerConfigView { name: "chromium-tabs-overlay"@, keys: seq![tabs_cell(16), closer()] },
        LayerConfigView {
            name: "global-right-tabs"@,
            keys: seq![
                ButtonConfigView {
                    text: Some("Tabs"@),
                    push_layer: Some("chromium-tabs-overlay"@),
                    ..blank()
                },
                volume,
                brightness,
            ],
        },
    ] + configured
}

/// The layers that the first `n` of a plan give, or what is wrong with one of them.
pub open spec fn planned(plan: Seq<LayerConfigView>, env: EnvironmentView, n: int) -> Result<
    Map<Seq<char>, Seq<CellView>>,
    ConfigFault,
>
    decreases n,
{
    if n <= 0 {
        Ok(Map::empty())
    } else {
        match planned(plan, env, n - 1) {
            Err(e) => Err(e),
            Ok(layers) => match function_layer::layer_of(plan[n - 1].keys, env) {
                Ok(cells) => Ok(layers.insert(plan[n - 1].name, cells)),
                Err(error) => Err(
                    ConfigFault::Layer {
                        name: plan[n - 1].name,
                        configured: n - 1 >= BUILT_IN_LAYERS,
                        error,
                    },
                ),
            },
        }
    }
}

/// The layers, with the sliders that are always there.
pub open spec fn with_sliders(layers: Map<Seq<char>, Seq<CellView>>, now: u64) -> Map<
    Seq<char>,
    Seq<CellView>,
> {
    layers.insert(
        "brightness"@,
        function_layer::slider_cells(SliderBackend::Brightness, now),
    ).insert("kbd_illum"@, function_layer::slider_cells(SliderBackend::KbdIllum, now)).insert(
        "volume"@,
        function_layer::slider_cells(SliderBackend::Volume, now),
    )
}

/// The first window class whose layer does not exist.
pub open spec fn first_unknown(
    list: Seq<AppLayerView>,
    layers: Map<Seq<char>, Seq<CellView>>,
) -> Option<AppLayerView>
    decreases list.len(),
{
    if list.len() == 0 {
        None
    } else if !layers.contains_key(list[0].layer) {
        Some(list[0])
    } else {
        first_unknown(list.drop_first(), layers)
    }
}

/// The plan that a configuration with both base layers gives.
pub open spec fn plan_of(p: ConfigProxyView, width: u16) -> Seq<LayerConfigView> {
    layer_plan(
        p.media_layer_keys->0,
        p.primary_layer_keys->0,
        p.layers.unwrap_or(Seq::empty()),
        width,
    )
}

/// The base layers, the one that is shown while Fn is not held first.
pub open spec fn base_names(media_first: bool) -> (Seq<char>, Seq<char>) {
    if media_first {
        ("media"@, "fkeys"@)
    } else {
        ("fkeys"@, "media"@)
    }
}

/// What a configuration gives where its layers are made, or what is wrong with the rest.
pub open spec fn settled(
    p: ConfigProxyView,
    layers: Map<Seq<char>, Seq<CellView>>,
    font_loads: bool,
) -> Result<(ConfigView, LayerStoreView), ConfigFault> {
    let app_layers = p.app_layers.unwrap_or(Seq::empty());
    if p.media_layer_default is None {
        Err(ConfigFault::Missing("MediaLayerDefault"@))
    } else if first_unknown(app_layers, layers) is Some {
        let a = first_unknown(app_layers, layers)->0;
        Err(ConfigFault::UnknownLayer { class: a.class, layer: a.layer })
    } else if p.show_button_outlines is None {
        Err(ConfigFault::Missing("ShowButtonOutlines"@))
    } else if p.enable_pixel_shift is None {
        Err(ConfigFault::Missing("EnablePixelShift"@))
    } else if p.adaptive_brightness is None {
        Err(ConfigFault::Missing("AdaptiveBrightness"@))
    } else if p.font_template is None {
        Err(ConfigFault::Missing("FontTemplate"@))
    } else if !font_loads {
        Err(ConfigFault::Font(p.font_template->0))
    } else if p.active_brightness is None {
        Err(ConfigFault::Missing("ActiveBrightness"@))
    } else if p.double_press_switch_layers is None {
        Err(ConfigFault::Missing("DoublePressSwitchLayers"@))
    } else {
        let (base, fn_base) = base_names(p.media_layer_default->0);
        Ok(
            (
                ConfigView {
                    show_button_outlines: p.show_button_outlines->0,
                    enable_pixel_shift: p.enable_pixel_shift->0,
                    font_template: p.font_template->0,
                    adaptive_brightness: p.adaptive_brightness->0,
                    active_brightness: p.active_brightness->0,
                    double_press_switch_layers: p.double_press_switch_layers->0,
                    app_layers,
                },
                LayerStoreView { registry: layers, base, fn_base },
            ),
        )
    }
}

/// What a configuration gives: the settings and the layers, or what is wrong with it.
pub open spec fn loaded(
    p: ConfigProxyView,
    width: u16,
    env: EnvironmentView,
    font_loads: bool,
    now: u64,
) -> Result<(ConfigView, LayerStoreView), ConfigFault> {
    if p.media_layer_keys is None {
        Err(ConfigFault::Missing("MediaLayerKeys"@))
    } else if p.primary_layer_keys is None {
        Err(ConfigFault::Missing("PrimaryLayerKeys"@))
    } else {
        let plan = plan_of(p, width);
        match planned(plan, env, plan.len() as int) {
            Err(e) => Err(e),
            Ok(layers) => settled(p, with_sliders(layers, now), font_loads),
        }
    }
}

/// Whether the shares of each layer of a configuration can be added up.
pub open spec fn loadable(p: ConfigProxyView, width: u16) -> bool {
    &&& p.media_layer_keys is Some ==> function_layer::fits(with_esc(p.media_layer_keys->0, width))
    &&& p.primary_layer_keys is Some ==> function_layer::fits(
        with_esc(p.primary_layer_keys->0, width),
    )
    &&& p.layers is Some ==> forall|i: int|
        0 <= i < p.layers->0.len() ==> function_layer::fits((#[trigger] p.layers->0[i]).keys)
}

/// A base layer's cells, with an Esc key in front on a wide bar.
fn add_esc(keys: Vec<ButtonConfig>, width: u16) -> (r: Vec<ButtonConfig>)
    ensures
        function_layer::configs(r@) == with_esc(function_layer::configs(keys@), width),
{
    let mut all = keys;
    if width >= WIDE_BAR {
        all.insert(0, ButtonConfig::esc());
        assert(function_layer::configs(all@) =~= seq![esc()] + function_layer::configs(keys@));
    }
    all
}

/// A layer of one cell.
fn layer1(name: &str, a: ButtonConfig) -> (r: LayerConfig)
    ensures
        r@ == (LayerConfigView { name: name@, keys: seq![a@] }),
{
    let r = LayerConfig { name: name.to_string(), keys: vec![a] };
    assert(r@.keys =~= seq![a@]);
    r
}

/// A layer of two cells.
fn layer2(name: &str, a: ButtonConfig, b: ButtonConfig) -> (r: LayerConfig)
    ensures
        r@ == (LayerConfigView { name: name@, keys: seq![a@, b@] }),
{
    let r = LayerConfig { name: name.to_string(), keys: vec![a, b] };
    assert(r@.keys =~= seq![a@, b@]);
    r
}

/// A layer of one cell, the volume button and the brightness button.
fn right_layer(name: &str, a: ButtonConfig) -> (r: LayerConfig)
    ensures
        r@ == (LayerConfigView {
            name: name@,
            keys: seq![
                a@,
                opener("volume_up"@, "volume"@),
                opener("brightness_high"@, "brightness"@),
            ],
        }),
{
    let volume = ButtonConfig::opener("volume_up", "volume");
    let brightness = ButtonConfig::opener("brightness_high", "brightness");
    let r = LayerConfig { name: name.to_string(), keys: vec![a, volume, brightness] };
    assert(r@.keys =~= seq![
        a@,
        opener("volume_up"@, "volume"@),
        opener("brightness_high"@, "brightness"@),
    ]);
    r
}

/// The layers to make, in the order in which they are made.
fn make_plan(
    media: Vec<ButtonConfig>,
    primary: Vec<ButtonConfig>,
    configured: Vec<LayerConfig>,
    width: u16,
) -> (r: Vec<LayerConfig>)
    ensures
        layer_configs(r@) == layer_plan(
            function_layer::configs(media@),
            function_layer::configs(primary@),
            layer_configs(configured@),
            width,
        ),
{
    let mut media_button = ButtonConfig::blank();
    media_button.icon = Some("play_pause".to_string());
    media_button.push_layer = Some("media-overlay".to_string());
    assert(media_button@ == (ButtonConfigView {
        icon: Some("play_pause"@),
        push_layer: Some("media-overlay"@),
        ..blank()
    }));
    let mut tabs_button = ButtonConfig::blank();
    tabs_button.text = Some("Tabs".to_string());
    tabs_button.push_layer = Some("chromium-tabs-overlay".to_string());
    assert(tabs_button@ == (ButtonConfigView {
        text: Some("Tabs"@),
        push_layer: Some("chromium-tabs-overlay"@),
        ..blank()
    }));
    let mut plan: Vec<LayerConfig> = Vec::new();
    plan.push(LayerConfig { name: "media".to_string(), keys: add_esc(media, width) });
    plan.push(LayerConfig { name: "fkeys".to_string(), keys: add_esc(primary, width) });
    plan.push(layer1("global-left", ButtonConfig::esc()));
    plan.push(
        layer2(
            "global-right",
            ButtonConfig::opener("volume_up", "volume"),
            ButtonConfig::opener("brightness_high", "brightness"),
        ),
    );
    plan.push(right_layer("global-right-media", media_button));
    plan.push(layer1("media-active", ButtonConfig::media_cell(8)));
    plan.push(layer2("media-overlay", ButtonConfig::media_cell(16), ButtonConfig::closer()));
    plan.push(layer1("chromium-tabs", ButtonConfig::tabs_cell(8)));
    plan.push(layer2("chromium-tabs-overlay", ButtonConfig::tabs_cell(16), ButtonConfig::closer()));
    plan.push(right_layer("global-right-tabs", tabs_button));
    let ghost built_in = layer_configs(plan@);
    let ghost more = layer_configs(configured@);
    let ghost first = layer_plan(
        function_layer::configs(media@),
        function_layer::configs(primary@),
        Seq::empty(),
        width,
    );
    assert(built_in[4].keys =~= first[4].keys);
    assert(built_in[9].keys =~= first[9].keys);
    assert(built_in =~= first);
    for l in it: configured
        invariant
            it.seq() == configured@,
            more == layer_configs(configured@),
            layer_configs(plan@) == built_in + more.take(it.index() as int),
    {
        let ghost n = it.index() as int;
        let ghost before = layer_configs(plan@);
        assert(l@ == more[n]);
        plan.push(l);
        assert(layer_configs(plan@) =~= before.push(more[n]));
        assert(more.take(n + 1) =~= more.take(n).push(more[n]));
        assert(layer_configs(plan@) =~= built_in + more.take(n + 1));
    }
    assert(more.take(more.len() as int) =~= more);
    assert(layer_configs(plan@) =~= layer_plan(
        function_layer::configs(media@),
        function_layer::configs(primary@),
        layer_configs(configured@),
        width,
    ));
    plan
}

/// Every layer of a plan can be made.
proof fn lemma_plan_fits(
    media: Seq<ButtonConfigView>,
    primary: Seq<ButtonConfigView>,
    configured: Seq<LayerConfigView>,
    width: u16,
)
    requires
        function_layer::fits(with_esc(media, width)),
        function_layer::fits(with_esc(primary, width)),
        forall|i: int|
            0 <= i < configured.len() ==> function_layer::fits((#[trigger] configured[i]).keys),
    ensures
        forall|i: int|
            0 <= i < layer_plan(media, primary, configured, width).len() ==> function_layer::fits(
                (#[trigger] layer_plan(media, primary, configured, width)[i]).keys,
            ),
{
    let plan = layer_plan(media, primary, configured, width);
    assert forall|i: int| 0 <= i < plan.len() implies function_layer::fits(
        (#[trigger] plan[i]).keys,
    ) by {
        if 2 <= i < BUILT_IN_LAYERS {
            reveal_with_fuel(function_layer::stretch_before, 4);
            assert(plan[i].keys.len() <= 3);
        } else if i >= BUILT_IN_LAYERS {
            assert(plan[i] == configured[i - BUILT_IN_LAYERS]);
        }
    }
}

/// What is wrong with the first layers is wrong with the whole plan.
proof fn lemma_plan_errors_stay(plan: Seq<LayerConfigView>, env: EnvironmentView, a: int, b: int)
    requires
        0 <= a <= b,
    ensures
        planned(plan, env, a) is Err ==> planned(plan, env, b) == planned(plan, env, a),
    decreases b,
{
    if a < b {
        lemma_plan_errors_stay(plan, env, a, b - 1);
    }
}

/// Makes the layers of a plan.
fn build_layers(plan: Vec<LayerConfig>, env: &Environment) -> (r: Result<LayerStore, ConfigError>)
    requires
        forall|i: int|
            0 <= i < plan@.len() ==> function_layer::fits(
                (#[trigger] layer_configs(plan@)[i]).keys,
            ),
    ensures
        match r {
            Ok(store) => store.wf() && planned(layer_configs(plan@), env@, plan@.len() as int)
                == Ok::<Map<Seq<char>, Seq<CellView>>, ConfigFault>(store@.registry),
            Err(e) => planned(layer_configs(plan@), env@, plan@.len() as int) == Err::<
                Map<Seq<char>, Seq<CellView>>,
                ConfigFault,
            >(e@),
        },
{
    let ghost all = layer_configs(plan@);
    let mut store = LayerStore::new(String::new(), String::new());
    let total = plan.len();
    let mut made: usize = 0;
    for l in it: plan
        invariant
            it.seq() == plan@,
            all == layer_configs(plan@),
            forall|i: int|
                0 <= i < plan@.len() ==> function_layer::fits((#[trigger] all[i]).keys),
            made == it.index(),
            total == plan@.len(),
            store.wf(),
            planned(all, env@, it.index() as int) == Ok::<
                Map<Seq<char>, Seq<CellView>>,
                ConfigFault,
            >(store@.registry),
    {
        let ghost n = it.index() as int;
        assert(l@ == all[n]);
        proof {
            lemma_plan_errors_stay(all, env@, n + 1, all.len() as int);
        }
        match FunctionLayer::with_config(l.keys, env) {
            Ok(layer) => {
                store.insert(l.name, layer);
            },
            Err(error) => {
                let configured = made >= BUILT_IN_LAYERS;
                return Err(ConfigError::Layer { name: l.name, configured, error });
            },
        }
        made += 1;
    }
    Ok(store)
}

/// The first window class whose layer does not exist.
fn find_unknown(list: &Vec<AppLayer>, store: &LayerStore) -> (r: Option<usize>)
    requires
        store.wf(),
    ensures
        match r {
            Some(i) => i < list@.len() && first_unknown(
                app_layer_views(list@),
                store@.registry,
            ) == Some(list@[i as int]@),
            None => first_unknown(app_layer_views(list@), store@.registry) is None,
        },
{
    let ghost all = app_layer_views(list@);
    let mut i: usize = 0;
    assert(all.skip(0) =~= all);
    while i < list.len()
        invariant
            0 <= i <= list@.len(),
            store.wf(),
            all == app_layer_views(list@),
            first_unknown(all, store@.registry) == first_unknown(
                all.skip(i as int),
                store@.registry,
            ),
        decreases list@.len() - i,
    {
        assert(all.skip(i as int)[0] == list@[i as int]@);
        if !store.contains(list[i].layer.as_str()) {
            return Some(i);
        }
        assert(all.skip(i as int).drop_first() =~= all.skip(i + 1));
        i += 1;
    }
    None
}

/// The settings and the layers that a configuration gives for a bar of the given width.
/// `font_loads` says whether the configured font does.
pub fn load_config(
    p: ConfigProxy,
    width: u16,
    env: &Environment,
    font_loads: bool,
    now: u64,
) -> (r: Result<(Config, LayerStore), ConfigError>)
    requires
        loadable(p@, width),
    ensures
        match r {
            Ok((cfg, store)) => store.wf() && loaded(p@, width, env@, font_loads, now) == Ok::<
                (ConfigView, LayerStoreView),
                ConfigFault,
            >((cfg@, store@)),
            Err(e) => loaded(p@, width, env@, font_loads, now) == Err::<
                (ConfigView, LayerStoreView),
                ConfigFault,
            >(e@),
        },
{
    let media = match p.media_layer_keys {
        Some(keys) => keys,
        None => return Err(ConfigError::Missing("MediaLayerKeys")),
    };
    let primary = match p.primary_layer_keys {
        Some(keys) => keys,
        None => return Err(ConfigError::Missing("PrimaryLayerKeys")),
    };
    let configured: Vec<LayerConfig> = match p.layers {
        Some(v) => v,
        None => Vec::new(),
    };
    assert(p@.layers is None ==> layer_configs(configured@) =~= Seq::empty());
    proof {
        lemma_plan_fits(
            function_layer::configs(media@),
            function_layer::configs(primary@),
            layer_configs(configured@),
            width,
        );
    }
    let plan = make_plan(media, primary, configured, width);
    let mut store = match build_layers(plan, env) {
        Ok(store) => store,
        Err(e) => return Err(e),
    };
    store.insert(
        "brightness".to_string(),
        FunctionLayer::slider_layer(SliderBackend::Brightness, now),
    );
    store.insert(
        "kbd_illum".to_string(),
        FunctionLayer::slider_layer(SliderBackend::KbdIllum, now),
    );
    store.insert("volume".to_string(), FunctionLayer::slider_layer(SliderBackend::Volume, now));
    let media_first = match p.media_layer_default {
        Some(b) => b,
        None => return Err(ConfigError::Missing("MediaLayerDefault")),
    };
    if media_first {
        store.set_base("media".to_string(), "fkeys".to_string());
    } else {
        store.set_base("fkeys".to_string(), "media".to_string());
    }
    let app_layers: Vec<AppLayer> = match p.app_layers {
        Some(v) => v,
        None => Vec::new(),
    };
    assert(p@.app_layers is None ==> app_layer_views(app_layers@) =~= Seq::empty());
    match find_unknown(&app_layers, &store) {
        Some(i) => {
            return Err(
                ConfigError::UnknownLayer {
                    class: app_layers[i].class.clone(),
                    layer: app_layers[i].layer.clone(),
                },
            );
        },
        None => {},
    }
    let show_button_outlines = match p.show_button_outlines {
        Some(v) => v,
        None => return Err(ConfigError::Missing("ShowButtonOutlines")),
    };
    let enable_pixel_shift = match p.enable_pixel_shift {
        Some(v) => v,
        None => return Err(ConfigError::Missing("EnablePixelShift")),
    };
    let adaptive_brightness = match p.adaptive_brightness {
        Some(v) => v,
        None => return Err(ConfigError::Missing("AdaptiveBrightness")),
    };
    let font_template = match p.font_template {
        Some(v) => v,
        None => return Err(ConfigError::Missing("FontTemplate")),
    };
    if !font_loads {
        return Err(ConfigError::Font(font_template));
    }
    let active_brightness = match p.active_brightness {
        Some(v) => v,
        None => return Err(ConfigError::Missing("ActiveBrightness")),
    };
    let double_press_switch_layers = match p.double_press_switch_layers {
        Some(v) => v,
        None => return Err(ConfigError::Missing("DoublePressSwitchLayers")),
    };
    Ok(
        (
            Config {
                show_button_outlines,
                enable_pixel_shift,
                font_template,
                adaptive_brightness,
                active_brightness,
                double_press_switch_layers,
                app_layers,
            },
            store,
        ),
    )
}

// ---------------------------------------------------------------------------
// Icons
// ---------------------------------------------------------------------------

/// The icons that the first `n` cells need.
pub open spec fn icons_of_cells(keys: Seq<ButtonConfigView>, powered: bool, n: int) -> Seq<IconView>
    decreases n,
{
    if n <= 0 {
        Seq::empty()
    } else {
        icons_of_cells(keys, powered, n - 1) + widgets::icons_of(keys[n - 1], powered)
    }
}

/// Adds the icons that cells need.
fn push_icons(keys: &Vec<ButtonConfig>, powered: bool, out: &mut Vec<IconRequest>)
    ensures
        button::icons(final(out)@) == button::icons(old(out)@) + icons_of_cells(
            function_layer::configs(keys@),
            powered,
            keys@.len() as int,
        ),
{
    let ghost all = function_layer::configs(keys@);
    let ghost start = button::icons(out@);
    let mut i: usize = 0;
    assert(button::icons(out@) =~= start + icons_of_cells(all, powered, 0));
    while i < keys.len()
        invariant
            0 <= i <= keys@.len(),
            all == function_layer::configs(keys@),
            button::icons(out@) == start + icons_of_cells(all, powered, i as int),
        decreases keys@.len() - i,
    {
        assert(all[i as int] == keys@[i as int]@);
        let ghost before = button::icons(out@);
        let more = widgets::wanted_icons(&keys[i], powered);
        let ghost added = button::icons(more@);
        for icon in it: more
            invariant
                it.seq() == more@,
                added == button::icons(more@),
                button::icons(out@) == before + added.take(it.index() as int),
        {
            let ghost k = it.index() as int;
            let ghost now = button::icons(out@);
            assert(icon@ == added[k]);
            out.push(icon);
            assert(button::icons(out@) =~= now.push(added[k]));
            assert(added.take(k + 1) =~= added.take(k).push(added[k]));
            assert(button::icons(out@) =~= before + added.take(k + 1));
        }
        assert(added.take(added.len() as int) =~= added);
        i += 1;
        assert(button::icons(out@) =~= start + icons_of_cells(all, powered, i as int));
    }
}

/// The icons that the first `n` configured layers need.
pub open spec fn icons_of_layers(layers: Seq<LayerConfigView>, powered: bool, n: int) -> Seq<
    IconView,
>
    decreases n,
{
    if n <= 0 {
        Seq::empty()
    } else {
        icons_of_layers(layers, powered, n - 1) + icons_of_cells(
            layers[n - 1].keys,
            powered,
            layers[n - 1].keys.len() as int,
        )
    }
}

/// The icons that a configuration needs: those of the built-in layers, of the base layers and
/// of the configured ones.
pub open spec fn icons_of(p: ConfigProxyView, powered: bool) -> Seq<IconView> {
    let media = p.media_layer_keys.unwrap_or(Seq::empty());
    let primary = p.primary_layer_keys.unwrap_or(Seq::empty());
    let layers = p.layers.unwrap_or(Seq::empty());
    seq![
        button::plain_icon("volume_up"@, DEFAULT_ICON_SIZE),
        button::plain_icon("brightness_high"@, DEFAULT_ICON_SIZE),
        button::plain_icon("play_pause"@, DEFAULT_ICON_SIZE),
    ] + icons_of_cells(media, powered, media.len() as int) + icons_of_cells(
        primary,
        powered,
        primary.len() as int,
    ) + icons_of_layers(layers, powered, layers.len() as int)
}

/// The icons that a configuration needs.
pub fn wanted_icons(p: &ConfigProxy, powered: bool) -> (r: Vec<IconRequest>)
    ensures
        button::icons(r@) == icons_of(p@, powered),
{
    let mut out: Vec<IconRequest> = Vec::new();
    out.push(IconRequest::plain("volume_up", DEFAULT_ICON_SIZE));
    out.push(IconRequest::plain("brightness_high", DEFAULT_ICON_SIZE));
    out.push(IconRequest::plain("play_pause", DEFAULT_ICON_SIZE));
    let ghost first = seq![
        button::plain_icon("volume_up"@, DEFAULT_ICON_SIZE),
        button::plain_icon("brightness_high"@, DEFAULT_ICON_SIZE),
        button::plain_icon("play_pause"@, DEFAULT_ICON_SIZE),
    ];
    assert(button::icons(out@) =~= first);
    let ghost media = p@.media_layer_keys.unwrap_or(Seq::empty());
    let ghost primary = p@.primary_layer_keys.unwrap_or(Seq::empty());
    let ghost layers = p@.layers.unwrap_or(Seq::empty());
    let ghost of_media = icons_of_cells(media, powered, media.len() as int);
    let ghost of_primary = icons_of_cells(primary, powered, primary.len() as int);
    if let Some(keys) = &p.media_layer_keys {
        push_icons(keys, powered, &mut out);
    }
    assert(button::icons(out@) =~= first + of_media);
    if let Some(keys) = &p.primary_layer_keys {
        push_icons(keys, powered, &mut out);
    }
    let ghost base = first + of_media + of_primary;
    assert(button::icons(out@) =~= base);
    if let Some(list) = &p.layers {
        let mut i: usize = 0;
        assert(button::icons(out@) =~= base + icons_of_layers(layers, powered, 0));
        while i < list.len()
            invariant
                0 <= i <= list@.len(),
                layers == layer_configs(list@),
                button::icons(out@) == base + icons_of_layers(layers, powered, i as int),
            decreases list@.len() - i,
        {
            assert(layers[i as int] == list@[i as int]@);
            push_icons(&list[i].keys, powered, &mut out);
            i += 1;
            assert(button::icons(out@) =~= base + icons_of_layers(layers, powered, i as int));
        }
    } else {
        assert(button::icons(out@) =~= base + icons_of_layers(layers, powered, 0));
    }
    out
}

// ---------------------------------------------------------------------------
// Laws
// ---------------------------------------------------------------------------

/// The layers of a plan are all there, and none is empty.
proof fn lemma_planned(plan: Seq<LayerConfigView>, env: EnvironmentView, n: int)
    requires
        0 <= n <= plan.len(),
        planned(plan, env, n) is Ok,
    ensures
        forall|k: int| 0 <= k < n ==> planned(plan, env, n)->Ok_0.contains_key((#[trigger] plan[k]).name),
        forall|name: Seq<char>|
            planned(plan, env, n)->Ok_0.contains_key(name) ==> (
            #[trigger] planned(plan, env, n)->Ok_0[name]).len() > 0,
    decreases n,
{
    if n > 0 {
        lemma_planned(plan, env, n - 1);
        function_layer::law_layer_has_all_cells(
            plan[n - 1].keys,
            env,
            plan[n - 1].keys.len() as int,
        );
    }
}

/// Where no window class has an unknown layer, each has a known one.
proof fn lemma_no_unknown(list: Seq<AppLayerView>, layers: Map<Seq<char>, Seq<CellView>>)
    requires
        first_unknown(list, layers) is None,
    ensures
        forall|i: int| 0 <= i < list.len() ==> layers.contains_key((#[trigger] list[i]).layer),
    decreases list.len(),
{
    if list.len() > 0 {
        lemma_no_unknown(list.drop_first(), layers);
        assert forall|i: int| 0 <= i < list.len() implies layers.contains_key(
            (#[trigger] list[i]).layer,
        ) by {
            if i > 0 {
                assert(list[i] == list.drop_first()[i - 1]);
            }
        }
    }
}

/// The layers that are always there: the base layers, the edges of the bar, the layers
/// that they open, and the sliders.
pub open spec fn has_built_in_layers(layers: Map<Seq<char>, Seq<CellView>>) -> bool {
    &&& layers.contains_key("media"@)
    &&& layers.contains_key("fkeys"@)
    &&& layers.contains_key("global-left"@)
    &&& layers.contains_key("global-right"@)
    &&& layers.contains_key("global-right-media"@)
    &&& layers.contains_key("global-right-tabs"@)
    &&& layers.contains_key("media-active"@)
    &&& layers.contains_key("media-overlay"@)
    &&& layers.contains_key("chromium-tabs"@)
    &&& layers.contains_key("chromium-tabs-overlay"@)
    &&& layers.contains_key("brightness"@)
    &&& layers.contains_key("kbd_illum"@)
    &&& layers.contains_key("volume"@)
}

/// A configuration that loads has all built-in layers, those of the file, and those of the
/// window classes; no layer is empty.
pub proof fn law_loaded_layers_exist(
    p: ConfigProxyView,
    width: u16,
    env: EnvironmentView,
    font_loads: bool,
    now: u64,
)
    requires
        loaded(p, width, env, font_loads, now) is Ok,
    ensures
        ({
            let (cfg, store) = loaded(p, width, env, font_loads, now)->Ok_0;
            &&& has_built_in_layers(store.registry)
            &&& store.registry.contains_key(store.base)
            &&& store.registry.contains_key(store.fn_base)
            &&& forall|i: int|
                p.layers is Some && 0 <= i < p.layers->0.len() ==> store.registry.contains_key(
                    (#[trigger] p.layers->0[i]).name,
                )
            &&& forall|i: int|
                0 <= i < cfg.app_layers.len() ==> store.registry.contains_key(
                    (#[trigger] cfg.app_layers[i]).layer,
                )
            &&& forall|name: Seq<char>| #[trigger]
                store.registry.contains_key(name) ==> store.registry[name].len() > 0
        }),
{
    let plan = plan_of(p, width);
    let n = plan.len() as int;
    lemma_planned(plan, env, n);
    let layers = planned(plan, env, n)->Ok_0;
    let (cfg, store) = loaded(p, width, env, font_loads, now)->Ok_0;
    assert(store.registry == with_sliders(layers, now));
    lemma_no_unknown(cfg.app_layers, store.registry);
    assert(layers.contains_key(plan[0].name));
    assert(layers.contains_key(plan[1].name));
    assert(layers.contains_key(plan[2].name));
    assert(layers.contains_key(plan[3].name));
    assert(layers.contains_key(plan[4].name));
    assert(layers.contains_key(plan[5].name));
    assert(layers.contains_key(plan[6].name));
    assert(layers.contains_key(plan[7].name));
    assert(layers.contains_key(plan[8].name));
    assert(layers.contains_key(plan[9].name));
    if p.layers is Some {
        assert forall|i: int| 0 <= i < p.layers->0.len() implies store.registry.contains_key(
            (#[trigger] p.layers->0[i]).name,
        ) by {
            assert(plan[i + BUILT_IN_LAYERS] == p.layers->0[i]);
            assert(layers.contains_key(plan[i + BUILT_IN_LAYERS].name));
        }
    }
    assert forall|name: Seq<char>| #[trigger] store.registry.contains_key(name) implies
        store.registry[name].len() > 0 by {
        if layers.contains_key(name) {
            assert(layers[name].len() > 0);
        }
    }
}

/// The sliders are always there: no layer of the file takes their place.
pub proof fn law_sliders_are_built_in(
    p: ConfigProxyView,
    width: u16,
    env: EnvironmentView,
    font_loads: bool,
    now: u64,
)
    requires
        loaded(p, width, env, font_loads, now) is Ok,
    ensures
        ({
            let (cfg, store) = loaded(p, width, env, font_loads, now)->Ok_0;
            &&& store.registry["brightness"@] == function_layer::slider_cells(
                SliderBackend::Brightness,
                now,
            )
            &&& store.registry["kbd_illum"@] == function_layer::slider_cells(
                SliderBackend::KbdIllum,
                now,
            )
            &&& store.registry["volume"@] == function_layer::slider_cells(
                SliderBackend::Volume,
                now,
            )
        }),
{
    reveal_strlit("brightness");
    reveal_strlit("kbd_illum");
    reveal_strlit("volume");
    assert("brightness"@.len() == 10 && "kbd_illum"@.len() == 9 && "volume"@.len() == 6);
}

/// What the user has configured is in force, and what the user has not is as shipped. Layers
/// are taken one by one: those that the user names are the user's, and the others stay.
pub proof fn law_user_entries_win(base: ConfigProxyView, user: ConfigProxyView)
    ensures
        base.overridden(user).media_layer_default == if user.media_layer_default is Some {
            user.media_layer_default
        } else {
            base.media_layer_default
        },
        base.overridden(user).show_button_outlines == if user.show_button_outlines is Some {
            user.show_button_outlines
        } else {
            base.show_button_outlines
        },
        base.overridden(user).enable_pixel_shift == if user.enable_pixel_shift is Some {
            user.enable_pixel_shift
        } else {
            base.enable_pixel_shift
        },
        base.overridden(user).font_template == if user.font_template is Some {
            user.font_template
        } else {
            base.font_template
        },
        base.overridden(user).adaptive_brightness == if user.adaptive_brightness is Some {
            user.adaptive_brightness
        } else {
            base.adaptive_brightness
        },
        base.overridden(user).active_brightness == if user.active_brightness is Some {
            user.active_brightness
        } else {
            base.active_brightness
        },
        base.overridden(user).double_press_switch_layers == if user.double_press_switch_layers is Some {
            user.double_press_switch_layers
        } else {
            base.double_press_switch_layers
        },
        base.overridden(user).primary_layer_keys == if user.primary_layer_keys is Some {
            user.primary_layer_keys
        } else {
            base.primary_layer_keys
        },
        base.overridden(user).media_layer_keys == if user.media_layer_keys is Some {
            user.media_layer_keys
        } else {
            base.media_layer_keys
        },
        base.overridden(user).app_layers == if user.app_layers is Some {
            user.app_layers
        } else {
            base.app_layers
        },
        base.overridden(user).layers == if user.layers is Some {
            Some(
                with_layers(
                    base.layers.unwrap_or(Seq::empty()),
                    user.layers->0,
                    user.layers->0.len() as int,
                ),
            )
        } else {
            base.layers
        },
{
}

/// What `place_of` gives is the first layer of that name, or the end.
proof fn lemma_place(layers: Seq<LayerConfigView>, name: Seq<char>)
    ensures
        place_of(layers, name) <= layers.len(),
        place_of(layers, name) < layers.len() ==> layers[place_of(layers, name) as int].name
            == name,
        forall|i: int| 0 <= i < place_of(layers, name) ==> (#[trigger] layers[i]).name != name,
    decreases layers.len(),
{
    if layers.len() > 0 && layers[0].name != name {
        let rest = layers.drop_first();
        lemma_place(rest, name);
        assert forall|i: int| 0 <= i < place_of(layers, name) implies (#[trigger] layers[i]).name
            != name by {
            if i > 0 {
                assert(layers[i] == rest[i - 1]);
            }
        }
    }
}

/// Whether `layers` holds exactly this layer under its name.
pub open spec fn holds_layer(layers: Seq<LayerConfigView>, l: LayerConfigView) -> bool {
    place_of(layers, l.name) < layers.len() && layers[place_of(layers, l.name) as int] == l
}

/// A layer that is added is the one of its name, and the others stay.
proof fn lemma_with_layer(layers: Seq<LayerConfigView>, new: LayerConfigView, old: LayerConfigView)
    ensures
        holds_layer(with_layer(layers, new), new),
        old.name != new.name && holds_layer(layers, old) ==> holds_layer(
            with_layer(layers, new),
            old,
        ),
{
    let after = with_layer(layers, new);
    lemma_place(layers, new.name);
    lemma_place(after, new.name);
    let i = place_of(layers, new.name) as int;
    assert(after[i] == new);
    let j = place_of(after, new.name) as int;
    if j < i {
        assert(after[j] == layers[j]);
    } else if j > i {
        assert(after[i].name != new.name);
    }
    if old.name != new.name && holds_layer(layers, old) {
        lemma_place(layers, old.name);
        lemma_place(after, old.name);
        let a = place_of(layers, old.name) as int;
        let b = place_of(after, old.name) as int;
        assert(after[a] == layers[a]);
        if b < a {
            assert(after[b] == layers[b] || after[b] == new);
        } else if b > a {
            assert(after[a].name != old.name);
        }
    }
}

/// A layer that the user has configured, in a file where no name repeats, takes the place
/// of the shipped one of its name; a shipped layer whose name the user has not configured
/// stays.
pub proof fn law_user_layers_replace(
    layers: Seq<LayerConfigView>,
    more: Seq<LayerConfigView>,
    n: int,
    l: LayerConfigView,
)
    requires
        0 <= n <= more.len(),
        forall|a: int, b: int|
            #![trigger more[a], more[b]]
            0 <= a < more.len() && 0 <= b < more.len() && more[a].name == more[b].name ==> a == b,
    ensures
        (exists|i: int| 0 <= i < n && #[trigger] more[i] == l) ==> holds_layer(
            with_layers(layers, more, n),
            l,
        ),
        holds_layer(layers, l) && (forall|i: int| 0 <= i < n ==> (#[trigger] more[i]).name != l.name)
            ==> holds_layer(with_layers(layers, more, n), l),
    decreases n,
{
    if n > 0 {
        law_user_layers_replace(layers, more, n - 1, l);
        let before = with_layers(layers, more, n - 1);
        lemma_with_layer(before, more[n - 1], l);
        if exists|i: int| 0 <= i < n && #[trigger] more[i] == l {
            let i = choose|i: int| 0 <= i < n && #[trigger] more[i] == l;
            if i < n - 1 {
                assert(more[i].name != more[n - 1].name);
            }
        }
    }
}

/// An icon that one of the cells needs is among those that the cells need.
proof fn lemma_icons_of_cells(keys: Seq<ButtonConfigView>, powered: bool, k: int, n: int, icon: IconView)
    requires
        0 <= k < n <= keys.len(),
        widgets::icons_of(keys[k], powered).contains(icon),
    ensures
        icons_of_cells(keys, powered, n).contains(icon),
    decreases n,
{
    let before = icons_of_cells(keys, powered, n - 1);
    let last = widgets::icons_of(keys[n - 1], powered);
    let all = icons_of_cells(keys, powered, n);
    if k == n - 1 {
        let j = choose|j: int| 0 <= j < last.len() && last[j] == icon;
        assert(all[before.len() + j] == icon);
    } else {
        lemma_icons_of_cells(keys, powered, k, n - 1, icon);
        let j = choose|j: int| 0 <= j < before.len() && before[j] == icon;
        assert(all[j] == icon);
    }
}

/// An icon that one of the layers needs is among those that the layers need.
proof fn lemma_icons_of_layers(layers: Seq<LayerConfigView>, powered: bool, k: int, n: int, icon: IconView)
    requires
        0 <= k < n <= layers.len(),
        icons_of_cells(layers[k].keys, powered, layers[k].keys.len() as int).contains(icon),
    ensures
        icons_of_layers(layers, powered, n).contains(icon),
    decreases n,
{
    let before = icons_of_layers(layers, powered, n - 1);
    let last = icons_of_cells(layers[n - 1].keys, powered, layers[n - 1].keys.len() as int);
    let all = icons_of_layers(layers, powered, n);
    if k == n - 1 {
        let j = choose|j: int| 0 <= j < last.len() && last[j] == icon;
        assert(all[before.len() + j] == icon);
    } else {
        lemma_icons_of_layers(layers, powered, k, n - 1, icon);
        let j = choose|j: int| 0 <= j < before.len() && before[j] == icon;
        assert(all[j] == icon);
    }
}

/// Cells are refused for an icon only where one of them needs it and it does not load.
proof fn lemma_refused_cell(keys: Seq<ButtonConfigView>, env: EnvironmentView, n: int) -> (k: int)
    requires
        0 <= n <= keys.len(),
        function_layer::cells_of(keys, env, n) is Err,
        function_layer::cells_of(keys, env, n)->Err_0 is Icon,
    ensures
        0 <= k < n,
        env.failed.contains(function_layer::cells_of(keys, env, n)->Err_0->Icon_0),
        widgets::icons_of(keys[k], env.battery is Some).contains(
            function_layer::cells_of(keys, env, n)->Err_0->Icon_0,
        ),
    decreases n,
{
    if function_layer::cells_of(keys, env, n - 1) is Err {
        lemma_refused_cell(keys, env, n - 1)
    } else {
        widgets::law_refused_icons_are_wanted(keys[n - 1], env);
        n - 1
    }
}

/// A plan is refused for an icon only where a cell of one of its layers needs it and it does
/// not load.
proof fn lemma_refused_layer(plan: Seq<LayerConfigView>, env: EnvironmentView, n: int) -> (r: (int, int))
    requires
        0 <= n <= plan.len(),
        planned(plan, env, n) is Err,
        planned(plan, env, n)->Err_0 is Layer,
        planned(plan, env, n)->Err_0->error is Icon,
    ensures
        0 <= r.0 < n,
        0 <= r.1 < plan[r.0].keys.len(),
        env.failed.contains(planned(plan, env, n)->Err_0->error->Icon_0),
        widgets::icons_of(plan[r.0].keys[r.1], env.battery is Some).contains(
            planned(plan, env, n)->Err_0->error->Icon_0,
        ),
    decreases n,
{
    if planned(plan, env, n - 1) is Err {
        lemma_refused_layer(plan, env, n - 1)
    } else {
        let k = lemma_refused_cell(plan[n - 1].keys, env, plan[n - 1].keys.len() as int);
        (n - 1, k)
    }
}

/// A configuration is refused for an icon only where that is one it needs and it does not
/// load: where all icons load, none is a reason to refuse it.
pub proof fn law_refused_icons_are_wanted(
    p: ConfigProxyView,
    width: u16,
    env: EnvironmentView,
    font_loads: bool,
    now: u64,
)
    requires
        loaded(p, width, env, font_loads, now) is Err,
        loaded(p, width, env, font_loads, now)->Err_0 is Layer,
        loaded(p, width, env, font_loads, now)->Err_0->error is Icon,
    ensures
        ({
            let icon = loaded(p, width, env, font_loads, now)->Err_0->error->Icon_0;
            env.failed.contains(icon) && icons_of(p, env.battery is Some).contains(icon)
        }),
{
    let icon = loaded(p, width, env, font_loads, now)->Err_0->error->Icon_0;
    let powered = env.battery is Some;
    let plan = plan_of(p, width);
    let (i, k) = lemma_refused_layer(plan, env, plan.len() as int);
    let cell = plan[i].keys[k];
    let media = p.media_layer_keys->0;
    let primary = p.primary_layer_keys->0;
    let layers = p.layers.unwrap_or(Seq::empty());
    let built_in = seq![
        button::plain_icon("volume_up"@, DEFAULT_ICON_SIZE),
        button::plain_icon("brightness_high"@, DEFAULT_ICON_SIZE),
        button::plain_icon("play_pause"@, DEFAULT_ICON_SIZE),
    ];
    let a = icons_of_cells(media, powered, media.len() as int);
    let b = icons_of_cells(primary, powered, primary.len() as int);
    let c = icons_of_layers(layers, powered, layers.len() as int);
    let all = icons_of(p, powered);
    assert(all =~= built_in + a + b + c);
    let wanted = widgets::icons_of(cell, powered);
    let j = choose|j: int| 0 <= j < wanted.len() && wanted[j] == icon;
    let shift: int = if width >= WIDE_BAR {
        1
    } else {
        0
    };
    if i == 0 {
        assert(k >= shift);
        assert(cell == media[k - shift]);
        lemma_icons_of_cells(media, powered, k - shift, media.len() as int, icon);
        let m = choose|m: int| 0 <= m < a.len() && a[m] == icon;
        assert(all[built_in.len() + m] == icon);
    } else if i == 1 {
        assert(k >= shift);
        assert(cell == primary[k - shift]);
        lemma_icons_of_cells(primary, powered, k - shift, primary.len() as int, icon);
        let m = choose|m: int| 0 <= m < b.len() && b[m] == icon;
        assert(all[built_in.len() + a.len() + m] == icon);
    } else if i < BUILT_IN_LAYERS {
        assert(cell.icon is Some && cell.text is None);
        assert(icon == button::configured_icon(cell, cell.icon->0));
        assert(icon == built_in[0] || icon == built_in[1] || icon == built_in[2]);
        assert(all[0] == built_in[0] && all[1] == built_in[1] && all[2] == built_in[2]);
    } else {
        assert(plan[i] == layers[i - BUILT_IN_LAYERS]);
        let l = layers[i - BUILT_IN_LAYERS];
        lemma_icons_of_cells(l.keys, powered, k, l.keys.len() as int, icon);
        lemma_icons_of_layers(layers, powered, i - BUILT_IN_LAYERS, layers.len() as int, icon);
        let m = choose|m: int| 0 <= m < c.len() && c[m] == icon;
        assert(all[built_in.len() + a.len() + b.len() + m] == icon);
    }
}

} // verus!

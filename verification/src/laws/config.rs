//! What a configuration gives.
use crate::action::{ActionView, Edge, Key};
use crate::config;
use crate::config::{
    ButtonConfigView, ConfigFault, ConfigProxyView, ConfigView, LayerConfigView,
};
use crate::function_layer;
use crate::function_layer::CellView;
use crate::layer::LayerStoreView;
use crate::store::StoreView;
use crate::widgets;
use crate::widgets::button::{ContentView, IconView};
use crate::widgets::slider::SliderBackend;
use crate::widgets::{EnvironmentView, LayerFault, WidgetView};
use vstd::prelude::*;

verus! {

/// A layer has a cell for each configured one, in the same order, with the widget that is
/// configured and the share of the width that is asked for, one where none is; a layer without
/// cells is refused.
pub proof fn law_cells_of_a_layer(cfg: Seq<ButtonConfigView>, env: EnvironmentView, n: int, i: int)
    requires
        0 <= i < n <= cfg.len(),
        function_layer::cells_of(cfg, env, n) is Ok,
    ensures
        ({
            let cells = function_layer::cells_of(cfg, env, n)->Ok_0;
            &&& cells.len() == n
            &&& widgets::widget_of(cfg[i], env) == Ok::<WidgetView, LayerFault>(cells[i].widget)
            &&& cells[i].stretch == if cfg[i].stretch is Some && cfg[i].stretch->0 > 1 {
                cfg[i].stretch->0
            } else {
                1
            }
        }),
    decreases n,
{
    reveal_with_fuel(function_layer::cells_of, 2);
    if n > 1 {
        if i < n - 1 {
            law_cells_of_a_layer(cfg, env, n - 1, i);
        } else {
            law_cells_of_a_layer(cfg, env, n - 1, 0);
        }
    }
}

/// A layer is refused where it has no cells, and otherwise exactly where one of its cells is.
pub proof fn law_refused_layers(cfg: Seq<ButtonConfigView>, env: EnvironmentView)
    ensures
        cfg.len() == 0 ==> function_layer::layer_of(cfg, env) == Err::<
            Seq<CellView>,
            LayerFault,
        >(LayerFault::NoButtons),
        cfg.len() > 0 ==> (function_layer::layer_of(cfg, env) is Err <==> exists|i: int|
            0 <= i < cfg.len() && (#[trigger] widgets::widget_of(cfg[i], env)) is Err),
{
    if cfg.len() > 0 {
        lemma_refused_cells(cfg, env, cfg.len() as int);
    }
}

proof fn lemma_refused_cells(cfg: Seq<ButtonConfigView>, env: EnvironmentView, n: int)
    requires
        0 <= n <= cfg.len(),
    ensures
        function_layer::cells_of(cfg, env, n) is Err <==> exists|i: int|
            0 <= i < n && (#[trigger] widgets::widget_of(cfg[i], env)) is Err,
    decreases n,
{
    if n > 0 {
        lemma_refused_cells(cfg, env, n - 1);
        if function_layer::cells_of(cfg, env, n - 1) is Ok && widgets::widget_of(
            cfg[n - 1],
            env,
        ) is Ok {
            assert forall|i: int| 0 <= i < n implies (#[trigger] widgets::widget_of(cfg[i], env))
                is Ok by {}
        }
    }
}

/// The last layer of a name in a plan is the one that is made under that name.
proof fn lemma_planned_layer(plan: Seq<LayerConfigView>, env: EnvironmentView, n: int, k: int)
    requires
        0 <= k < n <= plan.len(),
        config::planned(plan, env, n) is Ok,
        forall|j: int| k < j < n ==> (#[trigger] plan[j]).name != plan[k].name,
    ensures
        config::planned(plan, env, n)->Ok_0.contains_key(plan[k].name),
        function_layer::layer_of(plan[k].keys, env) == Ok::<Seq<CellView>, LayerFault>(
            config::planned(plan, env, n)->Ok_0[plan[k].name],
        ),
    decreases n,
{
    if k < n - 1 {
        lemma_planned_layer(plan, env, n - 1, k);
        assert(plan[n - 1].name != plan[k].name);
    }
}

/// Whether the file configures no layer of a name.
pub open spec fn not_configured(p: ConfigProxyView, name: Seq<char>) -> bool {
    p.layers is Some ==> forall|i: int|
        0 <= i < p.layers->0.len() ==> (#[trigger] p.layers->0[i]).name != name
}

/// The settings are those of the file.
pub proof fn law_settings(
    p: ConfigProxyView,
    width: u16,
    env: EnvironmentView,
    font_loads: bool,
    now: u64,
)
    requires
        config::loaded(p, width, env, font_loads, now) is Ok,
    ensures
        ({
            let (cfg, store) = config::loaded(p, width, env, font_loads, now)->Ok_0;
            &&& font_loads
            &&& p.show_button_outlines == Some(cfg.show_button_outlines)
            &&& p.enable_pixel_shift == Some(cfg.enable_pixel_shift)
            &&& p.adaptive_brightness == Some(cfg.adaptive_brightness)
            &&& p.active_brightness == Some(cfg.active_brightness)
            &&& p.double_press_switch_layers == Some(cfg.double_press_switch_layers)
            &&& p.font_template == Some(cfg.font_template)
            &&& p.app_layers is Some ==> cfg.app_layers == p.app_layers->0
            &&& p.app_layers is None ==> cfg.app_layers.len() == 0
            &&& p.media_layer_default == Some(true) ==> store.base == "media"@ && store.fn_base
                == "fkeys"@
            &&& p.media_layer_default == Some(false) ==> store.base == "fkeys"@ && store.fn_base
                == "media"@
            &&& p.media_layer_default is Some
        }),
{
}

/// A missing entry is named, the layers' keys first; and where nothing is missing or wrong, the
/// configuration loads.
pub proof fn law_missing_entries(
    p: ConfigProxyView,
    width: u16,
    env: EnvironmentView,
    font_loads: bool,
    now: u64,
)
    ensures
        ({
            let r = config::loaded(p, width, env, font_loads, now);
            &&& p.media_layer_keys is None ==> r == Err::<
                (ConfigView, LayerStoreView),
                ConfigFault,
            >(ConfigFault::Missing("MediaLayerKeys"@))
            &&& p.media_layer_keys is Some && p.primary_layer_keys is None ==> r == Err::<
                (ConfigView, LayerStoreView),
                ConfigFault,
            >(ConfigFault::Missing("PrimaryLayerKeys"@))
            &&& r matches Err(ConfigFault::Missing(k)) ==> {
                ||| k == "MediaLayerKeys"@ && p.media_layer_keys is None
                ||| k == "PrimaryLayerKeys"@ && p.primary_layer_keys is None
                ||| k == "MediaLayerDefault"@ && p.media_layer_default is None
                ||| k == "ShowButtonOutlines"@ && p.show_button_outlines is None
                ||| k == "EnablePixelShift"@ && p.enable_pixel_shift is None
                ||| k == "AdaptiveBrightness"@ && p.adaptive_brightness is None
                ||| k == "FontTemplate"@ && p.font_template is None
                ||| k == "ActiveBrightness"@ && p.active_brightness is None
                ||| k == "DoublePressSwitchLayers"@ && p.double_press_switch_layers is None
            }
            &&& r matches Err(ConfigFault::Font(f)) ==> !font_loads && p.font_template == Some(f)
            &&& r matches Err(ConfigFault::UnknownLayer { class, layer }) ==> exists|i: int|
                p.app_layers is Some && 0 <= i < p.app_layers->0.len() && (
                #[trigger] p.app_layers->0[i]).class == class && p.app_layers->0[i].layer == layer
        }),
{
    let r = config::loaded(p, width, env, font_loads, now);
    if p.media_layer_keys is Some && p.primary_layer_keys is Some {
        let plan = config::plan_of(p, width);
        lemma_no_missing(plan, env, plan.len() as int);
        if config::planned(plan, env, plan.len() as int) is Ok {
            let layers = config::with_sliders(
                config::planned(plan, env, plan.len() as int)->Ok_0,
                now,
            );
            let list = p.app_layers.unwrap_or(Seq::empty());
            if config::first_unknown(list, layers) is Some {
                lemma_first_unknown(list, layers);
            }
        }
    }
}

proof fn lemma_no_missing(plan: Seq<LayerConfigView>, env: EnvironmentView, n: int)
    ensures
        config::planned(plan, env, n) matches Err(e) ==> e is Layer,
    decreases n,
{
    if n > 0 {
        lemma_no_missing(plan, env, n - 1);
    }
}

proof fn lemma_first_unknown(
    list: Seq<config::AppLayerView>,
    layers: Map<Seq<char>, Seq<CellView>>,
)
    requires
        config::first_unknown(list, layers) is Some,
    ensures
        exists|i: int|
            0 <= i < list.len() && #[trigger] list[i] == config::first_unknown(list, layers)->0
                && !layers.contains_key(list[i].layer),
    decreases list.len(),
{
    if layers.contains_key(list[0].layer) {
        let rest = list.drop_first();
        lemma_first_unknown(rest, layers);
        let i = choose|i: int|
            0 <= i < rest.len() && #[trigger] rest[i] == config::first_unknown(rest, layers)->0
                && !layers.contains_key(rest[i].layer);
        assert(list[i + 1] == rest[i]);
    }
}

/// A configured layer is made under its name from its keys, in the place of a built-in one of
/// that name, except for the sliders.
pub proof fn law_configured_layer(
    p: ConfigProxyView,
    width: u16,
    env: EnvironmentView,
    font_loads: bool,
    now: u64,
    k: int,
)
    requires
        config::loaded(p, width, env, font_loads, now) is Ok,
        p.layers is Some,
        0 <= k < p.layers->0.len(),
        forall|j: int|
            k < j < p.layers->0.len() ==> (#[trigger] p.layers->0[j]).name != p.layers->0[k].name,
        p.layers->0[k].name != "brightness"@,
        p.layers->0[k].name != "kbd_illum"@,
        p.layers->0[k].name != "volume"@,
    ensures
        ({
            let store = config::loaded(p, width, env, font_loads, now)->Ok_0.1;
            let l = p.layers->0[k];
            &&& store.registry.contains_key(l.name)
            &&& function_layer::layer_of(l.keys, env) == Ok::<Seq<CellView>, LayerFault>(
                store.registry[l.name],
            )
        }),
{
    let plan = config::plan_of(p, width);
    let n = plan.len() as int;
    assert(plan[k + 10] == p.layers->0[k]);
    assert forall|j: int| k + 10 < j < n implies (#[trigger] plan[j]).name != plan[k + 10].name by {
        assert(plan[j] == p.layers->0[j - 10]);
    }
    lemma_planned_layer(plan, env, n, k + 10);
}

/// The layer of a built-in entry of the plan, where the file configures none of its name.
proof fn lemma_built_in(
    p: ConfigProxyView,
    width: u16,
    env: EnvironmentView,
    font_loads: bool,
    now: u64,
    k: int,
)
    requires
        config::loaded(p, width, env, font_loads, now) is Ok,
        0 <= k < 10,
        not_configured(p, config::plan_of(p, width)[k].name),
        forall|j: int|
            k < j < 10 ==> (#[trigger] config::plan_of(p, width)[j]).name != config::plan_of(
                p,
                width,
            )[k].name,
        config::plan_of(p, width)[k].name != "brightness"@,
        config::plan_of(p, width)[k].name != "kbd_illum"@,
        config::plan_of(p, width)[k].name != "volume"@,
    ensures
        ({
            let l = config::plan_of(p, width)[k];
            let store = config::loaded(p, width, env, font_loads, now)->Ok_0.1;
            &&& store.registry.contains_key(l.name)
            &&& function_layer::layer_of(l.keys, env) == Ok::<Seq<CellView>, LayerFault>(
                store.registry[l.name],
            )
        }),
{
    let plan = config::plan_of(p, width);
    let n = plan.len() as int;
    assert forall|j: int| k < j < n implies (#[trigger] plan[j]).name != plan[k].name by {
        if j >= 10 {
            assert(plan[j] == p.layers->0[j - 10]);
        }
    }
    lemma_planned_layer(plan, env, n, k);
}

/// The names of the built-in layers are all different.
proof fn lemma_names_differ()
    ensures
        ({
            let names = seq![
                "media"@,
                "fkeys"@,
                "global-left"@,
                "global-right"@,
                "global-right-media"@,
                "media-active"@,
                "media-overlay"@,
                "chromium-tabs"@,
                "chromium-tabs-overlay"@,
                "global-right-tabs"@,
                "brightness"@,
                "kbd_illum"@,
                "volume"@,
            ];
            forall|i: int, j: int|
                0 <= i < j < 13 ==> #[trigger] names[i] != #[trigger] names[j]
        }),
{
    reveal_strlit("media");
    reveal_strlit("fkeys");
    reveal_strlit("global-left");
    reveal_strlit("global-right");
    reveal_strlit("global-right-media");
    reveal_strlit("media-active");
    reveal_strlit("media-overlay");
    reveal_strlit("chromium-tabs");
    reveal_strlit("chromium-tabs-overlay");
    reveal_strlit("global-right-tabs");
    reveal_strlit("brightness");
    reveal_strlit("kbd_illum");
    reveal_strlit("volume");
    assert("media"@.len() == 5 && "fkeys"@.len() == 5);
    assert("media"@[0] == 'm' && "fkeys"@[0] == 'f');
    assert("global-left"@.len() == 11 && "global-right"@.len() == 12);
    assert("global-right-media"@.len() == 18 && "media-active"@.len() == 12);
    assert("global-right"@[0] == 'g' && "media-active"@[0] == 'm');
    assert("media-overlay"@.len() == 13 && "chromium-tabs"@.len() == 13);
    assert("media-overlay"@[0] == 'm' && "chromium-tabs"@[0] == 'c');
    assert("chromium-tabs-overlay"@.len() == 21 && "global-right-tabs"@.len() == 17);
    assert("brightness"@.len() == 10 && "kbd_illum"@.len() == 9 && "volume"@.len() == 6);
}

/// What a button with an icon does and shows.
pub open spec fn opens(w: WidgetView, icon: Seq<char>, layer: Seq<char>, s: StoreView) -> bool {
    w matches WidgetView::Button(b) && b.pressed(s).1 == Some(ActionView::OpenModal(layer)) && (
    b.backend.content(s) matches ContentView::Icon(i) && i.name == icon)
}

/// Unless the file configures a layer of its name, the left end of the bar has Escape alone.
pub proof fn law_left_end(
    p: ConfigProxyView,
    width: u16,
    env: EnvironmentView,
    font_loads: bool,
    now: u64,
    s: StoreView,
)
    requires
        config::loaded(p, width, env, font_loads, now) is Ok,
        not_configured(p, "global-left"@),
    ensures
        ({
            let store = config::loaded(p, width, env, font_loads, now)->Ok_0.1;
            let cells = store.registry["global-left"@];
            &&& cells.len() == 1
            &&& cells[0].widget matches WidgetView::Button(b) && b.pressed(s).1 == Some(
                ActionView::Key(seq![Key { code: 1 }], Edge::Press),
            ) && b.backend.content(s) == ContentView::Text("esc"@)
        }),
{
    lemma_names_differ();
    let names = config::plan_of(p, width);
    lemma_plan_names(p, width);
    lemma_built_in(p, width, env, font_loads, now, 2);
    law_cells_of_a_layer(names[2].keys, env, 1, 0);
}

/// The names in a plan, as they are written.
proof fn lemma_plan_names(p: ConfigProxyView, width: u16)
    ensures
        ({
            let plan = config::plan_of(p, width);
            &&& plan[0].name == "media"@
            &&& plan[1].name == "fkeys"@
            &&& plan[2].name == "global-left"@
            &&& plan[3].name == "global-right"@
            &&& plan[4].name == "global-right-media"@
            &&& plan[5].name == "media-active"@
            &&& plan[6].name == "media-overlay"@
            &&& plan[7].name == "chromium-tabs"@
            &&& plan[8].name == "chromium-tabs-overlay"@
            &&& plan[9].name == "global-right-tabs"@
            &&& forall|i: int, j: int|
                0 <= i < j < 10 ==> (#[trigger] plan[i]).name != (#[trigger] plan[j]).name
            &&& forall|i: int|
                0 <= i < 10 ==> (#[trigger] plan[i]).name != "brightness"@ && plan[i].name
                    != "kbd_illum"@ && plan[i].name != "volume"@
        }),
{
    lemma_names_differ();
    let plan = config::plan_of(p, width);
    let names = seq![
        "media"@,
        "fkeys"@,
        "global-left"@,
        "global-right"@,
        "global-right-media"@,
        "media-active"@,
        "media-overlay"@,
        "chromium-tabs"@,
        "chromium-tabs-overlay"@,
        "global-right-tabs"@,
        "brightness"@,
        "kbd_illum"@,
        "volume"@,
    ];
    assert forall|i: int| 0 <= i < 10 implies (#[trigger] plan[i]).name == names[i] by {}
    assert(names[10] == "brightness"@ && names[11] == "kbd_illum"@ && names[12] == "volume"@);
}

/// Unless the file configures layers of their names, the right end of the bar opens the volume
/// and the brightness; while media plays elsewhere, it offers that first, and while the focused
/// tab plays, the tabs.
pub proof fn law_right_ends(
    p: ConfigProxyView,
    width: u16,
    env: EnvironmentView,
    font_loads: bool,
    now: u64,
    s: StoreView,
)
    requires
        config::loaded(p, width, env, font_loads, now) is Ok,
        not_configured(p, "global-right"@),
        not_configured(p, "global-right-media"@),
        not_configured(p, "global-right-tabs"@),
    ensures
        ({
            let store = config::loaded(p, width, env, font_loads, now)->Ok_0.1;
            let plain = store.registry["global-right"@];
            let media = store.registry["global-right-media"@];
            let tabs = store.registry["global-right-tabs"@];
            &&& plain.len() == 2
            &&& media.len() == 3
            &&& tabs.len() == 3
            &&& opens(plain[0].widget, "volume_up"@, "volume"@, s)
            &&& opens(plain[1].widget, "brightness_high"@, "brightness"@, s)
            &&& opens(media[1].widget, "volume_up"@, "volume"@, s)
            &&& opens(media[2].widget, "brightness_high"@, "brightness"@, s)
            &&& opens(tabs[1].widget, "volume_up"@, "volume"@, s)
            &&& opens(tabs[2].widget, "brightness_high"@, "brightness"@, s)
            &&& media[0].widget matches WidgetView::Button(b) && b.pressed(s).1 == Some(
                ActionView::PushLayer("media-overlay"@),
            )
            &&& tabs[0].widget matches WidgetView::Button(b) && b.pressed(s).1 == Some(
                ActionView::PushLayer("chromium-tabs-overlay"@),
            ) && b.backend.content(s) == ContentView::Text("Tabs"@)
        }),
{
    lemma_plan_names(p, width);
    let plan = config::plan_of(p, width);
    lemma_built_in(p, width, env, font_loads, now, 3);
    lemma_built_in(p, width, env, font_loads, now, 4);
    lemma_built_in(p, width, env, font_loads, now, 9);
    law_cells_of_a_layer(plan[3].keys, env, 2, 0);
    law_cells_of_a_layer(plan[3].keys, env, 2, 1);
    law_cells_of_a_layer(plan[4].keys, env, 3, 0);
    law_cells_of_a_layer(plan[4].keys, env, 3, 1);
    law_cells_of_a_layer(plan[4].keys, env, 3, 2);
    law_cells_of_a_layer(plan[9].keys, env, 3, 0);
    law_cells_of_a_layer(plan[9].keys, env, 3, 1);
    law_cells_of_a_layer(plan[9].keys, env, 3, 2);
}

/// Unless the file configures layers of their names, what plays and the tabs have layers of
/// their own, and layers over the whole bar that a cross closes.
pub proof fn law_media_and_tabs_layers(
    p: ConfigProxyView,
    width: u16,
    env: EnvironmentView,
    font_loads: bool,
    now: u64,
    s: StoreView,
)
    requires
        config::loaded(p, width, env, font_loads, now) is Ok,
        not_configured(p, "media-active"@),
        not_configured(p, "media-overlay"@),
        not_configured(p, "chromium-tabs"@),
        not_configured(p, "chromium-tabs-overlay"@),
    ensures
        ({
            let store = config::loaded(p, width, env, font_loads, now)->Ok_0.1;
            let media = store.registry["media-active"@];
            let over = store.registry["media-overlay"@];
            let tabs = store.registry["chromium-tabs"@];
            let all = store.registry["chromium-tabs-overlay"@];
            &&& media.len() == 1 && media[0].widget is Media
            &&& tabs.len() == 1 && tabs[0].widget is BrowserTabs
            &&& over.len() == 2 && over[0].widget is Media && over[0].stretch == 16
            &&& all.len() == 2 && all[0].widget is BrowserTabs && all[0].stretch == 16
            &&& over[1].stretch == 1 && all[1].stretch == 1
            &&& over[1].widget matches WidgetView::Button(b) && b.pressed(s).1 == Some(
                ActionView::PopLayer,
            )
            &&& all[1].widget matches WidgetView::Button(b) && b.pressed(s).1 == Some(
                ActionView::PopLayer,
            )
        }),
{
    lemma_plan_names(p, width);
    let plan = config::plan_of(p, width);
    lemma_built_in(p, width, env, font_loads, now, 5);
    lemma_built_in(p, width, env, font_loads, now, 6);
    lemma_built_in(p, width, env, font_loads, now, 7);
    lemma_built_in(p, width, env, font_loads, now, 8);
    law_cells_of_a_layer(plan[5].keys, env, 1, 0);
    law_cells_of_a_layer(plan[6].keys, env, 2, 0);
    law_cells_of_a_layer(plan[6].keys, env, 2, 1);
    law_cells_of_a_layer(plan[7].keys, env, 1, 0);
    law_cells_of_a_layer(plan[8].keys, env, 2, 0);
    law_cells_of_a_layer(plan[8].keys, env, 2, 1);
}

/// Unless the file configures layers of their names, the base layers have the cells that the
/// file gives them, each in its place; on a wide bar Escape stands before them.
pub proof fn law_base_layers(
    p: ConfigProxyView,
    width: u16,
    env: EnvironmentView,
    font_loads: bool,
    now: u64,
    i: int,
    s: StoreView,
)
    requires
        config::loaded(p, width, env, font_loads, now) is Ok,
        not_configured(p, "media"@),
        not_configured(p, "fkeys"@),
    ensures
        ({
            let store = config::loaded(p, width, env, font_loads, now)->Ok_0.1;
            let media = store.registry["media"@];
            let keys = store.registry["fkeys"@];
            let before = if width >= 2170 {
                1int
            } else {
                0
            };
            &&& media.len() == p.media_layer_keys->0.len() + before
            &&& keys.len() == p.primary_layer_keys->0.len() + before
            &&& 0 <= i < p.media_layer_keys->0.len() ==> widgets::widget_of(
                p.media_layer_keys->0[i],
                env,
            ) == Ok::<WidgetView, LayerFault>(media[i + before].widget)
            &&& 0 <= i < p.primary_layer_keys->0.len() ==> widgets::widget_of(
                p.primary_layer_keys->0[i],
                env,
            ) == Ok::<WidgetView, LayerFault>(keys[i + before].widget)
            &&& width >= 2170 ==> (media[0].widget matches WidgetView::Button(b) && b.pressed(s).1
                == Some(ActionView::Key(seq![Key { code: 1 }], Edge::Press)))
            &&& width >= 2170 ==> (keys[0].widget matches WidgetView::Button(b) && b.pressed(s).1
                == Some(ActionView::Key(seq![Key { code: 1 }], Edge::Press)))
        }),
{
    lemma_plan_names(p, width);
    let plan = config::plan_of(p, width);
    lemma_built_in(p, width, env, font_loads, now, 0);
    lemma_built_in(p, width, env, font_loads, now, 1);
    let before = if width >= 2170 {
        1int
    } else {
        0
    };
    law_cells_of_a_layer(plan[0].keys, env, plan[0].keys.len() as int, 0);
    law_cells_of_a_layer(plan[1].keys, env, plan[1].keys.len() as int, 0);
    if 0 <= i < p.media_layer_keys->0.len() {
        assert(plan[0].keys[i + before] == p.media_layer_keys->0[i]);
        law_cells_of_a_layer(plan[0].keys, env, plan[0].keys.len() as int, i + before);
    }
    if 0 <= i < p.primary_layer_keys->0.len() {
        assert(plan[1].keys[i + before] == p.primary_layer_keys->0[i]);
        law_cells_of_a_layer(plan[1].keys, env, plan[1].keys.len() as int, i + before);
    }
}

/// The three sliders are there, whatever the file configures, each for what its name says and
/// not grabbed.
pub proof fn law_slider_layers(
    p: ConfigProxyView,
    width: u16,
    env: EnvironmentView,
    font_loads: bool,
    now: u64,
)
    requires
        config::loaded(p, width, env, font_loads, now) is Ok,
    ensures
        ({
            let store = config::loaded(p, width, env, font_loads, now)->Ok_0.1;
            let a = store.registry["brightness"@];
            let b = store.registry["kbd_illum"@];
            let c = store.registry["volume"@];
            &&& a.len() == 1 && b.len() == 1 && c.len() == 1
            &&& a[0].widget matches WidgetView::Slider(x) && x.backend == SliderBackend::Brightness
                && x.grab is None
            &&& b[0].widget matches WidgetView::Slider(x) && x.backend == SliderBackend::KbdIllum
                && x.grab is None
            &&& c[0].widget matches WidgetView::Slider(x) && x.backend == SliderBackend::Volume
                && x.grab is None
        }),
{
    config::law_sliders_are_built_in(p, width, env, font_loads, now);
}

/// The files in which an icon of no theme is looked for: the system's before the shipped ones,
/// and vector images before others.
pub proof fn law_icon_files(name: Seq<char>)
    ensures
        ({
            let paths = crate::widgets::button::icon_paths(name);
            &&& paths.len() == 4
            &&& paths[0] == "/etc/tiny-dfr/"@ + name + ".svg"@
            &&& paths[1] == "/etc/tiny-dfr/"@ + name + ".png"@
            &&& paths[2] == "/usr/share/tiny-dfr/"@ + name + ".svg"@
            &&& paths[3] == "/usr/share/tiny-dfr/"@ + name + ".png"@
        }),
{
}

/// The icons of the built-in buttons are asked for.
pub proof fn law_wanted_icons(p: ConfigProxyView, powered: bool)
    ensures
        ({
            let wanted = config::icons_of(p, powered);
            let plain = |name: Seq<char>|
                IconView { name, theme: None, width: 48, height: 48, svg_only: false };
            &&& wanted.contains(plain("volume_up"@))
            &&& wanted.contains(plain("brightness_high"@))
            &&& wanted.contains(plain("play_pause"@))
        }),
{
    let wanted = config::icons_of(p, powered);
    assert(wanted[0].name == "volume_up"@);
    assert(wanted[1].name == "brightness_high"@);
    assert(wanted[2].name == "play_pause"@);
    let plain = |name: Seq<char>|
        IconView { name, theme: None, width: 48, height: 48, svg_only: false };
    assert(wanted[0] == plain("volume_up"@));
    assert(wanted[1] == plain("brightness_high"@));
    assert(wanted[2] == plain("play_pause"@));
}

} // verus!

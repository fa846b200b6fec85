//! What touches do.
use crate::action::{ActionView, Edge};
use crate::app::{AppView, TouchProbe};
use crate::function_layer;
use crate::function_layer::{CellView, HitProbe};
use crate::layer::TouchView;
use crate::store::StoreView;
use crate::touch::TouchPhase;
use crate::widgets::button::{BackendView, ButtonView};
use crate::widgets::media::MediaPress;
use crate::widgets::slider::SliderBackend;
use crate::widgets::{PressProbe, WidgetView};
use vstd::prelude::*;

verus! {

/// A finger that comes down touches the cell that it hits and no other, and asks for what a
/// press of that cell's widget asks for. One that hits nothing does nothing.
pub proof fn law_down_presses_what_it_hits(a: AppView, p: TouchProbe)
    ensures
        ({
            let (after, asked) = a.after_touch(TouchPhase::Down, false, p);
            match a.hit_bar(p.bar) {
                None => after == a && asked == Ok::<Option<ActionView>, Seq<char>>(None),
                Some((name, i)) => {
                    let before = a.store.registry[name];
                    let now = after.store.registry[name];
                    &&& after.runtime == a.runtime
                    &&& after.rstate == a.rstate
                    &&& forall|other: Seq<char>| other != name ==> #[trigger]
                        after.store.registry[other] == a.store.registry[other]
                    &&& i < before.len() ==> {
                        &&& asked == Ok::<Option<ActionView>, Seq<char>>(
                            before[i as int].widget.pressed(a.runtime, p.press).1,
                        )
                        &&& now.len() == before.len()
                        &&& now[i as int].widget == before[i as int].widget.pressed(
                            a.runtime,
                            p.press,
                        ).0
                        &&& forall|j: int|
                            0 <= j < now.len() && j != i ==> #[trigger] now[j] == before[j]
                    }
                },
            }
        }),
{
}

/// A layer over the whole bar takes all touches, and a finger elsewhere hits one of the three
/// layers that are shown.
pub proof fn law_hit_is_on_what_is_shown(a: AppView, p: TouchProbe)
    ensures
        match a.hit_bar(p.bar) {
            Some((name, i)) => {
                &&& a.rstate.modal is Some ==> name == a.rstate.modal->0
                &&& a.rstate.modal is None ==> name == "global-left"@ || Some(name) == a.center()
                    || name == a.right()
            },
            None => true,
        },
        a.rstate.modal is None && !p.bar.left.in_area && !p.bar.center.in_area
            && !p.bar.right.in_area ==> a.hit_bar(p.bar) is None,
        a.rstate.modal is Some && !p.bar.whole.in_area ==> a.hit_bar(p.bar) is None,
{
}

/// A finger within a cell of the left end that takes touches hits it.
pub proof fn law_left_end_is_hit(a: AppView, p: TouchProbe)
    requires
        a.rstate.modal is None,
        a.store.registry["global-left"@].len() == 1,
        a.store.registry["global-left"@][0].widget is Button,
        p.bar.left.in_area,
        p.bar.left.within@.len() == 1,
        p.bar.left.within@[0],
    ensures
        a.hit_bar(p.bar) == Some(("global-left"@, 0usize)),
{
    let cells = a.store.registry["global-left"@];
    reveal_with_fuel(function_layer::cell_from, 3);
}

/// A finger on the middle of the bar hits the layer that is shown there, one at the right end
/// hits the controls, and one on a layer over the whole bar hits that.
pub proof fn law_each_part_is_hit(a: AppView, p: TouchProbe, i: usize)
    ensures
        a.rstate.modal is None && !p.bar.left.in_area && a.center() is Some && a.center()
            != Some("global-left"@) && a.center() != Some(a.right()) && function_layer::hit(
            a.store.registry[a.center()->0],
            p.bar.center,
            None,
        ) == Some(i) ==> a.hit_bar(p.bar) == Some((a.center()->0, i)),
        a.rstate.modal is None && !p.bar.left.in_area && !p.bar.center.in_area && a.center()
            != Some(a.right()) && a.right() != "global-left"@ && function_layer::hit(
            a.store.registry[a.right()],
            p.bar.right,
            None,
        ) == Some(i) ==> a.hit_bar(p.bar) == Some((a.right(), i)),
        a.rstate.modal is Some && function_layer::hit(
            a.store.registry[a.rstate.modal->0],
            p.bar.whole,
            None,
        ) == Some(i) ==> a.hit_bar(p.bar) == Some((a.rstate.modal->0, i)),
{
}

/// A finger that came down in a share of a layer hits the cell that spans this share, where it
/// is within that cell.
pub proof fn law_share_is_hit(cells: Seq<CellView>, probe: HitProbe, i: int)
    requires
        0 <= i < cells.len() <= usize::MAX,
        function_layer::start_of(cells, i) <= probe.virtual_i < function_layer::start_of(
            cells,
            i + 1,
        ),
        probe.virtual_i < function_layer::total_stretch(cells),
        probe.in_area,
        i < probe.within@.len(),
        probe.within@[i],
        cells[i].widget is Button || cells[i].widget is Media || cells[i].widget is BrowserTabs
            || cells[i].widget is DbuiConnections || cells[i].widget is Slider,
    ensures
        function_layer::hit(cells, probe, None) == Some(i as usize),
{
    function_layer::law_share_falls_into_its_cell(cells, probe.virtual_i, 0);
}

/// A finger hits a cell only where it is within it, in the layer's area, and where the cell is
/// no clock, no battery and no gap; a finger that is followed hits the cell that it came down
/// on or none.
pub proof fn law_what_is_hit(cells: Seq<CellView>, probe: HitProbe, wanted: Option<usize>)
    requires
        cells.len() <= usize::MAX,
    ensures
        ({
            let h = function_layer::hit(cells, probe, wanted);
            &&& h matches Some(i) ==> {
                &&& probe.in_area
                &&& i < cells.len()
                &&& i < probe.within@.len()
                &&& probe.within@[i as int]
                &&& !(cells[i as int].widget is Clock)
                &&& !(cells[i as int].widget is Battery)
                &&& !(cells[i as int].widget is Spacer)
                &&& wanted is Some ==> wanted == h
            }
            &&& wanted matches Some(i) ==> probe.in_area && i < cells.len() && i
                < probe.within@.len() && probe.within@[i as int] && !(
            cells[i as int].widget is Clock) && !(cells[i as int].widget is Battery) && !(
            cells[i as int].widget is Spacer) ==> h == Some(i)
        }),
{
}

/// Activating a tab ends the touch's part, and so do opening or closing a layer and sending
/// something to Neovim: the finger is on nothing from then on, and moving it does nothing.
pub proof fn law_handed_over_touch_is_not_followed(a: AppView, p: TouchProbe, q: TouchProbe)
    requires
        a.touch is None,
        match a.after_touch(TouchPhase::Down, false, p).1 {
            Ok(Some(ActionView::BrowserActivateTab(_))) => true,
            Ok(Some(ActionView::NvimBridge(_))) => true,
            Ok(Some(ActionView::NvimDbConnect(_))) => true,
            Ok(Some(ActionView::OpenModal(_))) => true,
            Ok(Some(ActionView::PushLayer(_))) => true,
            Ok(Some(ActionView::PopLayer)) => true,
            _ => false,
        },
    ensures
        ({
            let down = a.after_touch(TouchPhase::Down, false, p).0;
            &&& down.touch is None
            &&& down.after_touch(TouchPhase::Motion, false, q) == (down, Ok::<
                Option<ActionView>,
                Seq<char>,
            >(None))
            &&& down.after_touch(TouchPhase::Up, false, q) == (down, Ok::<
                Option<ActionView>,
                Seq<char>,
            >(None))
        }),
{
    let down = a.after_touch(TouchPhase::Down, false, p).0;
    assert(down.after_touch(TouchPhase::Up, false, q).0 == down);
}

/// Any other touch that hits something is followed: on the progress where it seeks, and on
/// the cell otherwise.
pub proof fn law_touch_is_followed(a: AppView, p: TouchProbe)
    requires
        a.hit_bar(p.bar) is Some,
    ensures
        ({
            let (name, btn) = a.hit_bar(p.bar)->0;
            let (down, asked) = a.after_touch(TouchPhase::Down, false, p);
            match asked {
                Ok(Some(ActionView::MediaSeek(_))) => down.touch == Some(
                    TouchView::Media { layer: name, btn },
                ),
                Ok(Some(ActionView::Key(_, _))) | Ok(Some(ActionView::MediaPrevious)) | Ok(
                    Some(ActionView::MediaPlayPause),
                ) | Ok(Some(ActionView::MediaNext)) | Ok(Some(ActionView::LaunchApp(_))) | Ok(
                    Some(ActionView::AppBridge { .. }),
                ) | Ok(None) => down.touch == Some(TouchView::Button { layer: name, btn }),
                _ => true,
            }
        }),
{
}

/// A button that sends keys and does nothing else.
pub open spec fn key_button(cells: Seq<CellView>, i: int) -> bool {
    0 <= i < cells.len() && match cells[i].widget {
        WidgetView::Button(b) => !b.active && !b.sticky && match b.backend {
            BackendView::Key(k) => k.open_layer is None && k.push_layer is None && !k.pop_layer
                && k.nvim_action is None && k.keys.len() > 0,
            _ => false,
        },
        _ => false,
    }
}

/// A finger that comes down on a key presses its keys, whatever it is that stands on it; one
/// that stays on it sends nothing more; one that leaves it or lifts releases the same keys;
/// and one that comes back presses them again.
pub proof fn law_key_under_the_finger(a: AppView, p: TouchProbe, on: TouchProbe, off: TouchProbe)
    requires
        a.hit_bar(p.bar) matches Some((name, btn)) && key_button(
            a.store.registry[name],
            btn as int,
        ) && a.store.registry.contains_key(name),
        ({
            let (name, btn) = a.hit_bar(p.bar)->0;
            &&& a.hit_layer(name, on.bar, Some(btn)) is Some
            &&& a.hit_layer(name, off.bar, Some(btn)) is None
        }),
    ensures
        ({
            let (name, btn) = a.hit_bar(p.bar)->0;
            let keys = a.store.registry[name][btn as int].widget->Button_0.backend->Key_0.keys;
            let (down, pressed) = a.after_touch(TouchPhase::Down, false, p);
            let (stayed, nothing) = down.after_touch(TouchPhase::Motion, false, on);
            let (left, released) = down.after_touch(TouchPhase::Motion, false, off);
            let (lifted, ended) = down.after_touch(TouchPhase::Up, false, off);
            &&& pressed == Ok::<Option<ActionView>, Seq<char>>(
                Some(ActionView::Key(keys, Edge::Press)),
            )
            &&& nothing == Ok::<Option<ActionView>, Seq<char>>(None)
            &&& stayed.touch == down.touch
            &&& released == Ok::<Option<ActionView>, Seq<char>>(
                Some(ActionView::Key(keys, Edge::Release)),
            )
            &&& ended == Ok::<Option<ActionView>, Seq<char>>(
                Some(ActionView::Key(keys, Edge::Release)),
            )
            &&& lifted.touch is None
            &&& left.after_touch(TouchPhase::Motion, false, on).1 == Ok::<
                Option<ActionView>,
                Seq<char>,
            >(Some(ActionView::Key(keys, Edge::Press)))
            &&& left.after_touch(TouchPhase::Up, false, off).1 == Ok::<
                Option<ActionView>,
                Seq<char>,
            >(None)
        }),
{
    let (name, btn) = a.hit_bar(p.bar)->0;
    let down = a.after_touch(TouchPhase::Down, false, p).0;
    let left = down.after_touch(TouchPhase::Motion, false, off).0;
    lemma_same_places(a, down, name);
    lemma_same_places(down, left, name);
    assert(a.region_of(name) is Some);
}

/// Where two states have the same layers and differ in nothing that decides about them, a
/// layer takes the same part of the bar.
proof fn lemma_same_places(a: AppView, b: AppView, name: Seq<char>)
    requires
        a.runtime == b.runtime,
        a.rstate == b.rstate,
        a.remote == b.remote,
        a.store.fn_base == b.store.fn_base,
        forall|n: Seq<char>| a.store.registry.contains_key(n) == b.store.registry.contains_key(n),
    ensures
        a.region_of(name) == b.region_of(name),
        a.center() == b.center(),
        a.right() == b.right(),
{
}

/// A touch whose layer is not shown any more names the layer and does nothing.
pub proof fn law_lost_layer_is_named(a: AppView, p: TouchProbe, name: Seq<char>, btn: usize)
    requires
        a.touch == Some(TouchView::Button { layer: name, btn }) || a.touch == Some(
            TouchView::Media { layer: name, btn },
        ),
        a.rstate.modal != Some(name),
        name != "global-left"@,
        name != a.right(),
        a.center() != Some(name),
    ensures
        a.after_touch(TouchPhase::Motion, false, p) == (a, Err::<Option<ActionView>, Seq<char>>(
            name,
        )),
        a.after_touch(TouchPhase::Up, false, p).1 == Err::<Option<ActionView>, Seq<char>>(name),
        a.after_touch(TouchPhase::Up, false, p).0.touch is None,
{
}

/// A finger on a slider sets what the slider stands for, to the level under the finger where
/// that has moved, and lifting it closes the slider.
pub proof fn law_slider_under_the_finger(a: AppView, p: TouchProbe, name: Seq<char>)
    requires
        a.touch == Some(TouchView::Slider { layer: name }),
        a.store.registry[name].len() == 1,
        a.store.registry[name][0].widget matches WidgetView::Slider(s) && s.grab is Some,
        p.drag.moved,
    ensures
        a.after_touch(TouchPhase::Motion, false, p).1 == Ok::<Option<ActionView>, Seq<char>>(
            Some(
                match a.store.registry[name][0].widget->Slider_0.backend {
                    SliderBackend::Brightness => ActionView::SetBrightness(p.drag.level),
                    SliderBackend::KbdIllum => ActionView::SetKbdIllum(p.drag.level),
                    SliderBackend::Volume => ActionView::SetVolume(p.drag.level),
                },
            ),
        ),
        ({
            let now = a.after_touch(TouchPhase::Motion, false, p).0;
            &&& now.touch == a.touch
            &&& now.store.registry[name][0].widget->Slider_0.level == p.drag.level
        }),
        a.after_touch(TouchPhase::Up, false, p).1 == Ok::<Option<ActionView>, Seq<char>>(
            Some(ActionView::CloseModal),
        ),
{
    assert(function_layer::first_slider(a.store.registry[name]) == 0);
}

/// A finger on the progress of a track that has a length seeks to where it points, as it comes
/// down and as it moves; lifting it asks for nothing.
pub proof fn law_finger_seeks(w: WidgetView, s: StoreView, p: PressProbe, q: PressProbe)
    requires
        w is Media,
        s.values.contains_key("media.active.length"@),
        s.values["media.active.length"@] matches crate::store::ValueView::Number(n)
            && !n.at_most_zero(),
        p.media.well matches Some(well) && well.inside,
        q.media.well is Some,
    ensures
        w.pressed(s, p).1 == Some(ActionView::MediaSeek(p.media.well->0.seek)),
        w.pressed(s, p).0.dragged(s, q.media).1 == Some(
            ActionView::MediaSeek(q.media.well->0.seek),
        ),
        w.pressed(s, p).0.released().1 is None,
        w.pressed(s, p).0.released().0->Media_0.active is None,
{
}

/// A finger on one of the player's controls sends the player that control's command, once; it
/// does not seek as it moves.
pub proof fn law_finger_on_a_control(w: WidgetView, s: StoreView, p: PressProbe, q: PressProbe)
    requires
        w is Media,
        p.media.well matches Some(well) ==> !well.inside,
    ensures
        p.media.previous ==> w.pressed(s, p).1 == Some(ActionView::MediaPrevious) && w.pressed(
            s,
            p,
        ).0->Media_0.active == Some(MediaPress::Previous),
        !p.media.previous && p.media.play_pause ==> w.pressed(s, p).1 == Some(
            ActionView::MediaPlayPause,
        ) && w.pressed(s, p).0->Media_0.active == Some(MediaPress::PlayPause),
        !p.media.previous && !p.media.play_pause && p.media.next ==> w.pressed(s, p).1 == Some(
            ActionView::MediaNext,
        ) && w.pressed(s, p).0->Media_0.active == Some(MediaPress::Next),
        !p.media.previous && !p.media.play_pause && !p.media.next ==> w.pressed(s, p) == (
            w,
            None::<ActionView>,
        ),
        p.media.previous || p.media.play_pause || p.media.next ==> w.pressed(s, p).0.dragged(
            s,
            q.media,
        ).1 is None,
{
}

/// A finger on a tab's chip activates the tab that the chip stands for; a finger between the
/// chips does nothing.
pub proof fn law_finger_on_a_tab(w: WidgetView, s: StoreView, p: PressProbe, i: int)
    requires
        w is BrowserTabs,
        0 <= i < p.chips@.len(),
        i < p.tabs@.len(),
        p.tabs@.len() <= 8,
        p.tabs@.len() <= p.by_width,
        forall|j: int| 0 <= j < p.chips@.len() ==> #[trigger] p.chips@[j] == (j == i),
    ensures
        w.pressed(s, p).1 == Some(ActionView::BrowserActivateTab(p.tabs@[i].id@)),
{
    crate::widgets::browser_tabs::lemma_only_hit(p.chips@, p.tabs@.len(), i);
}

/// A finger on a database's chip connects to the database that the chip stands for.
pub proof fn law_finger_on_a_database(w: WidgetView, s: StoreView, p: PressProbe, i: int)
    requires
        w is DbuiConnections,
        0 <= i < p.chips@.len(),
        i < p.connections@.len(),
        i < p.by_width,
        i < 8,
        forall|j: int| 0 <= j < p.chips@.len() ==> #[trigger] p.chips@[j] == (j == i),
    ensures
        w.pressed(s, p).1 == Some(ActionView::NvimDbConnect(p.connections@[i].key_name@)),
{
    crate::widgets::browser_tabs::lemma_only_hit(
        p.chips@,
        crate::widgets::browser_tabs::shown(p.by_width, p.connections@.len()),
        i,
    );
}

/// A finger on no chip of a strip asks for nothing.
pub proof fn law_finger_between_chips(w: WidgetView, s: StoreView, p: PressProbe)
    requires
        w is BrowserTabs || w is DbuiConnections,
        forall|j: int| 0 <= j < p.chips@.len() ==> !(#[trigger] p.chips@[j]),
    ensures
        w.pressed(s, p) == (w, None::<ActionView>),
{
    crate::widgets::browser_tabs::lemma_no_hit(p.chips@, 8);
    crate::widgets::browser_tabs::lemma_no_hit(
        p.chips@,
        crate::widgets::browser_tabs::shown(p.by_width, p.connections@.len()),
    );
    crate::widgets::browser_tabs::lemma_no_hit(
        p.chips@,
        crate::widgets::browser_tabs::shown(
            p.by_width,
            crate::widgets::browser_tabs::chosen(
                p.tabs@,
                crate::widgets::browser_tabs::shown(p.by_width, p.tabs@.len()),
            ).len(),
        ),
    );
}

/// Clocks, batteries and gaps do nothing when they are touched, and a slider is not pressed.
pub proof fn law_dead_widgets(w: WidgetView, s: StoreView, p: PressProbe)
    requires
        w is Clock || w is Battery || w is Spacer || w is Slider,
    ensures
        w.pressed(s, p) == (w, None::<ActionView>),
        w.released() == (w, None::<ActionView>),
        w.dragged(s, p.media) == (w, None::<ActionView>),
{
}

/// A sticky button stays pressed when it is released, and a button that is not pressed asks for
/// nothing when it is released.
pub proof fn law_release_needs_a_press(b: ButtonView)
    ensures
        b.sticky || !b.active ==> b.released() == (b, None::<ActionView>),
        !b.sticky && b.active ==> !b.released().0.active,
{
}

} // verus!

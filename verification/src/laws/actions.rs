//! What actions ask for, and what follows from them.
use crate::action::{ActionView, Edge, Key};
use crate::app::{AppView, EffectView, MediaCommand};
use crate::function_layer;
use crate::input;
use crate::input::InputEvent;
use crate::laws;
use crate::layer::TouchView;
use crate::number::Number;
use crate::store::ValueView;
use crate::widgets::slider::SliderBackend;
use crate::widgets::WidgetView;
use vstd::prelude::*;

verus! {

/// Keys are sent one after the other, each down or up as asked, and a report ends them; no keys
/// send nothing.
pub proof fn law_keys_are_sent(keys: Seq<Key>, edge: Edge)
    ensures
        ({
            let sent = input::events_for(keys, edge);
            &&& keys.len() == 0 ==> sent.len() == 0
            &&& keys.len() > 0 ==> {
                &&& sent.len() == keys.len() + 1
                &&& sent.last() == (InputEvent { kind: 0, code: 0, value: 0 })
                &&& forall|i: int|
                    0 <= i < keys.len() ==> (#[trigger] sent[i]).kind == 1 && sent[i].code
                        == keys[i].code && sent[i].value == if edge == Edge::Press {
                        1i32
                    } else {
                        0i32
                    }
            }
        }),
{
}

/// What an action asks the caller to do, where it changes nothing itself.
pub proof fn law_actions_are_passed_on(a: AppView, act: ActionView)
    ensures
        match act {
            ActionView::Key(keys, edge) => a.applied(act) == (
                a,
                Some(EffectView::Keys(input::events_for(keys, edge))),
            ),
            ActionView::SetBrightness(n) => a.applied(act) == (
                a,
                Some(EffectView::SetBrightness(n)),
            ),
            ActionView::SetKbdIllum(n) => a.applied(act) == (a, Some(EffectView::SetKbdIllum(n))),
            ActionView::MediaPrevious => a.applied(act) == (
                a,
                Some(EffectView::Media(MediaCommand::Previous)),
            ),
            ActionView::MediaPlayPause => a.applied(act) == (
                a,
                Some(EffectView::Media(MediaCommand::PlayPause)),
            ),
            ActionView::MediaNext => a.applied(act) == (
                a,
                Some(EffectView::Media(MediaCommand::Next)),
            ),
            ActionView::MediaSeek(n) => a.applied(act) == (a, Some(EffectView::Seek(n))),
            ActionView::BrowserActivateTab(id) => a.applied(act) == (
                a,
                Some(EffectView::ActivateTab(id)),
            ),
            ActionView::LaunchApp(c) => a.applied(act) == (a, Some(EffectView::Launch(c))),
            ActionView::AppBridge { app, action, fallback_keys, edge } => a.applied(act) == (
                a,
                Some(EffectView::AppAction { app, name: action, fallback_keys, edge }),
            ),
            _ => true,
        },
{
}

/// A volume is set and noted at once.
pub proof fn law_volume_is_noted(a: AppView, n: Number)
    requires
        !n.is_nan(),
    ensures
        ({
            let (after, asked) = a.applied(ActionView::SetVolume(n));
            &&& asked == Some(EffectView::SetVolume(n))
            &&& after.runtime.values.contains_key("audio.volume"@)
            &&& after.runtime.values["audio.volume"@] matches ValueView::Number(m) && m.same_value(
                n,
            )
            &&& forall|k: Seq<char>|
                k != "audio.volume"@ && a.runtime.values.contains_key(k)
                    ==> #[trigger] after.runtime.values[k] == a.runtime.values[k]
            &&& after.rstate == a.rstate
            &&& after.store == a.store
        }),
{
    crate::store::law_set_then_read(a.runtime, "audio.volume"@, ValueView::Number(n));
    reveal(crate::store::StoreView::set);
}

/// An action for Neovim goes to the remote session where ssh is in front here and Neovim there,
/// and to the Neovim of the terminal otherwise; a database is connected to by an action of its
/// own.
pub proof fn law_neovim_is_asked_where_it_runs(a: AppView, name: Seq<char>)
    ensures
        ({
            let remote = laws::said(a.runtime, "terminal.app"@) == "ssh"@ && a.remote is Some
                && a.remote->0.app == "nvim"@;
            let (one, asked) = a.applied(ActionView::NvimBridge(name));
            let (two, connects) = a.applied(ActionView::NvimDbConnect(name));
            &&& one == a
            &&& two == a
            &&& remote ==> {
                &&& asked == Some(EffectView::RemoteAction { name, db: None })
                &&& connects == Some(
                    EffectView::RemoteAction { name: "dbui.connect"@, db: Some(name) },
                )
            }
            &&& !remote ==> {
                &&& asked matches Some(EffectView::NvimAction { name: n, db, pid }) && n == name
                    && db is None && pid == crate::app::stored_pid(a.runtime, "terminal.nvim_pid"@)
                &&& connects matches Some(EffectView::NvimAction { name: n, db, pid }) && n
                    == "dbui.connect"@ && db == Some(name) && pid == crate::app::stored_pid(
                    a.runtime,
                    "terminal.nvim_pid"@,
                )
            }
        }),
{
}

/// A layer that is pushed lies over the whole bar; a pop takes away what lies over the bar, or
/// else the layer that was opened last within the application. Both have everything drawn
/// again, and ask the caller for nothing.
pub proof fn law_push_and_pop(a: AppView, name: Seq<char>)
    ensures
        ({
            let (pushed, one) = a.applied(ActionView::PushLayer(name));
            let (popped, two) = a.applied(ActionView::PopLayer);
            &&& one == Some(EffectView::Nothing)
            &&& two == Some(EffectView::Nothing)
            &&& pushed.rstate.modal == Some(name)
            &&& pushed.rstate.substates == a.rstate.substates
            &&& pushed.rstate.app == a.rstate.app
            &&& pushed.needs_complete_redraw
            &&& popped.needs_complete_redraw
            &&& popped.rstate.modal is None
            &&& a.rstate.modal is Some ==> popped.rstate.substates == a.rstate.substates
            &&& a.rstate.modal is None && a.rstate.substates.len() > 0 ==> popped.rstate.substates
                == a.rstate.substates.drop_last()
            &&& a.rstate.modal is None && a.rstate.substates.len() == 0
                ==> popped.rstate.substates.len() == 0
            &&& popped.runtime == a.runtime && pushed.runtime == a.runtime
            &&& popped.store == a.store && pushed.store == a.store
        }),
{
}

/// A layer with a slider is opened once its level has been read: the slider has that level, the
/// finger is on it, and it lies over the whole bar. A layer without a slider is not opened.
pub proof fn law_slider_is_opened(a: AppView, target: Seq<char>, level: Number, x: Number)
    requires
        !level.is_nan(),
        a.store.registry[target].len() > 0,
        a.store.registry[target][0].widget is Slider,
    ensures
        ({
            let backend = a.store.registry[target][0].widget->Slider_0.backend;
            let open = a.with_slider(backend, target, level, x);
            let slider = open.store.registry[target][0].widget;
            &&& a.applied(ActionView::OpenModal(target)) == (
                a,
                Some(EffectView::OpenSlider { backend, target }),
            )
            &&& open.rstate.modal == Some(target)
            &&& open.touch == Some(TouchView::Slider { layer: target })
            &&& open.needs_complete_redraw
            &&& slider matches WidgetView::Slider(s) && s.level.same_value(level) && s.backend
                == backend && (s.grab matches Some((from, held)) && from == x
                && held.same_value(level))
        }),
{
    let backend = a.store.registry[target][0].widget->Slider_0.backend;
    let cells = a.store.registry[target];
    assert(function_layer::first_slider(cells) == 0);
    crate::store::law_set_then_read(a.runtime, backend.key_name(), ValueView::Number(level));
    reveal(crate::store::StoreView::set);
    let held = a.with_level(backend, level).runtime.number_at(backend.key_name())->0;
    assert(held.same_value(level));
}

/// Which level is noted under which key.
pub proof fn law_levels_have_their_keys()
    ensures
        SliderBackend::Brightness.key_name() == "hardware.brightness"@,
        SliderBackend::KbdIllum.key_name() == "hardware.kbd_illum"@,
        SliderBackend::Volume.key_name() == "audio.volume"@,
{
}

/// Closing a slider lets it go and leaves nothing over the bar.
pub proof fn law_slider_is_closed(a: AppView, name: Seq<char>, i: int)
    requires
        a.rstate.modal == Some(name),
        0 <= i < a.store.registry[name].len(),
    ensures
        ({
            let (after, asked) = a.applied(ActionView::CloseModal);
            &&& asked == Some(EffectView::Nothing)
            &&& after.rstate.modal is None
            &&& after.needs_complete_redraw
            &&& match a.store.registry[name][i].widget {
                WidgetView::Slider(s) => after.store.registry[name][i].widget matches WidgetView::Slider(t)
                    && t.grab is None && t.level == s.level && t.backend == s.backend,
                w => after.store.registry[name][i].widget == w,
            }
        }),
{
}

/// Once an action was sent to Neovim everything is drawn again, and connecting to a database
/// leaves the layer it came from.
pub proof fn law_sent_action(a: AppView, connects: bool)
    ensures
        a.action_sent(connects).needs_complete_redraw,
        connects ==> a.action_sent(connects).rstate.modal is None,
        !connects ==> a.action_sent(connects).rstate == a.rstate,
        a.action_sent(connects).runtime == a.runtime,
{
}

} // verus!

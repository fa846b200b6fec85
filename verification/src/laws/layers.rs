//! Which layers the bar shows.
use crate::app::AppView;
use crate::laws;
use crate::scan;
use crate::text;
use crate::titles;
use vstd::prelude::*;

verus! {

/// Whether the class of the focused window holds a word, whatever the case of its letters.
pub open spec fn class_holds(a: AppView, word: Seq<char>) -> bool {
    scan::occurs(text::lowercase(laws::said(a.runtime, "context.focus.class"@)), word)
}

/// Whether a Ghostty terminal is focused.
pub open spec fn in_terminal(a: AppView) -> bool {
    class_holds(a, "ghostty"@) || (laws::is_on(a.runtime, "terminal.available"@) && laws::said(
        a.runtime,
        "terminal.name"@,
    ) == "ghostty"@)
}

/// Whether a program is in front: here, or in the remote session while ssh is in front here.
pub open spec fn in_front(a: AppView, program: Seq<char>) -> bool {
    laws::said(a.runtime, "terminal.app"@) == program || (laws::said(a.runtime, "terminal.app"@)
        == "ssh"@ && a.remote is Some && a.remote->0.app == program)
}

/// Whether the browser is focused.
pub open spec fn in_browser(a: AppView) -> bool {
    class_holds(a, "chromium"@) || class_holds(a, "chrome"@)
}

/// Whether the media that plays is that of the focused tab of the browser.
pub open spec fn tab_plays(a: AppView) -> bool {
    in_browser(a) && laws::is_on(a.runtime, "chromium.media.active"@) && titles::probably_match(
        laws::said(a.runtime, "media.active.title"@),
        laws::said(a.runtime, "context.focus.title"@),
    )
}

/// Whether nothing hides the layer of the focused window: none was opened within it, and Fn is
/// not held.
pub open spec fn unhidden(a: AppView) -> bool {
    a.rstate.substates.len() == 0 && !a.rstate.fn_pressed
}

/// A layer that was opened within the application comes first, then the second base layer
/// while Fn is held.
pub proof fn law_opened_layer_comes_first(a: AppView)
    ensures
        a.rstate.substates.len() > 0 && a.store.registry.contains_key(a.rstate.substates.last())
            ==> a.center() == Some(a.rstate.substates.last()),
        a.rstate.substates.len() == 0 && a.rstate.fn_pressed && a.store.registry.contains_key(
            a.store.fn_base,
        ) ==> a.center() == Some(a.store.fn_base),
{
}

/// The agent's layer is shown while the agent is in front in the terminal, be it here or in
/// the remote session that ssh shows, unless Neovim is.
pub proof fn law_agent_layer(a: AppView)
    requires
        unhidden(a),
        in_terminal(a),
        in_front(a, "pi"@),
        !in_front(a, "nvim"@),
        a.store.registry.contains_key("terminal-pi"@),
    ensures
        a.center() == Some("terminal-pi"@),
{
}

/// Neovim's layer is shown while Neovim is in front in the terminal, be it here or in the
/// remote session that ssh shows: that of its debugger while that is active or visible, else
/// that of its tests while their summary is visible, else that of its databases while they
/// are visible or being edited.
pub proof fn law_neovim_layer(a: AppView)
    requires
        unhidden(a),
        in_terminal(a),
        in_front(a, "nvim"@),
    ensures
        ({
            let debugs = laws::is_on(a.runtime, "nvim.dap.active"@) || laws::is_on(
                a.runtime,
                "nvim.dapui.visible"@,
            );
            let tests = laws::is_on(a.runtime, "nvim.neotest.summary_visible"@);
            let databases = laws::is_on(a.runtime, "nvim.dbui.visible"@) || laws::is_on(
                a.runtime,
                "nvim.dbui.in_buffer"@,
            );
            &&& debugs && a.store.registry.contains_key("terminal-nvim-debug"@) ==> a.center()
                == Some("terminal-nvim-debug"@)
            &&& !debugs && tests && a.store.registry.contains_key("terminal-nvim-test"@)
                ==> a.center() == Some("terminal-nvim-test"@)
            &&& !debugs && !tests && databases && a.store.registry.contains_key(
                "terminal-nvim-db"@,
            ) ==> a.center() == Some("terminal-nvim-db"@)
            &&& !debugs && !tests && !databases && a.store.registry.contains_key(
                "terminal-nvim"@,
            ) ==> a.center() == Some("terminal-nvim"@)
        }),
{
}

/// A focused browser shows its tabs, or what the focused tab plays.
pub proof fn law_browser_layer(a: AppView)
    requires
        unhidden(a),
        in_browser(a),
        !in_terminal(a) || (!in_front(a, "nvim"@) && !in_front(a, "pi"@)),
    ensures
        tab_plays(a) && a.store.registry.contains_key("media-active"@) ==> a.center() == Some(
            "media-active"@,
        ),
        !tab_plays(a) && a.store.registry.contains_key("chromium-tabs"@) ==> a.center() == Some(
            "chromium-tabs"@,
        ),
{
}

/// Any other window shows the layer of its class, and none where its class has none.
pub proof fn law_layer_of_the_class(a: AppView)
    requires
        unhidden(a),
        !in_browser(a),
        !in_terminal(a) || (!in_front(a, "nvim"@) && !in_front(a, "pi"@)),
    ensures
        a.rstate.app is Some && a.store.registry.contains_key(a.rstate.app->0) ==> a.center()
            == a.rstate.app,
        a.rstate.app is None ==> a.center() is None,
{
}

/// The right end of the bar offers the tabs while the focused tab plays; otherwise it offers
/// the media that plays, unless the middle of the bar shows it; and otherwise it has the two
/// sliders alone.
pub proof fn law_right_end(a: AppView)
    ensures
        ({
            let plays = laws::said(a.runtime, "media.active.player"@).len() > 0;
            let shown = a.center() == Some("media-active"@) || a.center() == Some(
                "media-overlay"@,
            );
            &&& tab_plays(a) ==> a.right() == "global-right-tabs"@
            &&& !tab_plays(a) && plays && !shown ==> a.right() == "global-right-media"@
            &&& !tab_plays(a) && (!plays || shown) ==> a.right() == "global-right"@
        }),
{
}

/// A layer over the whole bar is drawn alone. Otherwise Escape is at the left, the layer that
/// is shown in the middle, and the controls at the right.
pub proof fn law_what_is_drawn(a: AppView, width: u16, height: u16)
    ensures
        ({
            let drawn = a.plan(width, height);
            &&& a.rstate.modal is Some ==> {
                &&& drawn.len() == 1
                &&& drawn[0].0 == a.rstate.modal->0
                &&& drawn[0].1.left == 0
                &&& drawn[0].1.width == width
                &&& drawn[0].1.height == height
            }
            &&& a.rstate.modal is None ==> {
                &&& drawn[0].0 == "global-left"@
                &&& drawn.last().0 == a.right()
                &&& drawn.len() == if a.center() is Some {
                    3int
                } else {
                    2int
                }
                &&& a.center() is Some ==> drawn[1].0 == a.center()->0
            }
        }),
{
}

/// The parts that are drawn have the heights of the bar, and lie from left to right without
/// touching: the ends have as many buttons as their layers, each between 120 and 190 pixels
/// wide and two and a half times as wide as high in between.
pub proof fn law_where_it_is_drawn(a: AppView, width: u16, height: u16)
    requires
        a.rstate.modal is None,
        width >= 850,
    ensures
        ({
            let drawn = a.plan(width, height);
            let left = drawn[0].1;
            let right = drawn.last().1;
            let count = if a.right() == "global-right"@ {
                2int
            } else {
                3int
            };
            &&& forall|i: int| 0 <= i < drawn.len() ==> (#[trigger] drawn[i]).1.height == height
            &&& left.left == 0
            &&& 120 <= left.width <= 190
            &&& 5 * height < 240 ==> left.width == 120
            &&& 5 * height >= 380 ==> left.width == 190
            &&& 240 <= 5 * height < 380 ==> 2 * left.width == 5 * height || 2 * left.width == 5
                * height + 1
            &&& right.width == count * left.width + 16 * (count - 1)
            &&& right.left + right.width == width
            &&& a.center() is Some ==> drawn[1].1.left == left.width + 16 && drawn[1].1.left
                + drawn[1].1.width + 16 == right.left
        }),
{
    let w = crate::app::edge_width(height as int);
    assert(w * 2 == 2 * w && w * 3 == 3 * w);
}

} // verus!

//! What is asked, and what replies say.
use crate::action::{Edge, Key};
use crate::app::{AppStep, AppView, NvimSource, PiSource};
use crate::bridge;
use crate::bridge::{ActionResponse, BridgeError};
use crate::browser;
use crate::browser::{BidiError, BidiReply, ConnectPlan};
use crate::laws;
use crate::mpris;
use crate::mpris::{BrowserMediaTiming, MediaView, SeekPlan};
use crate::number;
use crate::number::Number;
use crate::pi_state;
use crate::pi_state::{PiError, PiView};
use crate::remote;
use crate::remote::{RemoteLine, RemoteMessage};
use crate::scan;
use crate::text;
use crate::widgets::browser_tabs;
use crate::widgets::browser_tabs::FaviconPlan;
use crate::widgets::dbui_connections;
use crate::widgets::indicator::{
    BatteryIconMode, BatteryReadout, BatteryState, BatteryView, Tint,
};
use crate::widgets::media;
use vstd::prelude::*;

verus! {

/// A reply that says yes is a success; one that says no fails with its own words, or with words
/// of ours where it has none; a blank one and one that cannot be read fail as such.
pub proof fn law_replies(
    line: Seq<char>,
    response: Option<ActionResponse>,
    r: Result<(), BridgeError>,
)
    requires
        bridge::reply_says(line, response, r),
    ensures
        scan::trimmed(line).len() == 0 ==> r == Err::<(), BridgeError>(BridgeError::Empty),
        scan::trimmed(line).len() > 0 && response is None ==> r == Err::<(), BridgeError>(
            BridgeError::Malformed,
        ),
        scan::trimmed(line).len() > 0 && response is Some && response->0.ok ==> r is Ok,
        scan::trimmed(line).len() > 0 && response is Some && !response->0.ok ==> (r matches Err(
            BridgeError::Failed(e),
        ) && (response->0.error is Some ==> e@ == response->0.error->0@) && (
        response->0.error is None ==> e@ == "unknown error"@)),
{
}

/// What a remote session's line is: a greeting, a report, the outcome of an action, or
/// something unknown, with the session that it names; and nothing where it is no JSON.
pub proof fn law_remote_lines(
    valid: bool,
    kind: Option<Seq<char>>,
    session: Option<Seq<char>>,
    ok: Option<bool>,
    r: RemoteLine,
)
    requires
        remote::line_says(valid, kind, session, ok, r),
    ensures
        !valid ==> r.message is Invalid && r.session_id is None,
        valid ==> match r.session_id {
            Some(s) => session == Some(s@),
            None => session is None,
        },
        valid && kind == Some("hello"@) ==> r.message is Hello,
        valid && kind == Some("context"@) ==> r.message is Context,
        valid && kind == Some("action_result"@) ==> r.message == (RemoteMessage::ActionResult {
            failed: ok == Some(false),
        }),
        valid && kind != Some("hello"@) && kind != Some("context"@) && kind != Some(
            "action_result"@,
        ) && kind is Some ==> (r.message matches RemoteMessage::Unknown(t) && t@ == kind->0),
{
    reveal_strlit("hello");
    reveal_strlit("context");
    reveal_strlit("action_result");
    assert("hello"@.len() == 5 && "context"@.len() == 7 && "action_result"@.len() == 13);
}

/// What a browser's message is while an answer is waited for: one with another number is
/// passed over, an error fails with its code and its words, and a result is the answer.
pub proof fn law_browser_replies(
    valid: bool,
    wanted: u64,
    id: Option<u64>,
    kind: Option<Seq<char>>,
    error: Option<Seq<char>>,
    message: Option<Seq<char>>,
    has_result: bool,
    r: BidiReply,
)
    requires
        browser::reply_is(valid, wanted, id, kind, error, message, has_result, r),
    ensures
        !valid ==> (r matches BidiReply::Failed(e) && e is Malformed),
        valid && id != Some(wanted) ==> r is Ignore,
        valid && id == Some(wanted) && kind == Some("error"@) ==> (r matches BidiReply::Failed(
            BidiError::Failed { code, message: m },
        ) && (error is Some ==> code@ == error->0) && (error is None ==> code@
            == "unknown error"@) && (message is Some ==> m@ == message->0) && (message is None
            ==> m@.len() == 0)),
        valid && id == Some(wanted) && kind != Some("error"@) && has_result ==> r is Answer,
        valid && id == Some(wanted) && kind != Some("error"@) && !has_result ==> (r matches BidiReply::Failed(
            e,
        ) && e is NoResult),
{
}

/// A browser whose socket is gone is asked for the session that there was, at its own address
/// below the browser's; without one a new session is asked for at the browser's address.
pub proof fn law_connecting(
    connected: bool,
    session: Option<Seq<char>>,
    endpoint: Seq<char>,
    r: ConnectPlan,
)
    requires
        browser::connect_by(connected, session, endpoint, r),
        endpoint.len() > 0,
        endpoint.last() != '/',
    ensures
        connected ==> r is Ready,
        !connected && session is Some ==> (r matches ConnectPlan::Reattach(url) && url@ == endpoint
            + "/"@ + session->0),
        !connected && session is None ==> (r matches ConnectPlan::NewSession(url) && url@
            == endpoint),
{
    reveal_strlit("/");
    if "/"@.is_suffix_of(endpoint) {
        assert(endpoint.skip(endpoint.len() - 1)[0] == "/"@[0]);
    }
}

/// Seeking goes to the player and the track that are shown, cut to whole microseconds; nothing
/// is asked where either is missing.
pub proof fn law_seeking(
    player: Option<Seq<char>>,
    track: Option<Seq<char>>,
    position: Number,
    r: SeekPlan,
)
    requires
        mpris::seek_by(player, track, position, r),
    ensures
        player is None || track is None ==> r is Nothing,
        player is Some && track is Some && !mpris::object_path(track->0) ==> r is BadTrack,
        player is Some && track is Some && mpris::object_path(track->0) ==> (r matches SeekPlan::Seek {
            player: p,
            track_id,
            position_us,
        } && p@ == player->0 && track_id@ == track->0 && position_us == position.truncated_i64()),
{
}

/// While ssh is in front, Neovim's state is the one that the remote session has reported, where
/// it has reported one; otherwise the Neovims on this machine are asked, that of the terminal
/// first.
pub proof fn law_where_neovim_is_asked(a: AppView, r: NvimSource)
    requires
        a.asks_neovim(r),
    ensures
        ({
            let there = laws::said(a.runtime, "terminal.app"@) == "ssh"@ && a.remote is Some
                && a.remote->0.nvim_bridge is Some;
            &&& there ==> (r matches NvimSource::Remote(s) && s.available && s.selected is Some
                && s.selected->0@ == a.remote->0.nvim_bridge->0)
            &&& !there ==> (r matches NvimSource::Local { preferred_pid } && preferred_pid
                == crate::app::stored_pid(a.runtime, "terminal.nvim_pid"@))
        }),
{
}

/// While ssh is in front, the agent's state is the one that the remote session has reported,
/// where it has reported one; otherwise the agents on this machine are asked, that of the
/// program in front or of its directory first.
pub proof fn law_where_the_agent_is_asked(a: AppView, r: PiSource)
    requires
        a.asks_agent(r),
    ensures
        ({
            let there = laws::said(a.runtime, "terminal.app"@) == "ssh"@ && a.remote is Some
                && a.remote->0.pi_state is Some;
            let cwd = laws::said(a.runtime, "terminal.cwd"@);
            &&& there ==> (r matches PiSource::Remote(s) && s@ == a.remote->0.pi_state->0)
            &&& !there ==> (r matches PiSource::Local { preferred_pid, preferred_cwd }
                && preferred_pid == crate::app::stored_pid(a.runtime, "terminal.app_pid"@) && (
            cwd.len() == 0 ==> preferred_cwd is None) && (cwd.len() > 0 ==> preferred_cwd is Some
                && preferred_cwd->0@ == cwd))
        }),
{
}

/// The agent is sent an action that it listens for, once, by the press; any other program, and
/// an agent that does not listen, is sent the keys that stand for the action.
pub proof fn law_action_or_keys(
    app: Seq<char>,
    listens: bool,
    keys: Seq<Key>,
    edge: Edge,
    r: AppStep,
)
    requires
        crate::app::step_by(app, listens, keys, edge, r),
    ensures
        app == "pi"@ && listens && edge == Edge::Press ==> r is Send,
        app == "pi"@ && listens && edge == Edge::Release ==> r is Nothing,
        app != "pi"@ || !listens ==> (r matches AppStep::Keys(e) && e@ == crate::input::events_for(
            keys,
            edge,
        )),
{
}

/// An agent listens for the actions that it lists, where it has a socket to send them to.
pub proof fn law_listening_agent(agent: PiView, name: Seq<char>, r: Result<String, PiError>)
    requires
        pi_state::reached_at(Some(agent), r),
    ensures
        !pi_state::listens(None, name),
        pi_state::listens(Some(agent), name) <==> agent.app_bridge_socket is Some
            && agent.app_bridge_socket->0.len() > 0 && agent.capabilities.contains(name),
        agent.app_bridge_socket is Some ==> (r matches Ok(t) && t@ == agent.app_bridge_socket->0),
        agent.app_bridge_socket is None ==> r == Err::<String, PiError>(PiError::NoSocket),
{
}

/// After news everything is drawn again where that was due, where the remote sessions changed,
/// or where another layer is shown in the middle or at the right; and only then.
pub proof fn law_after_news(
    a: AppView,
    center: Option<Seq<char>>,
    right: Seq<char>,
    remote_changed: bool,
)
    ensures
        ({
            let after = a.refreshed(center, right, remote_changed);
            &&& a.needs_complete_redraw || remote_changed || center != a.center() || right
                != a.right() <==> after.needs_complete_redraw
            &&& after.runtime == a.runtime && after.rstate == a.rstate && after.store == a.store
        }),
{
}

/// The position and the length stand with a slash between them, both with hours or both
/// without; the label has more room where there are hours.
pub proof fn law_label_of_the_progress(position: u64, length: u64)
    ensures
        position < 3600 && length < 3600 ==> media::time_pair(position, length)
            == media::clock_text(position, false) + "/"@ + media::clock_text(length, false)
            && media::label_width(position, length) == 160,
        position >= 3600 || length >= 3600 ==> media::time_pair(position, length)
            == media::clock_text(position, true) + "/"@ + media::clock_text(length, true)
            && media::label_width(position, length) == 245,
{
}

/// A tab's chip shows its title, or its address where the title is blank; a database's shows its
/// name, and its source where that is not blank.
pub proof fn law_chips(title: Seq<char>, url: Seq<char>)
    ensures
        scan::trimmed(title).len() > 0 ==> browser_tabs::title_on_chip(title, url) == title,
        scan::trimmed(title).len() == 0 ==> browser_tabs::title_on_chip(title, url) == url,
        scan::trimmed(url).len() == 0 ==> dbui_connections::label_on_chip(title, url) == title,
        scan::trimmed(url).len() > 0 ==> dbui_connections::label_on_chip(title, url) == title
            + " · "@ + url,
        scan::trimmed(url).len() == 0 ==> browser_tabs::plan_for_icon(url) == FaviconPlan::Nothing,
        scan::trimmed(url).len() > 0 && "data:"@.is_prefix_of(url) ==> browser_tabs::plan_for_icon(
            url,
        ) == FaviconPlan::Unsupported,
        scan::trimmed(url).len() > 0 && !"data:"@.is_prefix_of(url) ==> browser_tabs::plan_for_icon(
            url,
        ) == FaviconPlan::Fetch,
{
}

/// A battery that is being charged is green and one that is low is red; its charge is written in
/// percent unless an icon alone is wanted, to the right of the icon where there is one.
pub proof fn law_battery_readout(b: BatteryView, capacity: u32, state: BatteryState, r: BatteryReadout)
    requires
        b.reads_out(capacity, state, r),
    ensures
        state == BatteryState::Charging ==> r.tint == Tint::Green,
        state == BatteryState::Low ==> r.tint == Tint::Red,
        state == BatteryState::NotCharging ==> r.tint == Tint::White,
        r.percent@ == text::decimal(capacity as nat) + "%"@,
        b.mode == BatteryIconMode::Icon ==> !r.written && r.icon is Some,
        b.mode == BatteryIconMode::Both ==> r.written && r.icon is Some,
        b.mode == BatteryIconMode::Percentage ==> r.written && (r.icon is Some <==> state
            == BatteryState::Charging),
        r.icon is Some ==> r.text_offset == 48 && r.icon->0@.theme == b.theme
            && r.icon->0@.svg_only && r.icon->0@.width == 48 && r.icon->0@.height == 48,
        r.icon is None ==> r.text_offset == 0,
{
}

/// What a player says of itself is kept as it says it, a missing text as an empty one, and a
/// length or a position below zero as zero.
pub proof fn law_what_a_player_says(
    player: Seq<char>,
    track: Option<Seq<char>>,
    status: Seq<char>,
    title: Option<Seq<char>>,
    art: Option<Seq<char>>,
    length: i64,
    position: i64,
)
    ensures
        ({
            let m = mpris::media_of(player, track, status, title, art, length, position);
            let small = 0x20_0000_0000_0000int;
            &&& m.player == player
            &&& m.status == status
            &&& track is Some ==> m.track_id == track->0
            &&& track is None ==> m.track_id.len() == 0
            &&& title is Some ==> m.title == title->0
            &&& title is None ==> m.title.len() == 0
            &&& art is Some ==> m.art_url == art->0
            &&& art is None ==> m.art_url.len() == 0
            &&& 0 <= length < small ==> m.length_us.represents(length as nat)
            &&& 0 <= position < small ==> m.position_us.represents(position as nat)
            &&& length < 0 ==> m.length_us.represents(0)
            &&& position < 0 ==> m.position_us.represents(0)
        }),
{
    number::law_small_integers_are_doubles(0);
    if 0 <= length < 0x20_0000_0000_0000 {
        number::law_small_integers_are_doubles(length as nat);
    }
    if 0 <= position < 0x20_0000_0000_0000 {
        number::law_small_integers_are_doubles(position as nat);
    }
}

/// The length and the position that a player leaves out are those of the page that plays, each
/// on its own; all else stays as the player says it.
pub proof fn law_page_completes_the_player(m: MediaView, t: BrowserMediaTiming)
    ensures
        ({
            let c = mpris::completed(m, t);
            &&& m.length_us.is_zero() ==> c.length_us == t.length_us
            &&& !m.length_us.is_zero() ==> c.length_us == m.length_us
            &&& m.position_us.is_zero() ==> c.position_us == t.position_us
            &&& !m.position_us.is_zero() ==> c.position_us == m.position_us
            &&& c.player == m.player && c.title == m.title && c.status == m.status && c.art_url
                == m.art_url && c.track_id == m.track_id
        }),
{
}

} // verus!

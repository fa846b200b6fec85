//! The digitizer, the light of the bar, and the compositor's reports.
use crate::backlight::{Activity, BacklightManager};
use crate::context;
use crate::context::FocusView;
use crate::scan;
use crate::text;
use crate::touch::{RawEvent, TouchPhase, TouchReader, TouchSample};
use vstd::prelude::*;

verus! {

/// The digitizer's events: one gives the position, one says whether the finger is felt, one
/// ends a report, and the others say nothing.
pub proof fn law_digitizer_events(t: TouchReader, e: RawEvent, now: u64)
    ensures
        ({
            let (after, sample) = t.after(e, now);
            &&& e.kind == 3 && e.code == 0 ==> after.pending_x == e.value && sample is None
                && after.btn_touch == t.btn_touch && after.down == t.down && after.last_x
                == t.last_x
            &&& e.kind == 1 && e.code == 330 ==> after.btn_touch == (e.value != 0) && sample is None
                && after.pending_x == t.pending_x && after.down == t.down
            &&& e.kind == 0 && e.code == 0 ==> (after, sample) == t.framed(now)
            &&& !(e.kind == 3 && e.code == 0) && !(e.kind == 1 && e.code == 330) && !(e.kind == 0
                && e.code == 0) ==> after == t && sample is None
        }),
{
}

/// A report in which the finger is first felt puts it down where it is; one with another
/// position moves it there; and any other says nothing.
pub proof fn law_digitizer_reports(t: TouchReader, now: u64)
    ensures
        ({
            let (after, sample) = t.framed(now);
            &&& t.btn_touch && !t.down ==> after.down && sample == Some(
                TouchSample { phase: TouchPhase::Down, abs_x: t.pending_x },
            ) && after.last_x == t.pending_x && after.last_activity == now
            &&& t.down && t.pending_x != t.last_x ==> after.down && sample == Some(
                TouchSample { phase: TouchPhase::Motion, abs_x: t.pending_x },
            ) && after.last_x == t.pending_x && after.last_activity == now
            &&& t.down && t.pending_x == t.last_x ==> after.down && sample is None && (t.btn_touch
                ==> after.last_activity == now)
            &&& !t.down && !t.btn_touch ==> after == t && sample is None
        }),
{
}

/// A finger that is not felt any more is lifted where it last was, once the digitizer has said
/// nothing of it for more than 150 milliseconds; one that is felt never is on that account.
pub proof fn law_digitizer_release(t: TouchReader, now: u64)
    ensures
        ({
            let (after, sample) = t.released(now);
            let quiet = now - t.last_activity > 150_000_000;
            &&& t.down && !t.btn_touch && quiet ==> !after.down && sample == Some(
                TouchSample { phase: TouchPhase::Up, abs_x: t.last_x },
            )
            &&& !t.down || t.btn_touch || !quiet ==> after == t && sample is None
        }),
{
}

/// Events are taken one after the other, and what they say is kept in order.
pub proof fn law_events_in_order(t: TouchReader, events: Seq<RawEvent>, n: int, now: u64)
    requires
        0 < n <= events.len(),
    ensures
        ({
            let (mid, before) = t.after_all(events, n - 1, now);
            let (next, sample) = mid.after(events[n - 1], now);
            let (end, all) = t.after_all(events, n, now);
            &&& t.after_all(events, 0, now) == (t, Seq::<TouchSample>::empty())
            &&& end == next
            &&& sample is None ==> all == before
            &&& sample is Some ==> all == before.push(sample->0)
        }),
{
}

/// The bar is lit while the machine was used in the last half minute, then dimmed to one, and
/// off after a minute or while the lid is closed; it is never brighter than it can be.
pub proof fn law_light_of_the_bar(m: BacklightManager, lit: u32, now: u64)
    ensures
        ({
            let idle = if now < m.last_active {
                0int
            } else {
                (now - m.last_active) / 1_000_000
            };
            let w = m.wanted(lit, now);
            &&& w <= m.max_bl
            &&& m.lid_closed || idle >= 60_000 ==> w == 0
            &&& !m.lid_closed && idle < 30_000 ==> w == if lit < m.max_bl {
                lit
            } else {
                m.max_bl
            }
            &&& !m.lid_closed && 30_000 <= idle < 60_000 ==> w == if m.max_bl >= 1 {
                1u32
            } else {
                0u32
            }
        }),
{
}

/// Keys, pointers, gestures and touches wake the bar, and so does opening the lid; closing it
/// turns the bar off; nothing else does anything.
pub proof fn law_what_wakes_the_bar(m: BacklightManager, now: u64)
    ensures
        m.after(Activity::Input, now).last_active == now,
        m.after(Activity::Input, now).lid_closed == m.lid_closed,
        m.after(Activity::LidOpened, now).last_active == now,
        !m.after(Activity::LidOpened, now).lid_closed,
        m.after(Activity::LidClosed, now).lid_closed,
        m.after(Activity::LidClosed, now).last_active == m.last_active,
        m.after(Activity::Other, now) == m,
{
}

/// The bar follows the display one step brighter than its share, 255 at most.
pub proof fn law_following_the_display(scaled: u32)
    requires
        scaled < u32::MAX,
    ensures
        scaled < 255 ==> crate::backlight::followed(scaled) == scaled + 1,
        scaled >= 254 ==> crate::backlight::followed(scaled) == 255,
{
}

/// A report of the focused window gives its class up to the first comma, and its title behind
/// it; a class may come without a title. Any other line leaves the focused window.
pub proof fn law_reported_window(focus: FocusView, class: Seq<char>, title: Seq<char>, line: Seq<char>)
    requires
        !class.contains(','),
    ensures
        context::after_line(focus, "activewindow>>"@ + class + seq![','] + title) == (FocusView {
            class,
            title,
        }),
        context::after_line(focus, "activewindow>>"@ + class) == (FocusView {
            class,
            title: Seq::empty(),
        }),
        !"activewindow>>"@.is_prefix_of(line) ==> context::after_line(focus, line) == focus,
{
    let head = "activewindow>>"@;
    let n = head.len() as int;
    let one = head + class + seq![','] + title;
    let two = head + class;
    assert(one.take(n) =~= head);
    assert(two.take(n) =~= head);
    assert(one.skip(n) =~= class + seq![','] + title);
    assert(two.skip(n) =~= class);
    scan::lemma_find(class + seq![','] + title, ',');
    scan::lemma_find(class, ',');
    let rest = class + seq![','] + title;
    let k = scan::find(rest, ',') as int;
    assert(rest[class.len() as int] == ',');
    assert(k == class.len()) by {
        if k < class.len() {
            assert(class[k] == rest[k]);
            assert(class.contains(class[k]));
        }
    }
    assert(rest.take(k) =~= class);
    assert(rest.skip(k + 1) =~= title);
    let j = scan::find(class, ',') as int;
    if j < class.len() {
        assert(class.contains(class[j]));
    }
}

/// Lines are taken one after the other, and what is left behind the last line feed is kept.
pub proof fn law_lines_in_order(focus: FocusView, line: Seq<u8>, rest: Seq<u8>)
    requires
        !line.contains(10u8),
    ensures
        context::after_lines(focus, line) == (focus, false, line),
        ({
            let next = context::after_line(focus, text::utf8_lossy(line));
            let (last, changed, left) = context::after_lines(next, rest);
            context::after_lines(focus, line + seq![10u8] + rest) == (
                last,
                changed || next != focus,
                left,
            )
        }),
{
    let all = line + seq![10u8] + rest;
    context::lemma_line_end(line);
    context::lemma_line_end(all);
    let a = context::line_end(line) as int;
    if a < line.len() {
        assert(line.contains(line[a]));
    }
    let b = context::line_end(all) as int;
    assert(all[line.len() as int] == 10);
    assert(b == line.len()) by {
        if b < line.len() {
            assert(all[b] == line[b]);
            assert(line.contains(line[b]));
        }
    }
    assert(all.take(b) =~= line);
    assert(all.skip(b + 1) =~= rest);
}

} // verus!

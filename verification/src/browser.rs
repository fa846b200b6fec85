//! The browser's tabs, over one of two debugging protocols: Chromium's, which is asked for a
//! list of targets, and WebDriver BiDi, which is spoken over a socket.
use crate::bridge;
use crate::html;
use crate::json;
use crate::scan;
use crate::text;
use crate::widgets::browser_tabs::BrowserTab;
use vstd::prelude::*;

verus! {

/// Where Chromium listens.
pub const CDP_DEFAULT_ENDPOINT: &'static str = "http://127.0.0.1:9222";

/// Where a BiDi browser listens.
pub const BIDI_DEFAULT_ENDPOINT: &'static str = "ws://127.0.0.1:9222/session";

/// How often the tabs are asked for, in nanoseconds.
pub const POLL_INTERVAL_NS: u64 = 500_000_000;

/// How long a BiDi browser that failed is left alone, in nanoseconds.
pub const BIDI_ERROR_RETRY_NS: u64 = 5_000_000_000;

/// The file of the BiDi session, below the session's directory.
pub const BIDI_SESSION_FILE: &'static str = "tiny-dfr/bidi-session";

/// The script that has a page say its title and its icon.
pub const METADATA_SCRIPT: &'static str = "JSON.stringify({title: document.title || \"\", favicon_url: document.querySelector('link[rel~=\"icon\"]')?.href || \"\"})";

/// The script that has a page say the length and the position of what it plays.
pub const MEDIA_SCRIPT: &'static str = "(() => { const all = [...document.querySelectorAll('video,audio')]; const media = all.find(item => !item.paused && !item.ended) || all.find(item => Number.isFinite(item.duration) && item.duration > 0); if (!media) return ''; return JSON.stringify({length_us: Number.isFinite(media.duration) ? media.duration * 1000000 : 0, position_us: Number.isFinite(media.currentTime) ? media.currentTime * 1000000 : 0}); })()";

// ---------------------------------------------------------------------------
// Tabs
// ---------------------------------------------------------------------------

/// A tab, its texts taken as sequences.
pub struct TabView {
    pub id: Seq<char>,
    pub title: Seq<char>,
    pub url: Seq<char>,
    pub favicon_url: Seq<char>,
    pub active: bool,
}

impl View for BrowserTab {
    type V = TabView;

    open spec fn view(&self) -> TabView {
        TabView {
            id: self.id@,
            title: self.title@,
            url: self.url@,
            favicon_url: self.favicon_url@,
            active: self.active,
        }
    }
}

/// What a list of tabs holds.
pub open spec fn tabs_view(v: Seq<BrowserTab>) -> Seq<TabView> {
    v.map_values(|t: BrowserTab| t@)
}

/// A tab as JSON.
pub open spec fn tab_json(t: TabView) -> Seq<char> {
    bridge::object(
        seq![
            bridge::entry("id"@, json::quoted(t.id)),
            bridge::entry("title"@, json::quoted(t.title)),
            bridge::entry("url"@, json::quoted(t.url)),
            bridge::entry("favicon_url"@, json::quoted(t.favicon_url)),
            bridge::entry("active"@, json::bool_text(t.active)),
        ],
    )
}

/// Tabs as a JSON array.
pub open spec fn tabs_json(tabs: Seq<TabView>) -> Seq<char> {
    "["@ + scan::joined(tabs.map_values(|t: TabView| tab_json(t)), ","@) + "]"@
}

/// The first active tab from `i` on.
pub open spec fn first_active(tabs: Seq<TabView>, i: int) -> Option<int>
    decreases tabs.len() - i,
{
    if i >= tabs.len() {
        None
    } else if tabs[i].active {
        Some(i)
    } else {
        first_active(tabs, i + 1)
    }
}

/// A tab as JSON.
fn write_tab(t: &BrowserTab) -> (r: String)
    ensures
        r@ == tab_json(t@),
{
    let mut parts: Vec<String> = Vec::new();
    parts.push(bridge::write_entry("id", json::quote(t.id.as_str()).as_str()));
    parts.push(bridge::write_entry("title", json::quote(t.title.as_str()).as_str()));
    parts.push(bridge::write_entry("url", json::quote(t.url.as_str()).as_str()));
    parts.push(bridge::write_entry("favicon_url", json::quote(t.favicon_url.as_str()).as_str()));
    parts.push(bridge::write_entry("active", json::write_bool(t.active)));
    assert(text::texts(parts@) =~= seq![
        bridge::entry("id"@, json::quoted(t@.id)),
        bridge::entry("title"@, json::quoted(t@.title)),
        bridge::entry("url"@, json::quoted(t@.url)),
        bridge::entry("favicon_url"@, json::quoted(t@.favicon_url)),
        bridge::entry("active"@, json::bool_text(t@.active)),
    ]);
    bridge::write_object(&parts)
}

/// Tabs as a JSON array.
pub fn write_tabs(tabs: &Vec<BrowserTab>) -> (r: String)
    ensures
        r@ == tabs_json(tabs_view(tabs@)),
{
    let ghost all = tabs_view(tabs@).map_values(|t: TabView| tab_json(t));
    let mut parts: Vec<String> = Vec::new();
    let mut i: usize = 0;
    assert(text::texts(parts@) =~= all.take(0));
    while i < tabs.len()
        invariant
            0 <= i <= tabs@.len(),
            all == tabs_view(tabs@).map_values(|t: TabView| tab_json(t)),
            text::texts(parts@) == all.take(i as int),
        decreases tabs@.len() - i,
    {
        let ghost before = text::texts(parts@);
        let one = write_tab(&tabs[i]);
        assert(one@ == all[i as int]);
        parts.push(one);
        assert(text::texts(parts@) =~= before.push(one@));
        i += 1;
        assert(all.take(i as int) =~= all.take(i - 1).push(all[i - 1]));
    }
    assert(all.take(i as int) =~= all);
    text::concat3("[", bridge::join_with(&parts, ",").as_str(), "]")
}

/// What is known of the browser's tabs.
#[derive(Debug)]
pub struct BrowserTabsState {
    pub available: bool,
    pub tabs_json: String,
    pub count: usize,
    pub active_index: Option<usize>,
}

/// What is known of the browser's tabs, its texts taken as sequences.
pub struct TabsView {
    pub available: bool,
    pub tabs_json: Seq<char>,
    pub count: usize,
    pub active_index: Option<usize>,
}

impl View for BrowserTabsState {
    type V = TabsView;

    open spec fn view(&self) -> TabsView {
        TabsView {
            available: self.available,
            tabs_json: self.tabs_json@,
            count: self.count,
            active_index: self.active_index,
        }
    }
}

/// No tabs, for want of a browser.
pub open spec fn no_tabs() -> TabsView {
    TabsView { available: false, tabs_json: "[]"@, count: 0, active_index: None }
}

/// What is known of the browser that has these tabs.
pub open spec fn state_of(tabs: Seq<TabView>) -> TabsView {
    TabsView {
        available: true,
        tabs_json: tabs_json(tabs),
        count: tabs.len() as usize,
        active_index: match first_active(tabs, 0) {
            Some(i) => Some(i as usize),
            None => None,
        },
    }
}

impl BrowserTabsState {
    /// No tabs, for want of a browser.
    pub fn unavailable() -> (r: BrowserTabsState)
        ensures
            r@ == no_tabs(),
    {
        BrowserTabsState {
            available: false,
            tabs_json: "[]".to_string(),
            count: 0,
            active_index: None,
        }
    }

    /// What is known of the browser that has these tabs.
    pub fn from_tabs(tabs: &Vec<BrowserTab>) -> (r: BrowserTabsState)
        ensures
            r@ == state_of(tabs_view(tabs@)),
    {
        BrowserTabsState {
            available: true,
            tabs_json: write_tabs(tabs),
            count: tabs.len(),
            active_index: find_active(tabs),
        }
    }

    /// A copy of the state.
    pub fn copy(&self) -> (r: BrowserTabsState)
        ensures
            r@ == self@,
    {
        BrowserTabsState {
            available: self.available,
            tabs_json: self.tabs_json.clone(),
            count: self.count,
            active_index: self.active_index,
        }
    }
}

/// The first active tab.
fn find_active(tabs: &Vec<BrowserTab>) -> (r: Option<usize>)
    ensures
        match r {
            Some(i) => i < tabs@.len() && first_active(tabs_view(tabs@), 0) == Some(i as int),
            None => first_active(tabs_view(tabs@), 0) is None,
        },
{
    let ghost all = tabs_view(tabs@);
    let mut i: usize = 0;
    while i < tabs.len()
        invariant
            0 <= i <= tabs@.len(),
            all == tabs_view(tabs@),
            first_active(all, 0) == first_active(all, i as int),
        decreases tabs@.len() - i,
    {
        assert(all[i as int] == tabs@[i as int]@);
        if tabs[i].active {
            return Some(i);
        }
        i += 1;
    }
    None
}

// ---------------------------------------------------------------------------
// Which browser, and which tab, is in front
// ---------------------------------------------------------------------------

/// The protocol that a browser speaks.
#[derive(Clone, Copy, Debug, PartialEq, Eq, Structural)]
pub enum BrowserKind {
    Cdp,
    Bidi,
}

/// The protocol of the browser whose windows have this class.
pub open spec fn kind_of(class: Seq<char>) -> Option<BrowserKind> {
    let c = text::lowercase(class);
    if scan::occurs(c, "chromium"@) || scan::occurs(c, "chrome"@) {
        Some(BrowserKind::Cdp)
    } else if c == "zen"@ || scan::occurs(c, "zen-browser"@) || scan::occurs(c, "zen-alpha"@)
        || scan::occurs(c, "firefox"@) {
        Some(BrowserKind::Bidi)
    } else {
        None
    }
}

impl BrowserKind {
    /// The protocol of the browser whose windows have this class.
    pub fn from_window_class(class: &str) -> (r: Option<BrowserKind>)
        ensures
            r == kind_of(class@),
    {
        let lower = text::to_lowercase(class);
        let c = lower.as_str();
        if scan::contains(c, "chromium") || scan::contains(c, "chrome") {
            Some(BrowserKind::Cdp)
        } else if text::same(c, "zen") || scan::contains(c, "zen-browser") || scan::contains(
            c,
            "zen-alpha",
        ) || scan::contains(c, "firefox") {
            Some(BrowserKind::Bidi)
        } else {
            None
        }
    }

    /// The name of the protocol.
    pub fn protocol_name(self) -> (r: &'static str)
        ensures
            r@ == match self {
                BrowserKind::Cdp => "CDP"@,
                BrowserKind::Bidi => "WebDriver BiDi"@,
            },
    {
        match self {
            BrowserKind::Cdp => "CDP",
            BrowserKind::Bidi => "WebDriver BiDi",
        }
    }
}

/// Whether a tab is probably the one in a window with the given title: one title contains
/// the other.
pub open spec fn in_front(tab: Seq<char>, focused: Seq<char>) -> bool {
    let a = scan::trimmed(tab);
    let b = scan::trimmed(focused);
    a.len() > 0 && b.len() > 0 && (scan::occurs(b, a) || scan::occurs(a, b))
}

/// Whether a tab is probably the one in a window with the given title.
pub fn titles_probably_match(tab_title: &str, focused_title: &str) -> (r: bool)
    ensures
        r == in_front(tab_title@, focused_title@),
{
    let a = scan::trim(tab_title);
    let b = scan::trim(focused_title);
    if text::is_empty(a.as_str()) || text::is_empty(b.as_str()) {
        return false;
    }
    scan::contains(b.as_str(), a.as_str()) || scan::contains(a.as_str(), b.as_str())
}

/// The tabs, where a single one is in front in any case.
pub open spec fn with_only_tab_active(tabs: Seq<TabView>) -> Seq<TabView> {
    if tabs.len() == 1 {
        seq![TabView { active: true, ..tabs[0] }]
    } else {
        tabs
    }
}

/// Marks a single tab as the one in front.
pub fn mark_only_tab_active(tabs: &mut Vec<BrowserTab>)
    ensures
        tabs_view(final(tabs)@) == with_only_tab_active(tabs_view(old(tabs)@)),
{
    if tabs.len() == 1 {
        if !tabs[0].active {
            tabs[0].active = true;
        }
        assert(tabs_view(tabs@) =~= with_only_tab_active(tabs_view(old(tabs)@)));
    }
}

// ---------------------------------------------------------------------------
// The order of the tabs
// ---------------------------------------------------------------------------

/// The identifiers of tabs.
pub open spec fn ids(tabs: Seq<TabView>) -> Seq<Seq<char>> {
    tabs.map_values(|t: TabView| t.id)
}

/// The first `n` of the remembered identifiers that are still those of tabs.
pub open spec fn retained(order: Seq<Seq<char>>, live: Seq<Seq<char>>, n: int) -> Seq<Seq<char>>
    decreases n,
{
    if n <= 0 {
        Seq::empty()
    } else if live.contains(order[n - 1]) {
        retained(order, live, n - 1).push(order[n - 1])
    } else {
        retained(order, live, n - 1)
    }
}

/// An order with the first `n` of `live` behind it, those that it does not hold.
pub open spec fn extended(order: Seq<Seq<char>>, live: Seq<Seq<char>>, n: int) -> Seq<Seq<char>>
    decreases n,
{
    if n <= 0 {
        order
    } else {
        let before = extended(order, live, n - 1);
        if before.contains(live[n - 1]) {
            before
        } else {
            before.push(live[n - 1])
        }
    }
}

/// The order of tabs: those that were there stay where they were, those that are gone are
/// left out, and new ones come last, in the order in which the browser gives them.
pub open spec fn next_order(order: Seq<Seq<char>>, live: Seq<Seq<char>>) -> Seq<Seq<char>> {
    extended(retained(order, live, order.len() as int), live, live.len() as int)
}

/// Where the last tab with the given identifier stands, among the first `n`.
pub open spec fn last_with_id(tabs: Seq<TabView>, id: Seq<char>, n: int) -> int
    decreases n,
{
    if n <= 0 {
        0
    } else if tabs[n - 1].id == id {
        n - 1
    } else {
        last_with_id(tabs, id, n - 1)
    }
}

/// The tabs in the given order.
pub open spec fn ordered(tabs: Seq<TabView>, order: Seq<Seq<char>>) -> Seq<TabView> {
    order.map_values(|id: Seq<char>| tabs[last_with_id(tabs, id, tabs.len() as int)])
}

/// The identifiers of tabs, in the order in which they are shown.
#[derive(Debug)]
pub struct TabOrder {
    pub known: Vec<String>,
}

/// The last tab with a given identifier.
pub proof fn lemma_last_with_id(tabs: Seq<TabView>, id: Seq<char>, n: int)
    requires
        0 <= n <= tabs.len(),
        exists|i: int| 0 <= i < n && (#[trigger] tabs[i]).id == id,
    ensures
        0 <= last_with_id(tabs, id, n) < n,
        tabs[last_with_id(tabs, id, n)].id == id,
        forall|i: int|
            last_with_id(tabs, id, n) < i < n ==> (#[trigger] tabs[i]).id != id,
    decreases n,
{
    if tabs[n - 1].id != id {
        let i = choose|i: int| 0 <= i < n && (#[trigger] tabs[i]).id == id;
        assert(i < n - 1);
        lemma_last_with_id(tabs, id, n - 1);
    }
}

/// The place of the last tab with a given identifier.
fn find_last(tabs: &Vec<BrowserTab>, id: &str) -> (r: usize)
    requires
        ids(tabs_view(tabs@)).contains(id@),
    ensures
        r == last_with_id(tabs_view(tabs@), id@, tabs@.len() as int),
        r < tabs@.len(),
{
    let ghost all = tabs_view(tabs@);
    let mut i: usize = tabs.len();
    proof {
        let k = choose|k: int| 0 <= k < ids(all).len() && ids(all)[k] == id@;
        assert(all[k].id == id@);
        lemma_last_with_id(all, id@, all.len() as int);
    }
    while i > 0
        invariant
            0 <= i <= tabs@.len(),
            all == tabs_view(tabs@),
            last_with_id(all, id@, all.len() as int) == last_with_id(all, id@, i as int),
            last_with_id(all, id@, all.len() as int) < all.len(),
            all[last_with_id(all, id@, all.len() as int)].id == id@,
            0 <= last_with_id(all, id@, all.len() as int),
            forall|j: int| i <= j < all.len() ==> (#[trigger] all[j]).id != id@,
        decreases i,
    {
        assert(all[i - 1] == tabs@[i - 1]@);
        if text::same(tabs[i - 1].id.as_str(), id) {
            return i - 1;
        }
        i -= 1;
    }
    assert(false);
    0
}

/// The identifiers of tabs.
fn collect_ids(tabs: &Vec<BrowserTab>) -> (r: Vec<String>)
    ensures
        text::texts(r@) == ids(tabs_view(tabs@)),
{
    let ghost all = ids(tabs_view(tabs@));
    let mut out: Vec<String> = Vec::new();
    let mut i: usize = 0;
    assert(text::texts(out@) =~= all.take(0));
    while i < tabs.len()
        invariant
            0 <= i <= tabs@.len(),
            all == ids(tabs_view(tabs@)),
            text::texts(out@) == all.take(i as int),
        decreases tabs@.len() - i,
    {
        let ghost before = text::texts(out@);
        let id = tabs[i].id.clone();
        assert(id@ == all[i as int]);
        out.push(id);
        assert(text::texts(out@) =~= before.push(id@));
        i += 1;
        assert(all.take(i as int) =~= all.take(i - 1).push(all[i - 1]));
    }
    assert(all.take(i as int) =~= all);
    out
}

/// Every identifier in the order is one of a tab, and none occurs twice.
pub proof fn law_order_is_of_live_tabs(order: Seq<Seq<char>>, live: Seq<Seq<char>>)
    requires
        order.no_duplicates(),
    ensures
        next_order(order, live).no_duplicates(),
        forall|id: Seq<char>|
            #![trigger next_order(order, live).contains(id)]
            next_order(order, live).contains(id) <==> live.contains(id),
{
    lemma_retained(order, live, order.len() as int);
    let kept = retained(order, live, order.len() as int);
    lemma_extended(kept, live, live.len() as int);
    let all = next_order(order, live);
    assert forall|id: Seq<char>|
        #![trigger next_order(order, live).contains(id)]
        live.contains(id) implies all.contains(id) by {
        let k = choose|k: int| 0 <= k < live.len() && live[k] == id;
        assert(all.contains(live[k]));
    }
}

proof fn lemma_retained(order: Seq<Seq<char>>, live: Seq<Seq<char>>, n: int)
    requires
        order.no_duplicates(),
        0 <= n <= order.len(),
    ensures
        retained(order, live, n).no_duplicates(),
        forall|i: int|
            0 <= i < retained(order, live, n).len() ==> live.contains(
                #[trigger] retained(order, live, n)[i],
            ) && order.take(n).contains(retained(order, live, n)[i]),
    decreases n,
{
    if n > 0 {
        lemma_retained(order, live, n - 1);
        let before = retained(order, live, n - 1);
        let now = retained(order, live, n);
        let prior = order.take(n - 1);
        assert(order.take(n)[n - 1] == order[n - 1]);
        assert forall|i: int| 0 <= i < now.len() implies live.contains(#[trigger] now[i])
            && order.take(n).contains(now[i]) by {
            if i < before.len() {
                assert(now[i] == before[i]);
                let k = choose|k: int| 0 <= k < prior.len() && prior[k] == before[i];
                assert(order.take(n)[k] == before[i]);
            }
        }
        assert forall|i: int, j: int| 0 <= i < now.len() && 0 <= j < now.len() && i != j implies
            now[i] != now[j] by {
            if i < before.len() && j < before.len() {
                assert(before[i] != before[j]);
            } else {
                let o = if i < before.len() {
                    i
                } else {
                    j
                };
                let k = choose|k: int| 0 <= k < prior.len() && prior[k] == before[o];
                assert(order[k] == before[o]);
                assert(order[k] != order[n - 1]);
            }
        }
    }
}

proof fn lemma_extended(kept: Seq<Seq<char>>, live: Seq<Seq<char>>, n: int)
    requires
        kept.no_duplicates(),
        0 <= n <= live.len(),
        forall|i: int| 0 <= i < kept.len() ==> live.contains(#[trigger] kept[i]),
    ensures
        extended(kept, live, n).no_duplicates(),
        kept.is_prefix_of(extended(kept, live, n)),
        forall|i: int|
            0 <= i < extended(kept, live, n).len() ==> live.contains(
                #[trigger] extended(kept, live, n)[i],
            ),
        forall|k: int| 0 <= k < n ==> extended(kept, live, n).contains(#[trigger] live[k]),
    decreases n,
{
    if n > 0 {
        lemma_extended(kept, live, n - 1);
        let before = extended(kept, live, n - 1);
        let now = extended(kept, live, n);
        assert(live.contains(live[n - 1]));
        if !before.contains(live[n - 1]) {
            assert(now[before.len() as int] == live[n - 1]);
            assert forall|k: int| 0 <= k < n implies now.contains(#[trigger] live[k]) by {
                if k < n - 1 {
                    let i = choose|i: int| 0 <= i < before.len() && before[i] == live[k];
                    assert(now[i] == live[k]);
                }
            }
            assert forall|i: int, j: int|
                0 <= i < now.len() && 0 <= j < now.len() && i != j implies now[i] != now[j] by {
                if i < before.len() && j < before.len() {
                    assert(before[i] != before[j]);
                } else {
                    let o = if i < before.len() {
                        i
                    } else {
                        j
                    };
                    assert(before.contains(before[o]));
                }
            }
        }
    }
}

impl TabOrder {
    /// The identifiers.
    pub open spec fn seen(self) -> Seq<Seq<char>> {
        text::texts(self.known@)
    }

    /// No identifier occurs twice.
    pub open spec fn wf(self) -> bool {
        self.seen().no_duplicates()
    }

    /// No tabs.
    pub fn new() -> (r: TabOrder)
        ensures
            r.wf(),
            r.seen() == Seq::<Seq<char>>::empty(),
    {
        let r = TabOrder { known: Vec::new() };
        assert(r.seen() =~= Seq::<Seq<char>>::empty());
        r
    }

    /// Puts tabs in order: those that were there stay where they were, those that are gone
    /// are forgotten, and new ones come last.
    pub fn stable_order(&mut self, tabs: Vec<BrowserTab>) -> (r: Vec<BrowserTab>)
        requires
            old(self).wf(),
        ensures
            final(self).wf(),
            final(self).seen() == next_order(old(self).seen(), ids(tabs_view(tabs@))),
            tabs_view(r@) == ordered(tabs_view(tabs@), final(self).seen()),
    {
        let live = collect_ids(&tabs);
        let ghost all = ids(tabs_view(tabs@));
        let ghost order = self.seen();
        let mut next: Vec<String> = Vec::new();
        let mut i: usize = 0;
        assert(text::texts(next@) =~= Seq::<Seq<char>>::empty());
        while i < self.known.len()
            invariant
                0 <= i <= self.known@.len(),
                text::texts(live@) == all,
                order == self.seen(),
                text::texts(next@) == retained(order, all, i as int),
            decreases self.known@.len() - i,
        {
            assert(order[i as int] == self.known@[i as int]@);
            if text::holds_text(&live, self.known[i].as_str()) {
                let ghost before = text::texts(next@);
                let id = self.known[i].clone();
                next.push(id);
                assert(text::texts(next@) =~= before.push(id@));
            }
            i += 1;
        }
        let ghost kept = text::texts(next@);
        let mut j: usize = 0;
        while j < live.len()
            invariant
                0 <= j <= live@.len(),
                text::texts(live@) == all,
                text::texts(next@) == extended(kept, all, j as int),
            decreases live@.len() - j,
        {
            assert(all[j as int] == live@[j as int]@);
            if !text::holds_text(&next, live[j].as_str()) {
                let ghost before = text::texts(next@);
                let id = live[j].clone();
                next.push(id);
                assert(text::texts(next@) =~= before.push(id@));
            }
            j += 1;
        }
        let ghost after = text::texts(next@);
        proof {
            law_order_is_of_live_tabs(order, all);
        }
        let mut out: Vec<BrowserTab> = Vec::new();
        let ghost want = ordered(tabs_view(tabs@), after);
        let mut k: usize = 0;
        assert(tabs_view(out@) =~= want.take(0));
        while k < next.len()
            invariant
                0 <= k <= next@.len(),
                after == text::texts(next@),
                all == ids(tabs_view(tabs@)),
                forall|id: Seq<char>| #[trigger] after.contains(id) <==> all.contains(id),
                want == ordered(tabs_view(tabs@), after),
                tabs_view(out@) == want.take(k as int),
            decreases next@.len() - k,
        {
            assert(after[k as int] == next@[k as int]@);
            assert(after.contains(after[k as int]));
            let at = find_last(&tabs, next[k].as_str());
            let ghost before = tabs_view(out@);
            let tab = BrowserTab {
                id: tabs[at].id.clone(),
                title: tabs[at].title.clone(),
                url: tabs[at].url.clone(),
                favicon_url: tabs[at].favicon_url.clone(),
                active: tabs[at].active,
            };
            assert(tab@ == tabs_view(tabs@)[at as int]);
            assert(want[k as int] == tab@);
            out.push(tab);
            assert(tabs_view(out@) =~= before.push(tab@));
            k += 1;
            assert(want.take(k as int) =~= want.take(k - 1).push(want[k - 1]));
        }
        assert(want.take(k as int) =~= want);
        self.known = next;
        out
    }
}

/// A tab that stays open keeps its place among those that were there: the tabs that were
/// there come first, in the order they had.
pub proof fn law_known_tabs_keep_their_order(order: Seq<Seq<char>>, live: Seq<Seq<char>>)
    requires
        order.no_duplicates(),
    ensures
        retained(order, live, order.len() as int).is_prefix_of(next_order(order, live)),
        (forall|i: int| 0 <= i < order.len() ==> live.contains(#[trigger] order[i]))
            ==> order.is_prefix_of(next_order(order, live)),
{
    lemma_retained(order, live, order.len() as int);
    let kept = retained(order, live, order.len() as int);
    lemma_extended(kept, live, live.len() as int);
    if forall|i: int| 0 <= i < order.len() ==> live.contains(#[trigger] order[i]) {
        lemma_all_retained(order, live, order.len() as int);
        assert(order.take(order.len() as int) =~= order);
    }
}

proof fn lemma_all_retained(order: Seq<Seq<char>>, live: Seq<Seq<char>>, n: int)
    requires
        0 <= n <= order.len(),
        forall|i: int| 0 <= i < order.len() ==> live.contains(#[trigger] order[i]),
    ensures
        retained(order, live, n) == order.take(n),
    decreases n,
{
    if n > 0 {
        lemma_all_retained(order, live, n - 1);
        assert(order.take(n) =~= order.take(n - 1).push(order[n - 1]));
    } else {
        assert(order.take(0) =~= Seq::<Seq<char>>::empty());
    }
}

// ---------------------------------------------------------------------------
// Chromium's protocol
// ---------------------------------------------------------------------------

/// A target, as Chromium lists it.
#[derive(Debug)]
pub struct DevToolsTarget {
    pub id: String,
    pub title: Option<String>,
    pub url: Option<String>,
    pub favicon_url: Option<String>,
    pub target_type: String,
}

/// The tab that a target is, where it is a page.
pub open spec fn tab_of(t: DevToolsTarget, focused: Seq<char>) -> TabView {
    let title = html::decoded(text::text_or_empty(t.title));
    TabView {
        id: t.id@,
        title,
        url: text::text_or_empty(t.url),
        favicon_url: text::text_or_empty(t.favicon_url),
        active: in_front(title, focused),
    }
}

/// The tabs among the first `n` targets.
pub open spec fn tabs_of(targets: Seq<DevToolsTarget>, focused: Seq<char>, n: int) -> Seq<TabView>
    decreases n,
{
    if n <= 0 {
        Seq::empty()
    } else if targets[n - 1].target_type@ == "page"@ {
        tabs_of(targets, focused, n - 1).push(tab_of(targets[n - 1], focused))
    } else {
        tabs_of(targets, focused, n - 1)
    }
}

/// The tabs among targets: the pages, with their titles decoded.
pub fn tabs_of_targets(targets: Vec<DevToolsTarget>, focused_title: &str) -> (r: Vec<BrowserTab>)
    ensures
        tabs_view(r@) == tabs_of(targets@, focused_title@, targets@.len() as int),
{
    let mut out: Vec<BrowserTab> = Vec::new();
    assert(tabs_view(out@) =~= Seq::<TabView>::empty());
    for t in it: targets
        invariant
            it.seq() == targets@,
            tabs_view(out@) == tabs_of(targets@, focused_title@, it.index() as int),
    {
        let ghost n = it.index() as int;
        assert(t == targets@[n]);
        if text::same(t.target_type.as_str(), "page") {
            let ghost before = tabs_view(out@);
            let title = html::decode_html_entities(text::or_empty(t.title).as_str());
            let active = titles_probably_match(title.as_str(), focused_title);
            let tab = BrowserTab {
                id: t.id,
                title,
                url: text::or_empty(t.url),
                favicon_url: text::or_empty(t.favicon_url),
                active,
            };
            out.push(tab);
            assert(tab@ == tab_of(targets@[n], focused_title@));
            assert(tabs_view(out@) =~= before.push(tab@));
        }
    }
    out
}

/// Whether the tabs are to be asked for again.
pub open spec fn due(last: Option<u64>, now: u64, force: bool) -> bool {
    force || last is None || now - last->0 >= POLL_INTERVAL_NS
}

/// Whether the tabs are to be asked for again.
pub fn refresh_due(last: Option<u64>, now: u64, force: bool) -> (r: bool)
    ensures
        r == due(last, now, force),
{
    if force {
        return true;
    }
    match last {
        Some(t) => now.saturating_sub(t) >= POLL_INTERVAL_NS,
        None => true,
    }
}

/// `s` without the slashes at its end.
pub open spec fn without_slashes(s: Seq<char>) -> Seq<char> {
    scan::without_suffixes(s, "/"@)
}

/// A browser that speaks Chromium's protocol.
#[derive(Debug)]
pub struct CdpBackend {
    pub endpoint: String,
    pub last_refresh: Option<u64>,
    pub cached: BrowserTabsState,
    pub order: TabOrder,
}

/// What is to be shown after tabs were asked for, and in which order, where `tabs` were
/// given.
pub open spec fn shown_tabs(order: Seq<Seq<char>>, tabs: Seq<TabView>) -> (
    Seq<Seq<char>>,
    Seq<TabView>,
) {
    let next = next_order(order, ids(tabs));
    (next, with_only_tab_active(ordered(tabs, next)))
}

/// Whether a browser is as it is after it answered, and `r` is what is then shown: the tabs
/// among its targets, or nothing where it failed.
pub open spec fn cdp_answered(
    before: CdpBackend,
    targets: Option<Seq<DevToolsTarget>>,
    focused_title: Seq<char>,
    after: CdpBackend,
    r: Option<BrowserTabsState>,
) -> bool {
    &&& after.endpoint == before.endpoint
    &&& after.last_refresh == before.last_refresh
    &&& match targets {
        Some(t) => {
            let tabs = tabs_of(t, focused_title, t.len() as int);
            let (next, shown) = shown_tabs(before.order.seen(), tabs);
            &&& after.order.seen() == next
            &&& after.cached@ == state_of(shown)
            &&& r matches Some(s) && s@ == state_of(shown)
        },
        None => {
            &&& after.order == before.order
            &&& after.cached@ == no_tabs()
            &&& r is None
        },
    }
}

impl CdpBackend {
    /// A browser that has not been asked, at the given address or at the usual one.
    pub fn new(endpoint: Option<String>) -> (r: CdpBackend)
        ensures
            r.order.wf(),
            r.order.seen() == Seq::<Seq<char>>::empty(),
            r.endpoint@ == match endpoint {
                Some(e) => e@,
                None => CDP_DEFAULT_ENDPOINT@,
            },
            r.last_refresh is None,
            r.cached@ == no_tabs(),
    {
        CdpBackend {
            endpoint: match endpoint {
                Some(e) => e,
                None => CDP_DEFAULT_ENDPOINT.to_string(),
            },
            last_refresh: None,
            cached: BrowserTabsState::unavailable(),
            order: TabOrder::new(),
        }
    }

    /// The address of the list of targets.
    pub fn list_url(&self) -> (r: String)
        ensures
            r@ == without_slashes(self.endpoint@) + "/json/list"@,
    {
        text::concat(
            scan::trim_end_matches(self.endpoint.as_str(), "/").as_str(),
            "/json/list",
        )
    }

    /// The address that brings a tab to the front.
    pub fn activate_url(&self, id: &str) -> (r: String)
        ensures
            r@ == without_slashes(self.endpoint@) + "/json/activate/"@ + id@,
    {
        text::concat3(
            scan::trim_end_matches(self.endpoint.as_str(), "/").as_str(),
            "/json/activate/",
            id,
        )
    }

    /// The tabs that were last given, where the browser is not to be asked again yet;
    /// otherwise the time of asking is noted.
    pub fn begin_refresh(&mut self, now: u64, force: bool) -> (r: Option<BrowserTabsState>)
        requires
            old(self).order.wf(),
        ensures
            final(self).order == old(self).order,
            final(self).endpoint == old(self).endpoint,
            final(self).cached == old(self).cached,
            if due(old(self).last_refresh, now, force) {
                r is None && final(self).last_refresh == Some(now)
            } else {
                r matches Some(s) && s@ == old(self).cached@ && final(self).last_refresh
                    == old(self).last_refresh
            },
    {
        if !refresh_due(self.last_refresh, now, force) {
            return Some(self.cached.copy());
        }
        self.last_refresh = Some(now);
        None
    }

    /// Takes note of what the browser answered: its targets, or nothing where it failed.
    pub fn finish_refresh(&mut self, targets: Option<Vec<DevToolsTarget>>, focused_title: &str) -> (r:
        Option<BrowserTabsState>)
        requires
            old(self).order.wf(),
        ensures
            final(self).order.wf(),
            cdp_answered(*old(self), opt_found(targets), focused_title@, *final(self), r),
    {
        match targets {
            Some(t) => {
                let tabs = tabs_of_targets(t, focused_title);
                let mut shown = self.order.stable_order(tabs);
                mark_only_tab_active(&mut shown);
                let state = BrowserTabsState::from_tabs(&shown);
                self.cached = state.copy();
                Some(state)
            },
            None => {
                self.cached = BrowserTabsState::unavailable();
                None
            },
        }
    }
}

// ---------------------------------------------------------------------------
// WebDriver BiDi
// ---------------------------------------------------------------------------

/// What went wrong with a BiDi browser.
#[derive(Debug)]
pub enum BidiError {
    /// The message is no JSON.
    Malformed,
    /// The answer says that the command failed.
    Failed { code: String, message: String },
    /// The answer has no result.
    NoResult,
    /// A new session has no name.
    NoSession,
    /// The list of tabs is missing.
    NoContexts,
    /// A tab has no name.
    NoContextId,
    /// A script failed.
    ScriptFailed,
    /// A script gave no text.
    NotText,
}

/// A BiDi browser, but for its socket.
#[derive(Debug)]
pub struct BidiBackend {
    pub endpoint: String,
    pub connected: bool,
    pub session_id: Option<String>,
    pub next_id: u64,
    pub last_refresh: Option<u64>,
    pub retry_after: Option<u64>,
    pub cached: BrowserTabsState,
    pub order: TabOrder,
    pub active_context: Option<String>,
}

/// What is to be done to be connected.
#[derive(Debug)]
pub enum ConnectPlan {
    /// Nothing.
    Ready,
    /// To connect to the session that there was.
    Reattach(String),
    /// To connect and to start a session.
    NewSession(String),
}

/// What a BiDi message is.
#[derive(Debug)]
pub enum BidiReply {
    /// Not the answer that is waited for.
    Ignore,
    /// The answer.
    Answer,
    /// The answer, and it is that the command failed.
    Failed(BidiError),
}

/// A BiDi command.
pub open spec fn command_text(id: u64, method: Seq<char>, params: Seq<char>) -> Seq<char> {
    bridge::object(
        seq![
            bridge::entry("id"@, text::decimal(id as nat)),
            bridge::entry("method"@, json::quoted(method)),
            bridge::entry("params"@, params),
        ],
    )
}

/// A BiDi command.
pub fn write_command(id: u64, method: &str, params: &str) -> (r: String)
    ensures
        r@ == command_text(id, method@, params@),
{
    let mut parts: Vec<String> = Vec::new();
    parts.push(bridge::write_entry("id", text::to_decimal(id).as_str()));
    parts.push(bridge::write_entry("method", json::quote(method).as_str()));
    parts.push(bridge::write_entry("params", params));
    assert(text::texts(parts@) =~= seq![
        bridge::entry("id"@, text::decimal(id as nat)),
        bridge::entry("method"@, json::quoted(method@)),
        bridge::entry("params"@, params@),
    ]);
    bridge::write_object(&parts)
}

/// The parameters that name a tab.
pub open spec fn context_params(context: Seq<char>) -> Seq<char> {
    bridge::object(seq![bridge::entry("context"@, json::quoted(context))])
}

/// The parameters that name a tab.
pub fn write_context_params(context: &str) -> (r: String)
    ensures
        r@ == context_params(context@),
{
    let mut parts: Vec<String> = Vec::new();
    parts.push(bridge::write_entry("context", json::quote(context).as_str()));
    assert(text::texts(parts@) =~= seq![bridge::entry("context"@, json::quoted(context@))]);
    bridge::write_object(&parts)
}

/// The parameters that have a script evaluated in a tab.
pub fn write_evaluate_params(context: &str, expression: &str) -> (r: String)
    ensures
        r@ == bridge::object(
            seq![
                bridge::entry("awaitPromise"@, json::bool_text(false)),
                bridge::entry("expression"@, json::quoted(expression@)),
                bridge::entry("target"@, context_params(context@)),
            ],
        ),
{
    let mut parts: Vec<String> = Vec::new();
    parts.push(bridge::write_entry("awaitPromise", json::write_bool(false)));
    parts.push(bridge::write_entry("expression", json::quote(expression).as_str()));
    parts.push(bridge::write_entry("target", write_context_params(context).as_str()));
    assert(text::texts(parts@) =~= seq![
        bridge::entry("awaitPromise"@, json::bool_text(false)),
        bridge::entry("expression"@, json::quoted(expression@)),
        bridge::entry("target"@, context_params(context@)),
    ]);
    bridge::write_object(&parts)
}

/// Whether `r` is what a message is in which this stands, while the answer to command `wanted`
/// is waited for.
pub open spec fn reply_is(
    valid: bool,
    wanted: u64,
    id: Option<u64>,
    kind: Option<Seq<char>>,
    error: Option<Seq<char>>,
    message: Option<Seq<char>>,
    has_result: bool,
    r: BidiReply,
) -> bool {
    if !valid {
        r matches BidiReply::Failed(e) && e is Malformed
    } else if id != Some(wanted) {
        r is Ignore
    } else if kind == Some("error"@) {
        r matches BidiReply::Failed(BidiError::Failed { code, message: m }) && code@
            == error.unwrap_or("unknown error"@) && m@ == message.unwrap_or(Seq::empty())
    } else if has_result {
        r is Answer
    } else {
        r matches BidiReply::Failed(e) && e is NoResult
    }
}

/// What a message is, from what stands in it.
pub fn classify_reply(
    valid: bool,
    wanted: u64,
    id: Option<u64>,
    kind: Option<String>,
    error: Option<String>,
    message: Option<String>,
    has_result: bool,
) -> (r: BidiReply)
    ensures
        reply_is(
            valid,
            wanted,
            id,
            text::opt_text(kind),
            text::opt_text(error),
            text::opt_text(message),
            has_result,
            r,
        ),
{
    if !valid {
        return BidiReply::Failed(BidiError::Malformed);
    }
    let ours = match id {
        Some(i) => i == wanted,
        None => false,
    };
    if !ours {
        return BidiReply::Ignore;
    }
    if text::is_text(&kind, "error") {
        let code = match error {
            Some(e) => e,
            None => "unknown error".to_string(),
        };
        return BidiReply::Failed(BidiError::Failed { code, message: text::or_empty(message) });
    }
    if has_result {
        BidiReply::Answer
    } else {
        BidiReply::Failed(BidiError::NoResult)
    }
}

/// What a message is that comes in while the answer to command `wanted` is waited for.
pub fn read_reply(document: &Vec<u8>, wanted: u64) -> (r: BidiReply)
    ensures
        reply_is(
            json::is_document(document@),
            wanted,
            json::integer_at(document@, "/id"@),
            json::text_at(document@, "/type"@),
            json::text_at(document@, "/error"@),
            json::text_at(document@, "/message"@),
            json::present_at(document@, "/result"@),
            r,
        ),
{
    classify_reply(
        json::can_read(document),
        wanted,
        json::read_integer(document, "/id"),
        json::read_text(document, "/type"),
        json::read_text(document, "/error"),
        json::read_text(document, "/message"),
        json::is_present(document, "/result"),
    )
}

/// The text that a script gave, from what stands in its outcome.
pub fn script_text(kind: Option<String>, value: Option<String>) -> (r: Result<String, BidiError>)
    ensures
        if text::opt_text(kind) != Some("success"@) {
            r matches Err(e) && e is ScriptFailed
        } else {
            match value {
                Some(v) => r matches Ok(t) && t@ == v@,
                None => r matches Err(e) && e is NotText,
            }
        },
{
    if !text::is_text(&kind, "success") {
        return Err(BidiError::ScriptFailed);
    }
    match value {
        Some(v) => Ok(v),
        None => Err(BidiError::NotText),
    }
}

/// The text that a script gave, where its outcome stands at a pointer.
pub fn parse_bidi_string_result(document: &Vec<u8>, at: &str) -> (r: Result<String, BidiError>)
    ensures
        if json::text_at(document@, at@ + "/type"@) != Some("success"@) {
            r matches Err(e) && e is ScriptFailed
        } else {
            match json::text_at(document@, at@ + "/result/value"@) {
                Some(v) => r matches Ok(t) && t@ == v,
                None => r matches Err(e) && e is NotText,
            }
        },
{
    script_text(
        json::read_text(document, text::concat(at, "/type").as_str()),
        json::read_text(document, text::concat(at, "/result/value").as_str()),
    )
}

/// A tab of a BiDi browser: its name and its address.
#[derive(Debug)]
pub struct ContextRow {
    pub id: String,
    pub url: String,
}

/// A tab of a BiDi browser, its texts taken as sequences.
pub struct RowView {
    pub id: Seq<char>,
    pub url: Seq<char>,
}

/// What a list of tabs of a BiDi browser holds.
pub open spec fn rows_view(v: Seq<ContextRow>) -> Seq<RowView> {
    v.map_values(|r: ContextRow| RowView { id: r.id@, url: r.url@ })
}

/// The first `n` tabs in an answer, unless one has no name.
pub open spec fn rows_in(document: Seq<u8>, n: nat) -> Option<Seq<RowView>>
    decreases n,
{
    if n == 0 {
        Some(Seq::empty())
    } else {
        let i = (n - 1) as nat;
        match (
            rows_in(document, i),
            json::text_at(document, json::element("/result/contexts"@, i, "/context"@)),
        ) {
            (Some(rows), Some(id)) => Some(
                rows.push(
                    RowView {
                        id,
                        url: json::text_at(
                            document,
                            json::element("/result/contexts"@, i, "/url"@),
                        ).unwrap_or(Seq::empty()),
                    },
                ),
            ),
            _ => None,
        }
    }
}

/// What is wrong with the first tabs is wrong with all.
proof fn lemma_rows_stay_bad(document: Seq<u8>, a: nat, b: nat)
    requires
        a <= b,
        rows_in(document, a) is None,
    ensures
        rows_in(document, b) is None,
    decreases b,
{
    if a < b {
        lemma_rows_stay_bad(document, a, (b - 1) as nat);
    }
}

/// The tabs in an answer.
pub fn parse_contexts(document: &Vec<u8>) -> (r: Result<Vec<ContextRow>, BidiError>)
    ensures
        match json::length_at(document@, "/result/contexts"@) {
            None => r matches Err(e) && e is NoContexts,
            Some(n) => match rows_in(document@, n as nat) {
                Some(rows) => r matches Ok(v) && rows_view(v@) == rows,
                None => r matches Err(e) && e is NoContextId,
            },
        },
{
    let total = match json::read_length(document, "/result/contexts") {
        Some(n) => n,
        None => return Err(BidiError::NoContexts),
    };
    let mut out: Vec<ContextRow> = Vec::new();
    let mut i: usize = 0;
    assert(rows_view(out@) =~= Seq::<RowView>::empty());
    while i < total
        invariant
            i <= total,
            json::length_at(document@, "/result/contexts"@) == Some(total),
            rows_in(document@, i as nat) == Some(rows_view(out@)),
        decreases total - i,
    {
        let id = json::read_text(
            document,
            json::element_pointer("/result/contexts", i, "/context").as_str(),
        );
        let id = match id {
            Some(id) => id,
            None => {
                proof {
                    assert(rows_in(document@, (i + 1) as nat) is None);
                    lemma_rows_stay_bad(document@, (i + 1) as nat, total as nat);
                }
                return Err(BidiError::NoContextId);
            },
        };
        let url = text::or_empty(
            json::read_text(
                document,
                json::element_pointer("/result/contexts", i, "/url").as_str(),
            ),
        );
        let ghost before = rows_view(out@);
        out.push(ContextRow { id, url });
        assert(rows_view(out@) =~= before.push(RowView { id: id@, url: url@ }));
        i += 1;
    }
    Ok(out)
}

/// What a tab's page says of itself.
#[derive(Debug)]
pub struct TabMetadata {
    pub title: String,
    pub favicon_url: String,
}

/// The tab that a row is, where its page says this of itself.
pub open spec fn bidi_tab(row: RowView, meta: Option<TabMetadata>, focused: Seq<char>) -> TabView {
    let title = match meta {
        Some(m) => m.title@,
        None => Seq::empty(),
    };
    TabView {
        id: row.id,
        title,
        url: row.url,
        favicon_url: match meta {
            Some(m) => m.favicon_url@,
            None => Seq::empty(),
        },
        active: in_front(title, focused),
    }
}

/// A tab, and what its page says of itself where it says anything.
#[derive(Debug)]
pub struct BidiTab {
    pub row: ContextRow,
    pub metadata: Option<TabMetadata>,
}

/// The tabs of a BiDi browser.
pub open spec fn bidi_tabs(found: Seq<BidiTab>, focused: Seq<char>) -> Seq<TabView> {
    found.map_values(
        |t: BidiTab| bidi_tab(RowView { id: t.row.id@, url: t.row.url@ }, t.metadata, focused),
    )
}

/// The tabs of a BiDi browser.
pub fn tabs_of_contexts(found: Vec<BidiTab>, focused_title: &str) -> (r: Vec<BrowserTab>)
    ensures
        tabs_view(r@) == bidi_tabs(found@, focused_title@),
{
    let ghost all = bidi_tabs(found@, focused_title@);
    let mut out: Vec<BrowserTab> = Vec::new();
    assert(tabs_view(out@) =~= all.take(0));
    for t in it: found
        invariant
            it.seq() == found@,
            all == bidi_tabs(found@, focused_title@),
            tabs_view(out@) == all.take(it.index() as int),
    {
        let ghost n = it.index() as int;
        assert(t == found@[n]);
        let (title, favicon_url) = match t.metadata {
            Some(m) => (m.title, m.favicon_url),
            None => {
                let none = String::new();
                assert(none@ =~= Seq::<char>::empty());
                (none.clone(), none)
            },
        };
        let active = titles_probably_match(title.as_str(), focused_title);
        let tab = BrowserTab { id: t.row.id, title, url: t.row.url, favicon_url, active };
        assert(tab@ == all[n]);
        let ghost before = tabs_view(out@);
        out.push(tab);
        assert(tabs_view(out@) =~= before.push(tab@));
        assert(all.take(n + 1) =~= all.take(n).push(all[n]));
    }
    assert(all.take(all.len() as int) =~= all);
    out
}

/// The session that is read from its file.
pub fn stored_session(content: Option<String>) -> (r: Option<String>)
    ensures
        text::opt_text(r) == match content {
            Some(c) => if scan::trimmed(c@).len() == 0 {
                None
            } else {
                Some(scan::trimmed(c@))
            },
            None => None,
        },
{
    match content {
        Some(c) => {
            let t = scan::trim(c.as_str());
            if text::is_empty(t.as_str()) {
                None
            } else {
                Some(t)
            }
        },
        None => None,
    }
}

/// The session that the browser started, from its answer.
pub fn read_session(document: &Vec<u8>) -> (r: Result<String, BidiError>)
    ensures
        match json::text_at(document@, "/result/sessionId"@) {
            Some(id) => r matches Ok(t) && t@ == id,
            None => r matches Err(e) && e is NoSession,
        },
{
    match json::read_text(document, "/result/sessionId") {
        Some(id) => Ok(id),
        None => Err(BidiError::NoSession),
    }
}

/// Whether `r` is what is to be done to be connected.
pub open spec fn connect_by(
    connected: bool,
    session_id: Option<Seq<char>>,
    endpoint: Seq<char>,
    r: ConnectPlan,
) -> bool {
    if connected {
        r is Ready
    } else {
        match session_id {
            Some(id) => r matches ConnectPlan::Reattach(url) && url@ == without_slashes(endpoint)
                + "/"@ + id,
            None => r matches ConnectPlan::NewSession(url) && url@ == endpoint,
        }
    }
}

/// Whether a browser is as it is after it answered, and `r` is what is then shown: its tabs, or
/// nothing where it failed, after which it is left alone for a while.
pub open spec fn bidi_answered(
    before: BidiBackend,
    found: Option<Seq<BidiTab>>,
    focused_title: Seq<char>,
    now: u64,
    after: BidiBackend,
    r: Option<BrowserTabsState>,
) -> bool {
    &&& after.endpoint == before.endpoint
    &&& after.session_id == before.session_id
    &&& after.next_id == before.next_id
    &&& after.last_refresh == before.last_refresh
    &&& match found {
        Some(f) => {
            let tabs = bidi_tabs(f, focused_title);
            let (next, shown) = shown_tabs(before.order.seen(), tabs);
            &&& after.order.seen() == next
            &&& after.cached@ == state_of(shown)
            &&& after.retry_after is None
            &&& after.connected == before.connected
            &&& text::opt_text(after.active_context) == match first_active(shown, 0) {
                Some(i) => Some(shown[i].id),
                None => None,
            }
            &&& r matches Some(s) && s@ == state_of(shown)
        },
        None => {
            &&& after.order == before.order
            &&& after.cached@ == no_tabs()
            &&& after.retry_after == Some((now + BIDI_ERROR_RETRY_NS) as u64)
            &&& !after.connected
            &&& after.active_context is None
            &&& r is None
        },
    }
}

/// What was found, as a sequence.
pub open spec fn opt_found<T>(found: Option<Vec<T>>) -> Option<Seq<T>> {
    match found {
        Some(f) => Some(f@),
        None => None,
    }
}

impl BidiBackend {
    /// A browser that has not been asked, at the given address or at the usual one, with the
    /// session that there was.
    pub fn new(endpoint: Option<String>, session_id: Option<String>) -> (r: BidiBackend)
        ensures
            r.order.wf(),
            r.order.seen() == Seq::<Seq<char>>::empty(),
            r.endpoint@ == match endpoint {
                Some(e) => e@,
                None => BIDI_DEFAULT_ENDPOINT@,
            },
            !r.connected,
            r.session_id == session_id,
            r.next_id == 1,
            r.last_refresh is None,
            r.retry_after is None,
            r.cached@ == no_tabs(),
            r.active_context is None,
    {
        BidiBackend {
            endpoint: match endpoint {
                Some(e) => e,
                None => BIDI_DEFAULT_ENDPOINT.to_string(),
            },
            connected: false,
            session_id,
            next_id: 1,
            last_refresh: None,
            retry_after: None,
            cached: BrowserTabsState::unavailable(),
            order: TabOrder::new(),
            active_context: None,
        }
    }

    /// What is to be done to be connected. A session outlives its socket, and a browser has
    /// one session only, so the session that there was comes first.
    pub fn connect_plan(&self) -> (r: ConnectPlan)
        ensures
            connect_by(self.connected, text::opt_text(self.session_id), self.endpoint@, r),
    {
        if self.connected {
            return ConnectPlan::Ready;
        }
        match &self.session_id {
            Some(id) => ConnectPlan::Reattach(
                text::concat3(
                    scan::trim_end_matches(self.endpoint.as_str(), "/").as_str(),
                    "/",
                    id.as_str(),
                ),
            ),
            None => ConnectPlan::NewSession(self.endpoint.clone()),
        }
    }

    /// The number of the next command.
    pub fn take_id(&mut self) -> (r: u64)
        requires
            old(self).next_id < u64::MAX,
        ensures
            r == old(self).next_id,
            *final(self) == (BidiBackend { next_id: (old(self).next_id + 1) as u64, ..*old(self) }),
    {
        let id = self.next_id;
        self.next_id = id + 1;
        id
    }

    /// Takes note of whether the session that there was could be taken up again. Where it
    /// could not, it is forgotten.
    pub fn reattached(&mut self, worked: bool)
        ensures
            *final(self) == (BidiBackend {
                connected: worked,
                session_id: final(self).session_id,
                ..*old(self)
            }),
            final(self).session_id == if worked {
                old(self).session_id
            } else {
                None
            },
    {
        self.connected = worked;
        if !worked {
            self.session_id = None;
        }
    }

    /// Takes note of the session that was started, once it has been stored.
    pub fn keep_session(&mut self, id: String)
        ensures
            *final(self) == (BidiBackend {
                session_id: Some(id),
                connected: true,
                ..*old(self)
            }),
    {
        self.session_id = Some(id);
        self.connected = true;
    }

    /// The tabs that were last given, where the browser is not to be asked again yet;
    /// otherwise the time of asking is noted.
    pub fn begin_refresh(&mut self, now: u64, force: bool) -> (r: Option<BrowserTabsState>)
        ensures
            if asks(old(self).last_refresh, old(self).retry_after, now, force) {
                r is None && *final(self) == (BidiBackend {
                    last_refresh: Some(now),
                    ..*old(self)
                })
            } else {
                r matches Some(s) && s@ == old(self).cached@ && *final(self) == *old(self)
            },
    {
        let waits = match self.retry_after {
            Some(t) => !force && now < t,
            None => false,
        };
        if waits || !refresh_due(self.last_refresh, now, force) {
            return Some(self.cached.copy());
        }
        self.last_refresh = Some(now);
        None
    }

    /// Takes note of what the browser answered: its tabs, or nothing where it failed. One
    /// that failed is left alone for a while.
    pub fn finish_refresh(&mut self, found: Option<Vec<BidiTab>>, focused_title: &str, now: u64) -> (r:
        Option<BrowserTabsState>)
        requires
            old(self).order.wf(),
            now <= u64::MAX - BIDI_ERROR_RETRY_NS,
        ensures
            final(self).order.wf(),
            bidi_answered(
                *old(self),
                opt_found(found),
                focused_title@,
                now,
                *final(self),
                r,
            ),
    {
        match found {
            Some(f) => {
                let tabs = tabs_of_contexts(f, focused_title);
                let mut shown = self.order.stable_order(tabs);
                mark_only_tab_active(&mut shown);
                self.active_context = match find_active(&shown) {
                    Some(i) => Some(shown[i].id.clone()),
                    None => None,
                };
                let state = BrowserTabsState::from_tabs(&shown);
                self.retry_after = None;
                self.cached = state.copy();
                Some(state)
            },
            None => {
                self.cached = BrowserTabsState::unavailable();
                self.connected = false;
                self.active_context = None;
                self.retry_after = Some(now + BIDI_ERROR_RETRY_NS);
                None
            },
        }
    }
}

/// Whether a browser that was last asked and that failed at the given times is asked now.
pub open spec fn asks(last: Option<u64>, retry_after: Option<u64>, now: u64, force: bool) -> bool {
    (force || retry_after is None || now >= retry_after->0) && due(last, now, force)
}

/// A browser that failed is left alone for a while, unless it must be asked.
pub proof fn law_failed_browser_is_left_alone(last: Option<u64>, failed: u64, now: u64)
    requires
        failed <= u64::MAX - BIDI_ERROR_RETRY_NS,
        now < failed + BIDI_ERROR_RETRY_NS,
    ensures
        !asks(last, Some((failed + BIDI_ERROR_RETRY_NS) as u64), now, false),
        asks(last, Some((failed + BIDI_ERROR_RETRY_NS) as u64), now, true),
{
}

/// A browser is asked no more often than every half second, unless it must be.
pub proof fn law_browser_is_not_asked_too_often(last: u64, retry_after: Option<u64>, now: u64)
    requires
        last <= now < last + POLL_INTERVAL_NS,
    ensures
        !asks(Some(last), retry_after, now, false),
{
}

/// The browser whose tabs are shown.
#[derive(Debug)]
pub struct BrowserClient {
    pub active: Option<BrowserKind>,
}

impl BrowserClient {
    /// No browser.
    pub fn new() -> (r: BrowserClient)
        ensures
            r.active is None,
    {
        BrowserClient { active: None }
    }

    /// Takes the browser of the focused window; where that is none, there are no tabs.
    pub fn follow(&mut self, kind: Option<BrowserKind>) -> (r: Option<BrowserTabsState>)
        ensures
            final(self).active == kind,
            match kind {
                Some(_) => r is None,
                None => r matches Some(s) && s@ == no_tabs(),
            },
    {
        self.active = kind;
        match kind {
            Some(_) => None,
            None => Some(BrowserTabsState::unavailable()),
        }
    }

    /// The name of the protocol of the browser whose tabs are shown.
    pub fn active_protocol_name(&self) -> (r: &'static str)
        ensures
            r@ == match self.active {
                Some(BrowserKind::Cdp) => "CDP"@,
                Some(BrowserKind::Bidi) => "WebDriver BiDi"@,
                None => "browser"@,
            },
    {
        match self.active {
            Some(kind) => kind.protocol_name(),
            None => "browser",
        }
    }
}

} // verus!

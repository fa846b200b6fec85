//! The browser's tabs.
use crate::browser;
use crate::browser::{BidiTab, BrowserKind, DevToolsTarget, RowView, TabView};
use crate::html;
use crate::json;
use crate::scan;
use crate::text;
use vstd::prelude::*;

verus! {

/// A tab of a BiDi browser is named by its context and has its context's address; its title
/// and its icon are those that its page reports, or empty where it reports none; and it is in
/// front where its title is that of the focused window.
pub proof fn law_bidi_tabs(found: Seq<BidiTab>, focused: Seq<char>, i: int)
    requires
        0 <= i < found.len(),
    ensures
        ({
            let tabs = browser::bidi_tabs(found, focused);
            let tab = tabs[i];
            &&& tabs.len() == found.len()
            &&& tab.id == found[i].row.id@
            &&& tab.url == found[i].row.url@
            &&& match found[i].metadata {
                Some(page) => tab.title == page.title@ && tab.favicon_url == page.favicon_url@
                    && tab.active == browser::in_front(page.title@, focused),
                None => tab.title.len() == 0 && tab.favicon_url.len() == 0,
            }
        }),
{
}

/// The contexts in a BiDi browser's answer are taken in order, each with its identifier and its
/// address; one without an identifier spoils the answer.
pub proof fn law_bidi_contexts(document: Seq<u8>, n: nat, i: nat)
    requires
        i < n,
    ensures
        match browser::rows_in(document, n) {
            Some(rows) => {
                &&& rows.len() == n
                &&& json::text_at(
                    document,
                    "/result/contexts"@ + "/"@ + text::decimal(i) + "/context"@,
                ) == Some(rows[i as int].id)
                &&& rows[i as int].url == match json::text_at(
                    document,
                    "/result/contexts"@ + "/"@ + text::decimal(i) + "/url"@,
                ) {
                    Some(url) => url,
                    None => Seq::empty(),
                }
            },
            None => exists|k: nat|
                k < n && (#[trigger] json::text_at(
                    document,
                    json::element("/result/contexts"@, k, "/context"@),
                )) is None,
        },
    decreases n,
{
    let m = (n - 1) as nat;
    if m > 0 {
        law_bidi_contexts(document, m, if i < m {
            i
        } else {
            0
        });
    }
    if browser::rows_in(document, n) is None {
        if browser::rows_in(document, m) is Some {
            assert(json::text_at(
                document,
                json::element("/result/contexts"@, m, "/context"@),
            ) is None);
        }
    }
}

/// Chromium's pages are its tabs, in the order in which it lists them, and nothing else is:
/// each with its identifier, its title with references decoded, its address and its icon, or
/// empty ones where it has none.
pub proof fn law_chromium_tabs(targets: Seq<DevToolsTarget>, focused: Seq<char>, n: int)
    requires
        0 < n <= targets.len(),
    ensures
        ({
            let t = targets[n - 1];
            let before = browser::tabs_of(targets, focused, n - 1);
            let tabs = browser::tabs_of(targets, focused, n);
            &&& browser::tabs_of(targets, focused, 0).len() == 0
            &&& t.target_type@ != "page"@ ==> tabs == before
            &&& t.target_type@ == "page"@ ==> {
                &&& tabs.len() == before.len() + 1
                &&& before.is_prefix_of(tabs)
                &&& tabs.last().id == t.id@
                &&& tabs.last().title == html::decoded(
                    match t.title {
                        Some(x) => x@,
                        None => Seq::empty(),
                    },
                )
                &&& tabs.last().url == match t.url {
                    Some(x) => x@,
                    None => Seq::empty(),
                }
                &&& tabs.last().favicon_url == match t.favicon_url {
                    Some(x) => x@,
                    None => Seq::empty(),
                }
                &&& tabs.last().active == browser::in_front(tabs.last().title, focused)
            }
        }),
{
}

/// A tab is in front where its title holds the window's or the window's holds its own, the
/// white space around both left out; an empty title is that of no tab.
pub proof fn law_tab_in_front(tab: Seq<char>, focused: Seq<char>)
    ensures
        ({
            let a = scan::trimmed(tab);
            let b = scan::trimmed(focused);
            &&& a.len() == 0 || b.len() == 0 ==> !browser::in_front(tab, focused)
            &&& a.len() > 0 && b.len() > 0 && (scan::occurs(a, b) || scan::occurs(b, a))
                ==> browser::in_front(tab, focused)
            &&& !scan::occurs(a, b) && !scan::occurs(b, a) ==> !browser::in_front(tab, focused)
            &&& browser::in_front(tab, focused) == browser::in_front(focused, tab)
        }),
{
}

/// What is shown of tabs with different identifiers: each of them once, under its own
/// identifier, in the order that was kept; a single tab is in front in any case.
pub proof fn law_shown_tabs(order: Seq<Seq<char>>, tabs: Seq<TabView>, i: int)
    requires
        order.no_duplicates(),
        forall|a: int, b: int|
            0 <= a < tabs.len() && 0 <= b < tabs.len() && (#[trigger] tabs[a]).id == (
            #[trigger] tabs[b]).id ==> a == b,
        0 <= i < browser::shown_tabs(order, tabs).1.len(),
    ensures
        ({
            let (next, shown) = browser::shown_tabs(order, tabs);
            &&& shown.len() == next.len()
            &&& shown[i].id == next[i]
            &&& shown.len() == 1 ==> shown[0].active
            &&& exists|k: int|
                0 <= k < tabs.len() && (#[trigger] tabs[k]).id == shown[i].id && tabs[k].title
                    == shown[i].title && tabs[k].url == shown[i].url && tabs[k].favicon_url
                    == shown[i].favicon_url && (shown.len() > 1 ==> tabs[k].active
                    == shown[i].active)
        }),
{
    let ids = browser::ids(tabs);
    let next = browser::next_order(order, ids);
    browser::law_order_is_of_live_tabs(order, ids);
    assert(next.contains(next[i]));
    let k = choose|k: int| 0 <= k < ids.len() && ids[k] == next[i];
    assert(tabs[k].id == next[i]);
    browser::lemma_last_with_id(tabs, next[i], tabs.len() as int);
    assert(tabs[browser::last_with_id(tabs, next[i], tabs.len() as int)] == tabs[k]);
}

/// New tabs come behind those that were there, in the order in which the browser gives them.
pub proof fn law_new_tabs_come_last(order: Seq<Seq<char>>, live: Seq<Seq<char>>, n: int)
    requires
        0 < n <= live.len(),
    ensures
        ({
            let before = browser::extended(order, live, n - 1);
            let now = browser::extended(order, live, n);
            &&& browser::extended(order, live, 0) == order
            &&& before.contains(live[n - 1]) ==> now == before
            &&& !before.contains(live[n - 1]) ==> now == before.push(live[n - 1])
        }),
{
}

/// Tabs that are gone are forgotten, and the others keep their places among each other.
pub proof fn law_gone_tabs_are_forgotten(order: Seq<Seq<char>>, live: Seq<Seq<char>>, n: int)
    requires
        0 < n <= order.len(),
    ensures
        ({
            let before = browser::retained(order, live, n - 1);
            let now = browser::retained(order, live, n);
            &&& browser::retained(order, live, 0).len() == 0
            &&& live.contains(order[n - 1]) ==> now == before.push(order[n - 1])
            &&& !live.contains(order[n - 1]) ==> now == before
        }),
{
}

/// What is known of a browser's tabs: that it has them, how many, which is the first in front,
/// and all of them as a list in JSON.
pub proof fn law_state_of_tabs(tabs: Seq<TabView>)
    requires
        tabs.len() <= usize::MAX,
    ensures
        ({
            let s = browser::state_of(tabs);
            &&& s.available
            &&& s.count == tabs.len()
            &&& match s.active_index {
                Some(i) => i < tabs.len() && tabs[i as int].active && forall|j: int|
                    0 <= j < i ==> !(#[trigger] tabs[j]).active,
                None => forall|j: int| 0 <= j < tabs.len() ==> !(#[trigger] tabs[j]).active,
            }
            &&& !browser::no_tabs().available
            &&& browser::no_tabs().count == 0
            &&& browser::no_tabs().active_index is None
            &&& browser::no_tabs().tabs_json == "[]"@
        }),
{
    lemma_first_active(tabs, 0);
}

proof fn lemma_first_active(tabs: Seq<TabView>, i: int)
    requires
        0 <= i <= tabs.len(),
    ensures
        match browser::first_active(tabs, i) {
            Some(k) => i <= k < tabs.len() && tabs[k].active && forall|j: int|
                i <= j < k ==> !(#[trigger] tabs[j]).active,
            None => forall|j: int| i <= j < tabs.len() ==> !(#[trigger] tabs[j]).active,
        },
    decreases tabs.len() - i,
{
    if i < tabs.len() && !tabs[i].active {
        lemma_first_active(tabs, i + 1);
    }
}

/// A tab in JSON names its identifier, its title, its address, its icon and whether it is in
/// front.
pub proof fn law_tab_in_json(t: TabView)
    ensures
        ({
            let id = json::quoted("id"@) + ":"@ + json::quoted(t.id);
            let title = json::quoted("title"@) + ":"@ + json::quoted(t.title);
            let url = json::quoted("url"@) + ":"@ + json::quoted(t.url);
            let icon = json::quoted("favicon_url"@) + ":"@ + json::quoted(t.favicon_url);
            let active = json::quoted("active"@) + ":"@ + if t.active {
                "true"@
            } else {
                "false"@
            };
            browser::tab_json(t) == "{"@ + (id + ","@ + (title + ","@ + (url + ","@ + (icon + ","@
                + active)))) + "}"@
        }),
{
    let e = seq![
        crate::bridge::entry("id"@, json::quoted(t.id)),
        crate::bridge::entry("title"@, json::quoted(t.title)),
        crate::bridge::entry("url"@, json::quoted(t.url)),
        crate::bridge::entry("favicon_url"@, json::quoted(t.favicon_url)),
        crate::bridge::entry("active"@, json::bool_text(t.active)),
    ];
    lemma_join_five(e, ","@);
}

proof fn lemma_join_five(e: Seq<Seq<char>>, sep: Seq<char>)
    requires
        e.len() == 5,
    ensures
        scan::joined(e, sep) == e[0] + sep + (e[1] + sep + (e[2] + sep + (e[3] + sep + e[4]))),
{
    let r1 = e.drop_first();
    let r2 = r1.drop_first();
    let r3 = r2.drop_first();
    let r4 = r3.drop_first();
    assert(scan::joined(r4, sep) == e[4]);
    assert(scan::joined(r3, sep) == e[3] + sep + scan::joined(r4, sep));
    assert(scan::joined(r2, sep) == e[2] + sep + scan::joined(r3, sep));
    assert(scan::joined(r1, sep) == e[1] + sep + scan::joined(r2, sep));
}

/// Tabs in JSON stand in square brackets with commas between them.
pub proof fn law_tabs_in_json(t: TabView, rest: Seq<TabView>)
    ensures
        browser::tabs_json(Seq::empty()) == "["@ + "]"@,
        browser::tabs_json(seq![t]) == "["@ + browser::tab_json(t) + "]"@,
        rest.len() > 0 ==> browser::tabs_json(seq![t] + rest) == "["@ + browser::tab_json(t) + ","@
            + scan::joined(rest.map_values(|x: TabView| browser::tab_json(x)), ","@) + "]"@,
{
    let f = |x: TabView| browser::tab_json(x);
    reveal_with_fuel(scan::joined, 2);
    assert(Seq::<TabView>::empty().map_values(f) =~= Seq::<Seq<char>>::empty());
    assert("["@ + Seq::<char>::empty() + "]"@ =~= "["@ + "]"@);
    assert(seq![t].map_values(f) =~= seq![browser::tab_json(t)]);
    if rest.len() > 0 {
        let all = (seq![t] + rest).map_values(f);
        assert(all.drop_first() =~= rest.map_values(f));
        assert(all[0] == browser::tab_json(t));
        assert(browser::tabs_json(seq![t] + rest) =~= "["@ + browser::tab_json(t) + ","@
            + scan::joined(rest.map_values(f), ","@) + "]"@);
    }
}

/// Chromium and Chrome speak the one protocol, Zen and Firefox the other, and no other window
/// is a browser's.
pub proof fn law_browsers(class: Seq<char>)
    ensures
        ({
            let c = text::lowercase(class);
            let chrome = scan::occurs(c, "chromium"@) || scan::occurs(c, "chrome"@);
            let zen = c == "zen"@ || scan::occurs(c, "zen-browser"@) || scan::occurs(
                c,
                "zen-alpha"@,
            ) || scan::occurs(c, "firefox"@);
            &&& chrome ==> browser::kind_of(class) == Some(BrowserKind::Cdp)
            &&& !chrome && zen ==> browser::kind_of(class) == Some(BrowserKind::Bidi)
            &&& !chrome && !zen ==> browser::kind_of(class) is None
        }),
{
}

/// A browser is asked at most every half second, and one that failed after five seconds; and
/// at any time where it must be.
pub proof fn law_when_a_browser_is_asked(
    last: Option<u64>,
    failed: Option<u64>,
    now: u64,
    force: bool,
)
    requires
        failed is Some ==> failed->0 <= u64::MAX - 5_000_000_000,
    ensures
        ({
            let retry = match failed {
                Some(f) => Some((f + browser::BIDI_ERROR_RETRY_NS) as u64),
                None => None,
            };
            let asked = browser::asks(last, retry, now, force);
            &&& force ==> asked
            &&& !force && last is Some && now < last->0 + 500_000_000 ==> !asked
            &&& !force && failed is Some && now < failed->0 + 5_000_000_000 ==> !asked
            &&& (last is None || now >= last->0 + 500_000_000) && (failed is None || now
                >= failed->0 + 5_000_000_000) ==> asked
            &&& browser::due(last, now, force) <==> force || last is None || now >= last->0
                + 500_000_000
        }),
{
}

/// Both browsers listen on port 9222.
pub proof fn law_addresses()
    ensures
        browser::CDP_DEFAULT_ENDPOINT@ == "http://127.0.0.1:9222"@,
        browser::BIDI_DEFAULT_ENDPOINT@ == "ws://127.0.0.1:9222/session"@,
        browser::BIDI_SESSION_FILE@ == "tiny-dfr/bidi-session"@,
{
}

// ---------------------------------------------------------------------------
// Character references in titles
// ---------------------------------------------------------------------------

proof fn lemma_digits_shift(s: Seq<char>, i: int, j: int, radix: int)
    requires
        0 <= i <= j <= s.len(),
    ensures
        html::digits_end(s, j, radix) == i + html::digits_end(s.skip(i), j - i, radix),
    decreases s.len() - j,
{
    if j < s.len() {
        assert(s.skip(i)[j - i] == s[j]);
        if text::digit(s[j], radix) is Some {
            lemma_digits_shift(s, i, j + 1, radix);
        }
    }
}

proof fn lemma_letters_shift(s: Seq<char>, i: int, j: int, room: int)
    requires
        0 <= i <= j <= s.len(),
    ensures
        html::letters_end(s, j, room) == i + html::letters_end(s.skip(i), j - i, room),
    decreases s.len() - j,
{
    if j < s.len() {
        assert(s.skip(i)[j - i] == s[j]);
        if room > 0 && html::is_letter(s[j]) {
            lemma_letters_shift(s, i, j + 1, room - 1);
        }
    }
}

proof fn lemma_letters_bound(s: Seq<char>, j: int, room: int)
    requires
        0 <= j <= s.len(),
    ensures
        j <= html::letters_end(s, j, room) <= s.len(),
    decreases s.len() - j,
{
    if j < s.len() && room > 0 && html::is_letter(s[j]) {
        lemma_letters_bound(s, j + 1, room - 1);
    }
}

proof fn lemma_digits_bound(s: Seq<char>, j: int, radix: int)
    requires
        0 <= j <= s.len(),
    ensures
        j <= html::digits_end(s, j, radix) <= s.len(),
    decreases s.len() - j,
{
    if j < s.len() && text::digit(s[j], radix) is Some {
        lemma_digits_bound(s, j + 1, radix);
    }
}

proof fn lemma_reference_shift(s: Seq<char>, i: int)
    requires
        0 <= i < s.len(),
    ensures
        match html::reference_at(s.skip(i), 0) {
            Some((c, n)) => html::reference_at(s, i) == Some((c, i + n)) && 0 < n <= s.len() - i,
            None => html::reference_at(s, i) is None,
        },
{
    let t = s.skip(i);
    html::lemma_reference_at(t, 0);
    assert(t[0] == s[i]);
    if s[i] == '&' {
        if i + 2 < s.len() {
            assert(t[1] == s[i + 1] && t[2] == s[i + 2]);
        }
        if i + 2 < s.len() && s[i + 1] == '#' {
            let (start, radix, end) = html::numeric_parts(t, 0);
            lemma_digits_shift(s, i, i + start, radix);
            lemma_digits_bound(t, start, radix);
            assert(t.subrange(start, end) =~= s.subrange(i + start, i + end));
            if end < t.len() {
                assert(t[end] == s[i + end]);
            }
        } else {
            let end = html::letters_end(t, 1, html::MAX_NAME as int);
            lemma_letters_bound(t, 1, html::MAX_NAME as int);
            lemma_letters_shift(s, i, i + 1, html::MAX_NAME as int);
            assert(t.subrange(1, end) =~= s.subrange(i + 1, i + end));
            if end < t.len() {
                assert(t[end] == s[i + end]);
            }
        }
    }
}

proof fn lemma_decoded_shift(s: Seq<char>, i: int)
    requires
        0 <= i <= s.len(),
    ensures
        html::decoded_from(s, i) == html::decoded(s.skip(i)),
    decreases s.len() - i,
{
    if i < s.len() {
        let t = s.skip(i);
        lemma_reference_shift(s, i);
        match html::reference_at(t, 0) {
            Some((c, n)) => {
                lemma_decoded_shift(s, i + n);
                lemma_decoded_shift(t, n);
                assert(t.skip(n) =~= s.skip(i + n));
            },
            None => {
                lemma_decoded_shift(s, i + 1);
                lemma_decoded_shift(t, 1);
                assert(t.skip(1) =~= s.skip(i + 1));
                assert(t[0] == s[i]);
            },
        }
    }
}

/// A character that begins no reference stands for itself.
pub proof fn law_plain_character(c: char, rest: Seq<char>)
    requires
        c != '&',
    ensures
        html::decoded(seq![c] + rest) == seq![c] + html::decoded(rest),
{
    let s = seq![c] + rest;
    lemma_decoded_shift(s, 1);
    assert(s.skip(1) =~= rest);
}

/// A named reference stands for its character, and the rest is decoded on its own.
pub proof fn law_named_references(rest: Seq<char>)
    ensures
        html::decoded("&amp;"@ + rest) == seq!['&'] + html::decoded(rest),
        html::decoded("&apos;"@ + rest) == seq!['\''] + html::decoded(rest),
        html::decoded("&quot;"@ + rest) == seq!['"'] + html::decoded(rest),
        html::decoded("&lt;"@ + rest) == seq!['<'] + html::decoded(rest),
        html::decoded("&gt;"@ + rest) == seq!['>'] + html::decoded(rest),
{
    reveal_strlit("&amp;");
    reveal_strlit("&apos;");
    reveal_strlit("&quot;");
    reveal_strlit("&lt;");
    reveal_strlit("&gt;");
    reveal_strlit("amp");
    reveal_strlit("apos");
    reveal_strlit("quot");
    reveal_strlit("lt");
    reveal_strlit("gt");
    assert("amp"@[1] == 'm' && "apos"@[0] == 'a' && "quot"@[0] == 'q' && "lt"@[0] == 'l'
        && "gt"@[0] == 'g');
    lemma_named_reference("&amp;"@, "amp"@, rest);
    lemma_named_reference("&apos;"@, "apos"@, rest);
    lemma_named_reference("&quot;"@, "quot"@, rest);
    lemma_named_reference("&lt;"@, "lt"@, rest);
    lemma_named_reference("&gt;"@, "gt"@, rest);
}

proof fn lemma_named_reference(whole: Seq<char>, name: Seq<char>, rest: Seq<char>)
    requires
        0 < name.len() <= 4,
        whole.len() == name.len() + 2,
        whole[0] == '&',
        whole.last() == ';',
        forall|i: int|
            0 <= i < name.len() ==> html::is_letter(#[trigger] name[i]) && whole[i + 1] == name[i],
        html::named(name) is Some,
    ensures
        html::decoded(whole + rest) == seq![html::named(name)->0] + html::decoded(rest),
{
    let s = whole + rest;
    let n = name.len() as int;
    reveal_with_fuel(html::letters_end, 6);
    assert(s[0] == '&');
    assert(html::is_letter(name[0]) && s[1] == whole[1]);
    assert(n > 1 ==> html::is_letter(name[1]) && s[2] == whole[2]);
    assert(n > 2 ==> html::is_letter(name[2]) && s[3] == whole[3]);
    assert(n > 3 ==> html::is_letter(name[3]) && s[4] == whole[4]);
    assert(s[1] == name[0]);
    assert(n > 1 ==> s[2] == name[1]);
    assert(n > 2 ==> s[3] == name[2]);
    assert(n > 3 ==> s[4] == name[3]);
    assert(s[n + 1] == ';');
    assert(html::letters_end(s, 1, 8) == n + 1);
    assert(s.subrange(1, n + 1) =~= name);
    assert(html::reference_at(s, 0) == Some((html::named(name)->0, n + 2)));
    lemma_decoded_shift(s, n + 2);
    assert(s.skip(n + 2) =~= rest);
}

/// A decimal reference stands for the character with its number.
pub proof fn law_decimal_reference(digits: Seq<char>, rest: Seq<char>)
    requires
        digits.len() > 0,
        text::all_digits(digits, 10),
        text::digits_value(digits, 10) < 0xD800,
    ensures
        html::decoded(seq!['&', '#'] + digits + seq![';'] + rest) == seq![
            text::digits_value(digits, 10) as char,
        ] + html::decoded(rest),
{
    let s = seq!['&', '#'] + digits + seq![';'] + rest;
    let n = digits.len() as int;
    assert(s[0] == '&' && s[1] == '#' && s[2] == digits[0]);
    assert(text::digit(digits[0], 10) is Some);
    assert(s[2] != 'x' && s[2] != 'X');
    assert(s[n + 2] == ';');
    lemma_all_digits_end(s, 2, n + 2, 10);
    assert(s.subrange(2, n + 2) =~= digits);
    text::lemma_value_not_negative(digits, 10);
    assert(html::reference_at(s, 0) == Some((text::digits_value(digits, 10) as char, n + 3)));
    lemma_decoded_shift(s, n + 3);
    assert(s.skip(n + 3) =~= rest);
}

proof fn lemma_all_digits_end(s: Seq<char>, j: int, end: int, radix: int)
    requires
        0 <= j <= end < s.len(),
        forall|k: int| j <= k < end ==> (#[trigger] text::digit(s[k], radix)) is Some,
        text::digit(s[end], radix) is None,
    ensures
        html::digits_end(s, j, radix) == end,
    decreases end - j,
{
    if j < end {
        assert(text::digit(s[j], radix) is Some);
        lemma_all_digits_end(s, j + 1, end, radix);
    }
}

/// A hexadecimal reference stands for the character with its number.
pub proof fn law_hexadecimal_reference(digits: Seq<char>, rest: Seq<char>)
    requires
        digits.len() > 0,
        text::all_digits(digits, 16),
        text::digits_value(digits, 16) < 0xD800,
    ensures
        html::decoded(seq!['&', '#', 'x'] + digits + seq![';'] + rest) == seq![
            text::digits_value(digits, 16) as char,
        ] + html::decoded(rest),
{
    let s = seq!['&', '#', 'x'] + digits + seq![';'] + rest;
    let n = digits.len() as int;
    assert(s[0] == '&' && s[1] == '#' && s[2] == 'x');
    assert(s[n + 3] == ';');
    assert forall|k: int| 3 <= k < n + 3 implies (#[trigger] text::digit(s[k], 16)) is Some by {
        assert(s[k] == digits[k - 3]);
        assert(text::digit(digits[k - 3], 16) is Some);
    }
    lemma_all_digits_end(s, 3, n + 3, 16);
    assert(s.subrange(3, n + 3) =~= digits);
    text::lemma_value_not_negative(digits, 16);
    assert(html::reference_at(s, 0) == Some((text::digits_value(digits, 16) as char, n + 4)));
    lemma_decoded_shift(s, n + 4);
    assert(s.skip(n + 4) =~= rest);
}

/// The semicolon that ends a reference may be missing.
pub proof fn law_reference_without_its_end(digits: Seq<char>, rest: Seq<char>)
    requires
        digits.len() > 0,
        text::all_digits(digits, 10),
        text::digits_value(digits, 10) < 0xD800,
        rest.len() > 0,
        rest[0] != ';',
        text::digit(rest[0], 10) is None,
    ensures
        html::decoded(seq!['&', '#'] + digits + rest) == seq![
            text::digits_value(digits, 10) as char,
        ] + html::decoded(rest),
{
    let s = seq!['&', '#'] + digits + rest;
    let n = digits.len() as int;
    assert(s[0] == '&' && s[1] == '#' && s[2] == digits[0]);
    assert(text::digit(digits[0], 10) is Some);
    assert(s[2] != 'x' && s[2] != 'X');
    assert(s[n + 2] == rest[0]);
    assert forall|k: int| 2 <= k < n + 2 implies (#[trigger] text::digit(s[k], 10)) is Some by {
        assert(s[k] == digits[k - 2]);
        assert(text::digit(digits[k - 2], 10) is Some);
    }
    lemma_all_digits_end(s, 2, n + 2, 10);
    assert(s.subrange(2, n + 2) =~= digits);
    text::lemma_value_not_negative(digits, 10);
    assert(html::reference_at(s, 0) == Some((text::digits_value(digits, 10) as char, n + 2)));
    lemma_decoded_shift(s, n + 2);
    assert(s.skip(n + 2) =~= rest);
}

/// An ampersand that begins no reference stands for itself.
pub proof fn law_plain_ampersand(rest: Seq<char>)
    requires
        rest.len() == 0 || (!html::is_letter(rest[0]) && rest[0] != '#'),
    ensures
        html::decoded(seq!['&'] + rest) == seq!['&'] + html::decoded(rest),
{
    let s = seq!['&'] + rest;
    reveal_strlit("amp");
    reveal_strlit("apos");
    reveal_strlit("quot");
    reveal_strlit("lt");
    reveal_strlit("gt");
    assert(s[0] == '&');
    if rest.len() > 0 {
        assert(s[1] == rest[0]);
    }
    assert(html::letters_end(s, 1, 8) == 1);
    assert(s.subrange(1, 1) =~= Seq::<char>::empty());
    assert(html::reference_at(s, 0) is None);
    lemma_decoded_shift(s, 1);
    assert(s.skip(1) =~= rest);
}

/// A BiDi browser that answered has its tabs shown and remembered, and the first one in front is
/// the one whose media counts. One that failed shows nothing, is not asked again for five
/// seconds, and has to be connected to again; its session is kept.
pub proof fn law_bidi_answers(
    before: browser::BidiBackend,
    found: Option<Seq<BidiTab>>,
    focused: Seq<char>,
    now: u64,
    after: browser::BidiBackend,
    r: Option<browser::BrowserTabsState>,
)
    requires
        browser::bidi_answered(before, found, focused, now, after, r),
        now <= u64::MAX - 5_000_000_000,
    ensures
        after.session_id == before.session_id,
        after.endpoint == before.endpoint,
        found is None ==> {
            &&& r is None
            &&& !after.cached.available
            &&& !after.connected
            &&& after.active_context is None
            &&& after.retry_after == Some((now + 5_000_000_000) as u64)
        },
        found is Some ==> {
            let shown = browser::shown_tabs(
                before.order.seen(),
                browser::bidi_tabs(found->0, focused),
            ).1;
            &&& r is Some
            &&& r->0@ == after.cached@
            &&& r->0.available
            &&& r->0.count == shown.len() as usize
            &&& r->0.tabs_json@ == browser::tabs_json(shown)
            &&& after.retry_after is None
            &&& after.connected == before.connected
            &&& match after.active_context {
                Some(id) => exists|i: int|
                    0 <= i < shown.len() && (#[trigger] shown[i]).active && shown[i].id == id@
                        && forall|j: int| 0 <= j < i ==> !(#[trigger] shown[j]).active,
                None => forall|j: int| 0 <= j < shown.len() ==> !(#[trigger] shown[j]).active,
            }
        },
{
    if found is Some {
        let shown = browser::shown_tabs(
            before.order.seen(),
            browser::bidi_tabs(found->0, focused),
        ).1;
        lemma_first_active(shown, 0);
        assert(after.cached@.available == after.cached.available);
    } else {
        assert(after.cached@.available == after.cached.available);
    }
}

/// A Chromium that answered has its tabs shown and remembered; one that failed shows nothing.
pub proof fn law_chromium_answers(
    before: browser::CdpBackend,
    targets: Option<Seq<DevToolsTarget>>,
    focused: Seq<char>,
    after: browser::CdpBackend,
    r: Option<browser::BrowserTabsState>,
)
    requires
        browser::cdp_answered(before, targets, focused, after, r),
    ensures
        targets is None ==> r is None && !after.cached.available,
        targets is Some ==> {
            let shown = browser::shown_tabs(
                before.order.seen(),
                browser::tabs_of(targets->0, focused, targets->0.len() as int),
            ).1;
            &&& r is Some
            &&& r->0@ == after.cached@
            &&& r->0.available
            &&& r->0.count == shown.len() as usize
            &&& r->0.tabs_json@ == browser::tabs_json(shown)
        },
{
    assert(after.cached@.available == after.cached.available);
}

} // verus!

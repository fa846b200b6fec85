//! What is kept, read and written besides.
use crate::app::AppView;
use crate::crash;
use crate::json;
use crate::number::Number;
use crate::nvim_bridge;
use crate::nvim_bridge::ConnectionView;
use crate::remote;
use crate::remote::RemoteView;
use crate::scan;
use crate::store::{StoreView, ValueView};
use crate::terminal;
use crate::terminal::TmuxPaneView;
use crate::text;
use crate::widgets::button;
use crate::widgets::button::{BackendView, ContentView, ImageView};
use vstd::arithmetic::power2::{
    lemma2_to64, lemma2_to64_rest, lemma_pow2_pos, lemma_pow2_strictly_increases, pow2,
};
use vstd::prelude::*;

verus! {

/// A key is read as what it holds, and as nothing of another kind.
pub proof fn law_reading(s: StoreView, k: Seq<char>)
    ensures
        !s.values.contains_key(k) ==> s.bool_at(k) is None && s.number_at(k) is None && s.text_at(k)
            is None,
        s.values.contains_key(k) ==> match s.values[k] {
            ValueView::Bool(b) => s.bool_at(k) == Some(b) && s.number_at(k) is None && s.text_at(k)
                is None,
            ValueView::Number(n) => s.number_at(k) == Some(n) && s.bool_at(k) is None && s.text_at(
                k,
            ) is None,
            ValueView::Text(t) => s.text_at(k) == Some(t) && s.bool_at(k) is None && s.number_at(k)
                is None,
        },
{
}

/// Setting a key stores the value and marks the key, unless the key holds an equal value.
pub proof fn law_setting(s: StoreView, k: Seq<char>, v: ValueView)
    ensures
        ({
            let after = s.set(k, v);
            let same = s.values.contains_key(k) && match (s.values[k], v) {
                (ValueView::Bool(a), ValueView::Bool(b)) => a == b,
                (ValueView::Text(a), ValueView::Text(b)) => a == b,
                (ValueView::Number(a), ValueView::Number(b)) => a.same_value(b),
                _ => false,
            };
            &&& same ==> after == s
            &&& !same ==> after.values == s.values.insert(k, v) && after.dirty == s.dirty.insert(k)
        }),
{
    reveal(StoreView::set);
}

/// Numbers are equal where their bits are, or both are zero; no NaN equals anything.
pub proof fn law_equal_numbers(a: Number, b: Number)
    ensures
        a.same_value(b) == b.same_value(a),
        !a.is_nan() ==> a.same_value(a),
        a.is_nan() ==> !a.same_value(b),
        (Number { bits: 0 }).same_value(Number { bits: 0x8000_0000_0000_0000 }),
        a.same_value(b) && a.bits != b.bits ==> (a.bits == 0 || a.bits == 0x8000_0000_0000_0000)
            && (b.bits == 0 || b.bits == 0x8000_0000_0000_0000),
{
}

/// A position that is a whole number of microseconds is sought as it is.
pub proof fn law_positions_are_exact(x: Number, n: nat)
    requires
        n < 0x20_0000_0000_0000,
        x.represents(n),
    ensures
        x.truncated_i64() == n,
{
    lemma2_to64();
    lemma2_to64_rest();
    if n > 0 {
        let e = x.exponent();
        let m = x.significand();
        if e >= 1075 {
            let d = (e - 1075) as nat;
            lemma_pow2_pos(d);
            if d > 0 {
                if d > 1 {
                    lemma_pow2_strictly_increases(1, d);
                }
                assert(m * pow2(d) >= m * 2) by (nonlinear_arith)
                    requires
                        pow2(d) >= 2,
                        m >= 0,
                ;
                assert(false);
            }
            assert(m * pow2(0) == m) by (nonlinear_arith)
                requires
                    pow2(0) == 1,
            ;
        } else {
            let d = (1075 - e) as nat;
            lemma_pow2_pos(d);
            if d > 52 {
                if d > 53 {
                    lemma_pow2_strictly_increases(53, d);
                }
                assert(n * pow2(d) >= pow2(d)) by (nonlinear_arith)
                    requires
                        n >= 1,
                        pow2(d) >= 0,
                ;
                assert(false);
            }
            vstd::arithmetic::div_mod::lemma_fundamental_div_mod_converse(
                m as int,
                pow2(d) as int,
                n as int,
                0,
            );
        }
    }
}

/// The picture of a failure has four bytes for each bit of its bits, all white for a zero and
/// all black for a one, the lowest bit of each byte first.
pub proof fn law_picture(bits: Seq<u8>, i: int, b: u8, j: int)
    requires
        0 <= i < bits.len(),
        b < 8,
        0 <= j < 4,
    ensures
        crash::picture_byte(bits, 32 * i + 4 * b + j) == if (bits[i] >> b) & 1u8 == 0 {
            0xFFu8
        } else {
            0u8
        },
{
    let k = 32 * i + 4 * b + j;
    assert(k / 32 == i);
    assert((k % 32) / 4 == b);
}

/// A button for Neovim sends its action and no keys, shows what it is given, and is not left
/// pressed.
pub proof fn law_neovim_button(content: ImageView, action: Seq<char>, s: StoreView)
    ensures
        ({
            let b = button::ButtonView::fresh(
                BackendView::Key(button::nvim_button(content, action)),
            );
            &&& b.pressed(s).1 == Some(crate::action::ActionView::NvimBridge(action))
            &&& b.pressed(s).0 == b
            &&& b.released().1 is None
            &&& content matches ImageView::Text(t) ==> b.backend.content(s) == ContentView::Text(t)
            &&& content matches ImageView::Icon(i) ==> b.backend.content(s) == ContentView::Icon(i)
        }),
{
}

/// A database in JSON names its name, its source, its key and whether it is connected.
pub proof fn law_database_in_json(c: ConnectionView)
    ensures
        ({
            let name = json::quoted("name"@) + ":"@ + json::quoted(c.name);
            let source = json::quoted("source"@) + ":"@ + json::quoted(c.source);
            let key = json::quoted("key_name"@) + ":"@ + json::quoted(c.key_name);
            let on = json::quoted("is_connected"@) + ":"@ + if c.is_connected {
                "true"@
            } else {
                "false"@
            };
            nvim_bridge::connection_json(c) == "{"@ + (name + ","@ + (source + ","@ + (key + ","@
                + on))) + "}"@
        }),
{
    let e = seq![
        crate::bridge::entry("name"@, json::quoted(c.name)),
        crate::bridge::entry("source"@, json::quoted(c.source)),
        crate::bridge::entry("key_name"@, json::quoted(c.key_name)),
        crate::bridge::entry("is_connected"@, json::bool_text(c.is_connected)),
    ];
    let r1 = e.drop_first();
    let r2 = r1.drop_first();
    let r3 = r2.drop_first();
    assert(scan::joined(r3, ","@) == e[3]);
    assert(scan::joined(r2, ","@) == e[2] + ","@ + scan::joined(r3, ","@));
    assert(scan::joined(r1, ","@) == e[1] + ","@ + scan::joined(r2, ","@));
}

/// The report that counts is one that came as late as any.
pub proof fn law_latest_report(contexts: Seq<RemoteView>, i: int, j: int)
    requires
        remote::is_latest(contexts, i),
        0 <= j < contexts.len(),
    ensures
        0 <= i < contexts.len(),
        contexts[j].updated_at_ms <= contexts[i].updated_at_ms,
{
}

/// An action goes to the first connection of the session that it is for.
pub proof fn law_connection_of_a_session(sessions: Seq<Option<String>>, id: Seq<char>, k: int)
    requires
        0 <= k <= sessions.len(),
    ensures
        match remote::connection_of(sessions, id, k) {
            Some(i) => k <= i < sessions.len() && sessions[i] is Some && sessions[i]->0@ == id
                && forall|j: int|
                k <= j < i ==> !((#[trigger] sessions[j]) is Some && sessions[j]->0@ == id),
            None => forall|j: int|
                k <= j < sessions.len() ==> !((#[trigger] sessions[j]) is Some && sessions[j]->0@
                    == id),
        },
    decreases sessions.len() - k,
{
    if k < sessions.len() {
        if !(sessions[k] is Some && sessions[k]->0@ == id) {
            law_connection_of_a_session(sessions, id, k + 1);
        }
    }
}

/// A process identifier is a number that fits one.
pub proof fn law_process_identifiers(n: u64)
    ensures
        terminal::as_pid(None) is None,
        n <= 0xffff_ffff ==> terminal::as_pid(Some(n)) == Some(n as u32),
        n > 0xffff_ffff ==> terminal::as_pid(Some(n)) is None,
{
}

/// The compositor's windows are taken in order, those without a process left out.
pub proof fn law_windows_of_the_compositor(document: Seq<u8>, n: nat)
    ensures
        ({
            let before = terminal::windows_in(document, n);
            let after = terminal::windows_in(document, n + 1);
            let at = |field: Seq<char>| ""@ + "/"@ + text::decimal(n) + field;
            let pid = terminal::as_pid(json::integer_at(document, at("/pid"@)));
            &&& terminal::windows_in(document, 0).len() == 0
            &&& pid is None ==> after == before
            &&& pid is Some ==> {
                &&& after.len() == before.len() + 1
                &&& before.is_prefix_of(after)
                &&& after.last().pid == pid->0
                &&& after.last().class == match json::text_at(document, at("/class"@)) {
                    Some(t) => t,
                    None => Seq::empty(),
                }
                &&& after.last().initial_class == match json::text_at(
                    document,
                    at("/initialClass"@),
                ) {
                    Some(t) => t,
                    None => Seq::empty(),
                }
            }
        }),
{
}

/// The lines of tmux's list are taken in order, those that are none left out.
pub proof fn law_lines_of_tmux(lines: Seq<Seq<char>>, n: int)
    requires
        0 < n <= lines.len(),
    ensures
        ({
            let before = terminal::panes_of(lines, n - 1);
            let after = terminal::panes_of(lines, n);
            &&& terminal::panes_of(lines, 0) == Seq::<TmuxPaneView>::empty()
            &&& match terminal::pane_of(lines[n - 1]) {
                Some(p) => after == before.push(p),
                None => after == before,
            }
        }),
{
}

/// The parent of a process is the second word behind the last closing bracket that a blank
/// follows, whatever the program's name before it holds.
pub proof fn law_parent_of_a_process(a: Seq<char>, b: Seq<char>)
    requires
        forall|k: int| k > a.len() ==> !scan::occurs_at(a + ") "@ + b, ") "@, k),
    ensures
        terminal::ppid_in(a + ") "@ + b) == if scan::words(b).len() < 2 {
            None
        } else {
            text::decimal_u32(scan::words(b)[1])
        },
{
    let mark = ") "@;
    let s = a + mark + b;
    let n = a.len() as int;
    reveal_strlit(") ");
    assert(s.subrange(n, n + mark.len()) =~= mark);
    assert(scan::occurs_at(s, mark, n));
    assert forall|k: int| s.len() < k implies !scan::occurs_at(s, mark, k) by {}
    scan::law_last_mark(s, mark, s.len() as int);
    let rest = scan::rest_from(s, mark, s.len() as int)->0;
    let k = choose|k: int| #[trigger]
        scan::occurs_at(s, mark, k) && s == s.take(k) + mark + rest && forall|j: int|
            k < j ==> !scan::occurs_at(s, mark, j);
    assert(k == n) by {
        if k < n {
            assert(!scan::occurs_at(s, mark, n));
        }
    }
    assert(rest =~= b) by {
        assert(s.skip(n + mark.len()) =~= b);
        assert((s.take(k) + mark + rest).skip(n + mark.len()) =~= rest);
    }
}

/// Words are what white space keeps apart.
pub proof fn law_words(s: Seq<char>, w: Seq<char>, c: char)
    requires
        w.len() > 0,
        forall|i: int| 0 <= i < w.len() ==> !text::is_white(#[trigger] w[i]),
        text::is_white(c),
    ensures
        scan::words(w) == seq![w],
        scan::words(s.push(c)) == scan::words(s),
        scan::words(s.push(c) + w) == scan::words(s).push(w),
    decreases w.len(),
{
    assert(s.push(c).drop_last() =~= s);
    let all = s.push(c) + w;
    let l = w.last();
    assert(all.last() == l);
    assert(!text::is_white(w[w.len() - 1]));
    if w.len() == 1 {
        assert(all.drop_last() =~= s.push(c));
        assert(all[all.len() - 2] == c);
        assert(w =~= seq![l]);
        assert(w.drop_last() =~= Seq::<char>::empty());
        assert(scan::words(w.drop_last()) =~= Seq::<Seq<char>>::empty());
        assert(scan::words(w) =~= seq![w]);
    } else {
        let v = w.drop_last();
        assert forall|i: int| 0 <= i < v.len() implies !text::is_white(#[trigger] v[i]) by {
            assert(v[i] == w[i]);
        }
        law_words(s, v, c);
        assert(all.drop_last() =~= s.push(c) + v);
        assert(all[all.len() - 2] == v.last());
        assert(w[w.len() - 2] == v.last());
        assert(!text::is_white(v[v.len() - 1]));
        assert(v.push(l) =~= w);
        assert(scan::words(w) =~= seq![w]);
        assert(scan::words(all) =~= scan::words(s).push(w));
    }
}

/// A layer that is drawn has the area that it is drawn in, and one that is not has none.
pub proof fn law_areas_of_layers(a: AppView, name: Seq<char>)
    requires
        a.rstate.modal is None,
        a.right() != "global-left"@,
        a.center() != Some("global-left"@),
        a.center() != Some(a.right()),
    ensures
        ({
            let drawn = a.plan(a.width, a.height);
            &&& a.area_of("global-left"@) == Some(drawn[0].1)
            &&& a.area_of(a.right()) == Some(drawn.last().1)
            &&& a.center() is Some ==> a.area_of(a.center()->0) == Some(drawn[1].1)
            &&& name != "global-left"@ && name != a.right() && a.center() != Some(name)
                ==> a.area_of(name) is None
        }),
{
}

/// A layer over the bar has the whole bar.
pub proof fn law_area_of_a_layer_over_the_bar(a: AppView, name: Seq<char>)
    requires
        a.rstate.modal == Some(name),
    ensures
        a.area_of(name) matches Some(x) && x.left == 0 && x.width == a.width && x.height
            == a.height,
{
}

/// A process identifier is read from a number that is not zero.
pub proof fn law_stored_process(s: StoreView, k: Seq<char>)
    ensures
        match crate::app::stored_pid(s, k) {
            Some(p) => p != 0 && s.values.contains_key(k) && (s.values[k] matches ValueView::Number(n)
                && n.truncated() == p),
            None => s.values.contains_key(k) ==> (s.values[k] matches ValueView::Number(n)
                ==> n.truncated() == 0),
        },
{
}

/// What is wrong with a read is what the error says: the key is none, or holds nothing, or
/// holds something of another kind than was asked for.
pub proof fn law_faults_of_reading(
    s: StoreView,
    k: Seq<char>,
    asked: Option<crate::store::Expected>,
    e: crate::store::StoreError,
)
    requires
        crate::store::read_fault(s, k, asked, e),
    ensures
        match e {
            crate::store::StoreError::InvalidStateKey => false,
            crate::store::StoreError::Key(_) => !crate::key::valid_key(k),
            crate::store::StoreError::Missing { key } => key@ == k && !s.values.contains_key(k),
            crate::store::StoreError::WrongType { key, expected, found } => {
                &&& key@ == k
                &&& s.values.contains_key(k)
                &&& s.values[k] == found@
                &&& asked == Some(expected)
            },
        },
{
}

/// A level that is read is noted under the key of what it is the level of.
pub proof fn law_read_levels(a: AppView, n: Number)
    requires
        !n.is_nan(),
    ensures
        ({
            let light = a.with_level(crate::widgets::slider::SliderBackend::Brightness, n);
            let keys = a.with_level(crate::widgets::slider::SliderBackend::KbdIllum, n);
            let sound = a.with_level(crate::widgets::slider::SliderBackend::Volume, n);
            &&& light.runtime.number_at("hardware.brightness"@) matches Some(m) && m.same_value(n)
            &&& keys.runtime.number_at("hardware.kbd_illum"@) matches Some(m) && m.same_value(n)
            &&& sound.runtime.number_at("audio.volume"@) matches Some(m) && m.same_value(n)
            &&& light.rstate == a.rstate && light.store == a.store && light.touch == a.touch
        }),
{
    reveal(StoreView::set);
}

/// An error stands on one line, a bar in the place of each line break.
pub proof fn law_error_on_one_line(s: Seq<char>, c: char)
    ensures
        crash::on_one_line(Seq::empty()).len() == 0,
        c != '\n' ==> crash::on_one_line(s.push(c)) == crash::on_one_line(s).push(c),
        c == '\n' ==> crash::on_one_line(s.push(c)) == crash::on_one_line(s) + " | "@,
        crash::ERROR_BYTES == 160,
{
    assert(s.push(c).drop_last() =~= s);
}

/// The bytes that characters take.
pub proof fn law_bytes_of_characters(c: char, s: Seq<char>)
    ensures
        (c as int) < 0x80 ==> crash::utf8_len(c) == 1,
        0x80 <= (c as int) < 0x800 ==> crash::utf8_len(c) == 2,
        0x800 <= (c as int) < 0x1_0000 ==> crash::utf8_len(c) == 3,
        (c as int) >= 0x1_0000 ==> crash::utf8_len(c) == 4,
        crash::utf8_size(s.push(c)) == crash::utf8_size(s) + crash::utf8_len(c),
        crash::utf8_size(Seq::empty()) == 0,
{
    assert(s.push(c).drop_last() =~= s);
}

} // verus!

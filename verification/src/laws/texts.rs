//! Texts, names and messages.
use crate::bridge;
use crate::json;
use crate::key;
use crate::paths;
use crate::scan;
use crate::text;
use crate::titles;
use vstd::prelude::*;

verus! {

/// Lower case has as many characters, each the small letter of an ASCII capital or the
/// character itself.
pub proof fn law_lower_case(s: Seq<char>, i: int)
    requires
        0 <= i < s.len(),
    ensures
        text::lowercase(s).len() == s.len(),
        'A' <= s[i] <= 'Z' ==> text::lowercase(s)[i] as int == s[i] as int + 32,
        !('A' <= s[i] <= 'Z') ==> text::lowercase(s)[i] == s[i],
{
}

/// A text holds another where it is that one with something before it and behind it, and only
/// then.
pub proof fn law_holding(hay: Seq<char>, needle: Seq<char>, a: Seq<char>, b: Seq<char>)
    ensures
        scan::occurs(a + needle + b, needle),
        scan::occurs(hay, needle) ==> exists|i: int|
            0 <= i <= hay.len() - needle.len() && hay == #[trigger] hay.take(i) + needle + hay.skip(
                i + needle.len(),
            ),
{
    let all = a + needle + b;
    let n = a.len() as int;
    assert(all.subrange(n, n + needle.len()) =~= needle);
    assert(scan::occurs_at(all, needle, n));
    if scan::occurs(hay, needle) {
        let i = choose|i: int| scan::occurs_at(hay, needle, i);
        assert(hay =~= hay.take(i) + needle + hay.skip(i + needle.len()));
    }
}

/// A text without white space at its ends is left as it is, and white space around it is left
/// out.
pub proof fn law_white_space_is_left_out(a: Seq<char>, s: Seq<char>, b: Seq<char>)
    requires
        s.len() > 0,
        !text::is_white(s[0]),
        !text::is_white(s.last()),
        forall|i: int| 0 <= i < a.len() ==> text::is_white(#[trigger] a[i]),
        forall|i: int| 0 <= i < b.len() ==> text::is_white(#[trigger] b[i]),
    ensures
        scan::trimmed(a + s + b) == s,
        scan::trimmed(s) == s,
{
    lemma_trim_start(a, s + b);
    assert(a + s + b =~= a + (s + b));
    lemma_trim_end(s, b);
    lemma_trim_end(s, Seq::empty());
    lemma_trim_start(Seq::empty(), s);
    assert(s + Seq::<char>::empty() =~= s);
    assert(Seq::<char>::empty() + s =~= s);
}

proof fn lemma_trim_start(a: Seq<char>, s: Seq<char>)
    requires
        s.len() > 0,
        !text::is_white(s[0]),
        forall|i: int| 0 <= i < a.len() ==> text::is_white(#[trigger] a[i]),
    ensures
        scan::trimmed_start(a + s) == s,
    decreases a.len(),
{
    if a.len() > 0 {
        assert(text::is_white(a[0]));
        assert((a + s)[0] == a[0]);
        assert((a + s).drop_first() =~= a.drop_first() + s);
        lemma_trim_start(a.drop_first(), s);
    } else {
        assert(a + s =~= s);
    }
}

proof fn lemma_trim_end(s: Seq<char>, b: Seq<char>)
    requires
        s.len() > 0,
        !text::is_white(s.last()),
        forall|i: int| 0 <= i < b.len() ==> text::is_white(#[trigger] b[i]),
    ensures
        scan::trimmed_end(s + b) == s,
    decreases b.len(),
{
    if b.len() > 0 {
        assert(text::is_white(b[b.len() - 1]));
        assert((s + b).last() == b.last());
        assert((s + b).drop_last() =~= s + b.drop_last());
        lemma_trim_end(s, b.drop_last());
    } else {
        assert(s + b =~= s);
    }
}

/// White space is what Unicode says: the space, the tab and the line breaks among it, and no
/// letter, digit or mark.
pub proof fn law_white_space(c: char)
    ensures
        text::is_white(' '),
        text::is_white('\t'),
        text::is_white('\n'),
        text::is_white('\r'),
        '!' <= c <= '~' ==> !text::is_white(c),
{
}

/// A number below ten is written with a zero before it where two digits are wanted, and any
/// other as it is.
pub proof fn law_two_digits(n: nat)
    ensures
        n < 10 ==> text::two_digits(n) == seq!['0'] + text::decimal(n),
        n >= 10 ==> text::two_digits(n) == text::decimal(n),
        n < 100 ==> text::two_digits(n).len() == 2,
        n < 10 ==> text::decimal(n) == seq![(48 + n) as char],
        n >= 10 ==> text::decimal(n) == text::decimal(n / 10).push((48 + n % 10) as char),
{
    reveal_with_fuel(text::decimal, 3);
}

/// A title is compared without the count that stands before it in brackets.
pub proof fn law_count_before_a_title(digits: Seq<char>, title: Seq<char>)
    requires
        digits.len() > 0,
        forall|i: int| 0 <= i < digits.len() ==> '0' <= #[trigger] digits[i] <= '9',
        title.len() > 0,
        !text::is_white(title[0]),
        !text::is_white(title.last()),
        title[0] != '(',
    ensures
        titles::normalized(seq!['('] + digits + seq![')', ' '] + title) == titles::normalized(
            title,
        ),
{
    let s = seq!['('] + digits + seq![')', ' '] + title;
    assert(s[0] == '(' && s.last() == title.last());
    law_white_space_is_left_out(Seq::empty(), s, Seq::empty());
    law_white_space_is_left_out(Seq::empty(), title, Seq::empty());
    let rest = s.skip(1);
    scan::lemma_find(rest, ')');
    let n = digits.len() as int;
    assert(rest[n] == ')');
    assert(scan::find(rest, ')') == n) by {
        let k = scan::find(rest, ')') as int;
        if k < n {
            assert(rest[k] == digits[k]);
        }
    }
    assert(rest.take(n) =~= digits);
    assert(rest.skip(n + 1) =~= seq![' '] + title);
    assert(text::all_digits(digits, 10)) by {
        assert forall|i: int| 0 <= i < digits.len() implies (#[trigger] text::digit(digits[i], 10))
            is Some by {}
    }
    lemma_trim_start(seq![' '], title);
    assert(titles::without_count(s) == title);
}

/// A title is compared without the name of the site that stands behind it.
pub proof fn law_site_behind_a_title(title: Seq<char>)
    requires
        title.len() > 0,
        !text::is_white(title[0]),
        !text::is_white(title.last()),
        title[0] != '(',
    ensures
        titles::normalized(title + " - YouTube"@) == titles::normalized(title),
{
    reveal_strlit(" - YouTube");
    let tail = " - YouTube"@;
    let s = title + tail;
    assert(tail.last() == 'e');
    assert(s[0] == title[0] && s.last() == 'e');
    law_white_space_is_left_out(Seq::empty(), s, Seq::empty());
    law_white_space_is_left_out(Seq::empty(), title, Seq::empty());
    assert(s.skip(s.len() - tail.len()) =~= tail);
    assert(s.take(s.len() - tail.len()) =~= title);
    assert(scan::without_suffixes(s, tail) == scan::without_suffixes(title, tail));
}

/// A key is made of parts with dots between them, none empty, of letters, digits, underscores
/// and hyphens; and every such text is a key.
pub proof fn law_keys(k: Seq<char>)
    ensures
        key::valid_key(k) <==> forall|i: int|
            0 <= i < scan::pieces(k, '.').len() ==> (#[trigger] scan::pieces(k, '.')[i]).len() > 0
                && forall|j: int|
                0 <= j < scan::pieces(k, '.')[i].len() ==> {
                    let c = #[trigger] scan::pieces(k, '.')[i][j];
                    'a' <= c <= 'z' || 'A' <= c <= 'Z' || '0' <= c <= '9' || c == '_' || c == '-'
                },
{
    lemma_no_fault(scan::pieces(k, '.'));
    let all = scan::pieces(k, '.');
    assert forall|i: int| 0 <= i < all.len() implies (key::good_segment(#[trigger] all[i]) <==> all[i].len()
        > 0 && forall|j: int|
        0 <= j < all[i].len() ==> {
            let c = #[trigger] all[i][j];
            'a' <= c <= 'z' || 'A' <= c <= 'Z' || '0' <= c <= '9' || c == '_' || c == '-'
        }) by {
        if key::good_segment(all[i]) {
            assert forall|j: int| 0 <= j < all[i].len() implies {
                let c = #[trigger] all[i][j];
                'a' <= c <= 'z' || 'A' <= c <= 'Z' || '0' <= c <= '9' || c == '_' || c == '-'
            } by {
                assert(key::is_key_char(all[i][j]));
            }
        }
    }
}

proof fn lemma_no_fault(segments: Seq<Seq<char>>)
    ensures
        key::first_fault(segments) is None <==> forall|i: int|
            0 <= i < segments.len() ==> key::good_segment(#[trigger] segments[i]),
    decreases segments.len(),
{
    if segments.len() > 0 {
        let rest = segments.drop_first();
        lemma_no_fault(rest);
        if key::good_segment(segments[0]) {
            if key::first_fault(rest) is None {
                assert forall|i: int| 0 <= i < segments.len() implies key::good_segment(
                    #[trigger] segments[i],
                ) by {
                    if i > 0 {
                        assert(segments[i] == rest[i - 1]);
                    }
                }
            } else {
                let i = choose|i: int|
                    0 <= i < rest.len() && !key::good_segment(#[trigger] rest[i]);
                assert(segments[i + 1] == rest[i]);
            }
        }
    }
}

/// Characters in JSON: quotes, backslashes and line breaks are written with a backslash, other
/// control characters by their number, and all others as they are.
pub proof fn law_characters_in_json(c: char)
    ensures
        json::escaped('"') == seq!['\\', '"'],
        json::escaped('\\') == seq!['\\', '\\'],
        json::escaped('\n') == seq!['\\', 'n'],
        json::escaped('\r') == seq!['\\', 'r'],
        json::escaped('\t') == seq!['\\', 't'],
        json::escaped('\u{8}') == seq!['\\', 'b'],
        json::escaped('\u{c}') == seq!['\\', 'f'],
        json::escaped('\u{1}') == seq!['\\', 'u', '0', '0', '0', '1'],
        json::escaped('\u{1f}') == seq!['\\', 'u', '0', '0', '1', 'f'],
        c >= ' ' && c != '"' && c != '\\' ==> json::escaped(c) == seq![c],
{
}

/// A text in JSON stands in quotes, each of its characters written in order.
pub proof fn law_text_in_json(s: Seq<char>, c: char)
    ensures
        json::quoted(Seq::empty()) == "\""@ + "\""@,
        json::escaped_all(s.push(c)) == json::escaped_all(s) + json::escaped(c),
        json::quoted(s) == "\""@ + json::escaped_all(s) + "\""@,
        json::bool_text(true) == "true"@,
        json::bool_text(false) == "false"@,
{
    assert(s.push(c).drop_last() =~= s);
    assert("\""@ + Seq::<char>::empty() + "\""@ =~= "\""@ + "\""@);
}

/// A request to Neovim names its sender and the action, and the database where there is one; to
/// a remote session it is marked as an action.
pub proof fn law_requests_to_neovim(action: Seq<char>, db: Seq<char>)
    ensures
        ({
            let id = json::quoted("id"@) + ":"@ + json::quoted("tiny-dfr"@);
            let act = json::quoted("action"@) + ":"@ + json::quoted(action);
            let base = json::quoted("db_key_name"@) + ":"@ + json::quoted(db);
            &&& bridge::object(bridge::nvim_entries(action, None)) == "{"@ + (id + ","@ + act)
                + "}"@
            &&& bridge::object(bridge::nvim_entries(action, Some(db))) == "{"@ + (id + ","@ + (act
                + ","@ + base)) + "}"@
        }),
{
    let two = bridge::nvim_entries(action, None);
    let three = bridge::nvim_entries(action, Some(db));
    assert(two.drop_first() =~= seq![two[1]]);
    assert(three.drop_first().drop_first() =~= seq![three[2]]);
    assert(scan::joined(seq![two[1]], ","@) == two[1]);
    assert(scan::joined(seq![three[2]], ","@) == three[2]);
    assert(scan::joined(three.drop_first(), ","@) == three[1] + ","@ + scan::joined(
        three.drop_first().drop_first(),
        ","@,
    ));
    assert(scan::joined(two, ","@) == two[0] + ","@ + two[1]);
    assert(scan::joined(three, ","@) == three[0] + ","@ + (three[1] + ","@ + three[2]));
}

/// A request to an application names what it is, the protocol, its sender and the action, in
/// this order.
pub proof fn law_requests_to_applications(
    protocol: Seq<char>,
    action: Seq<char>,
    params: Seq<char>,
)
    ensures
        ({
            let e = bridge::app_entries(protocol, action, None);
            let f = bridge::app_entries(protocol, action, Some(params));
            &&& e.len() == 4
            &&& e[0] == json::quoted("type"@) + ":"@ + json::quoted("action"@)
            &&& e[1] == json::quoted("protocol"@) + ":"@ + json::quoted(protocol)
            &&& e[2] == json::quoted("id"@) + ":"@ + json::quoted("tiny-dfr"@)
            &&& e[3] == json::quoted("action"@) + ":"@ + json::quoted(action)
            &&& f == e.push(json::quoted("params"@) + ":"@ + params)
            &&& crate::app_bridge::PROTOCOL@ == "tiny-dfr.app.v1"@
        }),
{
}

/// A command to a BiDi browser has its number, its method and its parameters.
pub proof fn law_commands_to_browsers(id: u64, method: Seq<char>, params: Seq<char>)
    ensures
        ({
            let number = json::quoted("id"@) + ":"@ + text::decimal(id as nat);
            let name = json::quoted("method"@) + ":"@ + json::quoted(method);
            let rest = json::quoted("params"@) + ":"@ + params;
            crate::browser::command_text(id, method, params) == "{"@ + (number + ","@ + (name + ","@
                + rest)) + "}"@
        }),
{
    let e = seq![
        bridge::entry("id"@, text::decimal(id as nat)),
        bridge::entry("method"@, json::quoted(method)),
        bridge::entry("params"@, params),
    ];
    assert(e.drop_first().drop_first() =~= seq![e[2]]);
    assert(scan::joined(seq![e[2]], ","@) == e[2]);
    assert(scan::joined(e.drop_first(), ","@) == e[1] + ","@ + scan::joined(
        e.drop_first().drop_first(),
        ","@,
    ));
}

/// Paths: a slash stands between a directory and what is below it, and is not doubled; an
/// absolute path stands for itself.
pub proof fn law_paths(dir: Seq<char>, rel: Seq<char>)
    requires
        dir.len() > 0,
    ensures
        rel.len() > 0 && rel[0] == '/' ==> paths::below(dir, rel) == rel,
        !(rel.len() > 0 && rel[0] == '/') && dir.last() == '/' ==> paths::below(dir, rel) == dir
            + rel,
        !(rel.len() > 0 && rel[0] == '/') && dir.last() != '/' ==> paths::below(dir, rel) == dir
            + "/"@ + rel,
{
}

/// A number is read from digits alone, with a plus sign before them at most, and only where it
/// fits.
pub proof fn law_numbers_are_read(s: Seq<char>, i: int)
    ensures
        s.len() == 0 ==> text::decimal_u32(s) is None,
        0 < i < s.len() && !('0' <= s[i] <= '9') ==> text::decimal_u32(s) is None,
        s.len() > 0 && s[0] != '+' && !('0' <= s[0] <= '9') ==> text::decimal_u32(s) is None,
        text::decimal_u32(s) matches Some(n) ==> s.len() > 0 && (s[0] != '+' ==> text::digits_value(
            s,
            10,
        ) == n) && (s[0] == '+' ==> text::digits_value(s.skip(1), 10) == n),
{
    if 0 < i < s.len() && !('0' <= s[i] <= '9') {
        assert(text::digit(s[i], 10) is None);
        assert(s.skip(1)[i - 1] == s[i]);
    }
    if s.len() > 0 && s[0] != '+' && !('0' <= s[0] <= '9') {
        assert(text::digit(s[0], 10) is None);
    }
    if text::all_digits(s, 10) {
        text::lemma_value_not_negative(s, 10);
    }
    if text::all_digits(s.skip(1), 10) {
        text::lemma_value_not_negative(s.skip(1), 10);
    }
}

/// A further digit makes the value of digits ten times as much, and adds its own.
pub proof fn law_value_of_digits(s: Seq<char>, c: char)
    requires
        '0' <= c <= '9',
    ensures
        text::digits_value(Seq::empty(), 10) == 0,
        text::digits_value(s.push(c), 10) == 10 * text::digits_value(s, 10) + (c as int - 48),
{
    assert(s.push(c).drop_last() =~= s);
}

/// Texts are ordered by their first different characters, and a text comes before those that it
/// begins.
pub proof fn law_order_of_texts(a: Seq<char>, b: Seq<char>, common: Seq<char>)
    ensures
        crate::order::no_later(common, common + b),
        a.len() > 0 && b.len() > 0 && (a[0] as int) < (b[0] as int) ==> crate::order::no_later(
            common + a,
            common + b,
        ) && !crate::order::no_later(common + b, common + a),
    decreases common.len(),
{
    if common.len() > 0 {
        let rest = common.drop_first();
        law_order_of_texts(a, b, rest);
        assert((common + a).drop_first() =~= rest + a);
        assert((common + b).drop_first() =~= rest + b);
        assert((common + a)[0] == common[0] && (common + b)[0] == common[0]);
    } else {
        assert(common + a =~= a);
        assert(common + b =~= b);
    }
}

/// The session's directory is the one that it names, and the user's otherwise.
pub proof fn law_directory_of_the_session(dir: Seq<char>, uid: u32)
    ensures
        paths::runtime_dir_of(Some(dir), uid) == dir,
        paths::runtime_dir_of(None, uid) == "/run/user/"@ + text::decimal(uid as nat),
{
}

} // verus!

//! Window titles and what they say of the media that plays.
use crate::scan;
use crate::text;
use vstd::prelude::*;

verus! {

/// A title without a number of notifications in front, such as `(695) `.
pub open spec fn without_count(title: Seq<char>) -> Seq<char> {
    if title.len() > 0 && title[0] == '(' {
        match scan::cut_once(title.skip(1), ')') {
            Some((digits, after)) => if digits.len() > 0 && text::all_digits(digits, 10) {
                scan::trimmed_start(after)
            } else {
                title
            },
            None => title,
        }
    } else {
        title
    }
}

/// A title without what browsers add to it, in lower case.
pub open spec fn normalized(title: Seq<char>) -> Seq<char> {
    let bare = without_count(scan::trimmed(title));
    let a = scan::without_suffixes(bare, " - YouTube"@);
    let b = scan::without_suffixes(a, " – YouTube"@);
    let c = scan::without_suffixes(b, " — YouTube"@);
    text::lowercase(c)
}

/// Whether two titles are probably those of the same page: one contains the other.
pub open spec fn probably_match(a: Seq<char>, b: Seq<char>) -> bool {
    let x = normalized(a);
    let y = normalized(b);
    x.len() > 0 && y.len() > 0 && (scan::occurs(y, x) || scan::occurs(x, y))
}

/// A title without a number of notifications in front.
fn strip_count(title: &str) -> (r: String)
    ensures
        r@ == without_count(title@),
{
    let chars = text::chars_of(title);
    if chars.len() == 0 || chars[0] != '(' {
        return title.to_string();
    }
    let rest = text::text_of(&chars, 1, chars.len());
    assert(rest@ =~= title@.skip(1));
    match scan::split_once(rest.as_str(), ')') {
        Some((digits, after)) => {
            if is_number(digits.as_str()) {
                scan::trim_start(after.as_str())
            } else {
                title.to_string()
            }
        },
        None => title.to_string(),
    }
}

/// Whether a text is made of digits and not empty.
fn is_number(s: &str) -> (r: bool)
    ensures
        r == (s@.len() > 0 && text::all_digits(s@, 10)),
{
    let chars = text::chars_of(s);
    let mut i: usize = 0;
    while i < chars.len()
        invariant
            0 <= i <= chars@.len(),
            chars@ == s@,
            forall|k: int| 0 <= k < i ==> (#[trigger] text::digit(chars@[k], 10)) is Some,
        decreases chars@.len() - i,
    {
        if text::digit_value(chars[i], 10).is_none() {
            assert(text::digit(s@[i as int], 10) is None);
            return false;
        }
        i += 1;
    }
    chars.len() > 0
}

/// A title without what browsers add to it, in lower case.
pub fn normalize_media_title(title: &str) -> (r: String)
    ensures
        r@ == normalized(title@),
{
    let bare = strip_count(scan::trim(title).as_str());
    let a = scan::trim_end_matches(bare.as_str(), " - YouTube");
    let b = scan::trim_end_matches(a.as_str(), " – YouTube");
    let c = scan::trim_end_matches(b.as_str(), " — YouTube");
    text::to_lowercase(c.as_str())
}

/// Whether two titles are probably those of the same page.
pub fn titles_probably_match(media_title: &str, focused_title: &str) -> (r: bool)
    ensures
        r == probably_match(media_title@, focused_title@),
{
    let media = normalize_media_title(media_title);
    let focused = normalize_media_title(focused_title);
    !text::is_empty(media.as_str()) && !text::is_empty(focused.as_str()) && (scan::contains(
        focused.as_str(),
        media.as_str(),
    ) || scan::contains(media.as_str(), focused.as_str()))
}

/// Whether a media player is Chromium.
pub open spec fn chromium_player(player: Seq<char>) -> bool {
    let name = text::lowercase(player);
    scan::occurs(name, "chromium"@) || scan::occurs(name, "chrome"@)
}

/// Whether a media player is Chromium.
pub fn media_is_chromium(player: &str) -> (r: bool)
    ensures
        r == chromium_player(player@),
{
    let name = text::to_lowercase(player);
    scan::contains(name.as_str(), "chromium") || scan::contains(name.as_str(), "chrome")
}

/// Which of two titles is given first does not matter.
pub proof fn law_match_is_symmetric(a: Seq<char>, b: Seq<char>)
    ensures
        probably_match(a, b) == probably_match(b, a),
{
}

/// A title matches itself, unless nothing is left of it.
pub proof fn law_title_matches_itself(a: Seq<char>)
    ensures
        probably_match(a, a) == (normalized(a).len() > 0),
{
    let x = normalized(a);
    assert(x.subrange(0, x.len() as int) =~= x);
    assert(scan::occurs_at(x, x, 0));
}

} // verus!

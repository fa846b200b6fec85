//! The tab strip: one chip for each of the browser's tabs.
use crate::action;
use crate::action::{Action, ActionView};
use crate::key;
use crate::scan;
use crate::store::{Store, StoreView};
use crate::text;
use image::imageops::FilterType;
use image::ImageReader;
use std::io::Cursor;
use vstd::prelude::*;

verus! {

/// The most chips that are shown.
pub const MAX_VISIBLE_TABS: usize = 8;

/// The side of a tab's icon, in pixels.
pub const FAVICON_SIZE: usize = 32;

/// A tab, as the strip shows it.
#[derive(Debug)]
pub struct BrowserTab {
    pub id: String,
    pub title: String,
    pub url: String,
    pub favicon_url: String,
    pub active: bool,
}

/// Where the first active tab stands, or the number of tabs where none is active.
pub open spec fn first_active(tabs: Seq<BrowserTab>) -> nat
    decreases tabs.len(),
{
    if tabs.len() == 0 || tabs[0].active {
        0
    } else {
        1 + first_active(tabs.drop_first())
    }
}

/// How many of `count` chips there is room for, where `by_width` have room at their least
/// width.
pub open spec fn shown(by_width: usize, count: nat) -> nat {
    let room = if by_width < MAX_VISIBLE_TABS {
        by_width as nat
    } else {
        MAX_VISIBLE_TABS as nat
    };
    if count < room {
        count
    } else {
        room
    }
}

/// The tabs whose chips are shown: the first ones, the active tab taking the last place
/// where it is not among them.
pub open spec fn chosen(tabs: Seq<BrowserTab>, visible: nat) -> Seq<usize> {
    if visible >= tabs.len() {
        Seq::new(tabs.len(), |i: int| i as usize)
    } else {
        let first = Seq::new(visible, |i: int| i as usize);
        let active = first_active(tabs);
        if active < tabs.len() && active >= visible && visible > 0 {
            first.update(visible - 1, active as usize)
        } else {
            first
        }
    }
}

/// The first position in `hits` that is true, among the first `n`.
pub open spec fn first_hit(hits: Seq<bool>, n: nat) -> Option<nat>
    decreases n,
{
    if n == 0 {
        None
    } else {
        match first_hit(hits, (n - 1) as nat) {
            Some(i) => Some(i),
            None => if n <= hits.len() && hits[n - 1] {
                Some((n - 1) as nat)
            } else {
                None
            },
        }
    }
}

/// The first position in `hits` that is true, among the first `n`.
pub fn find_hit(hits: &Vec<bool>, n: usize) -> (r: Option<usize>)
    ensures
        match r {
            Some(i) => first_hit(hits@, n as nat) == Some(i as nat) && i < n && i < hits@.len(),
            None => first_hit(hits@, n as nat) is None,
        },
{
    let mut i: usize = 0;
    while i < n
        invariant
            i <= n,
            first_hit(hits@, i as nat) is None,
        decreases n - i,
    {
        if i < hits.len() && hits[i] {
            assert(first_hit(hits@, (i + 1) as nat) == Some(i as nat));
            proof {
                lemma_first_hit_stays(hits@, (i + 1) as nat, n as nat);
            }
            return Some(i);
        }
        i += 1;
    }
    None
}

/// A hit among the first chips is the first among more.
proof fn lemma_first_hit_stays(hits: Seq<bool>, a: nat, b: nat)
    requires
        a <= b,
        first_hit(hits, a) is Some,
    ensures
        first_hit(hits, b) == first_hit(hits, a),
    decreases b,
{
    if a < b {
        lemma_first_hit_stays(hits, a, (b - 1) as nat);
    }
}

/// Where the finger is on one chip alone, that is the one it hits.
pub proof fn lemma_only_hit(hits: Seq<bool>, n: nat, i: int)
    requires
        0 <= i < hits.len(),
        i < n,
        forall|j: int| 0 <= j < hits.len() ==> #[trigger] hits[j] == (j == i),
    ensures
        first_hit(hits, n) == Some(i as nat),
    decreases n,
{
    if n > i + 1 {
        lemma_only_hit(hits, (n - 1) as nat, i);
    } else {
        lemma_before_hit(hits, i as nat, i);
    }
}

proof fn lemma_before_hit(hits: Seq<bool>, n: nat, i: int)
    requires
        n <= i < hits.len(),
        forall|j: int| 0 <= j < hits.len() ==> #[trigger] hits[j] == (j == i),
    ensures
        first_hit(hits, n) is None,
    decreases n,
{
    if n > 0 {
        lemma_before_hit(hits, (n - 1) as nat, i);
        assert(!hits[n - 1]);
    }
}

/// Where the finger is on no chip, it hits none.
pub proof fn lemma_no_hit(hits: Seq<bool>, n: nat)
    requires
        forall|j: int| 0 <= j < hits.len() ==> !(#[trigger] hits[j]),
    ensures
        first_hit(hits, n) is None,
    decreases n,
{
    if n > 0 {
        lemma_no_hit(hits, (n - 1) as nat);
    }
}

/// How many of `count` chips are shown where `by_width` have room.
pub fn visible_count(by_width: usize, count: usize) -> (r: usize)
    ensures
        r == shown(by_width, count as nat),
{
    let room: usize = if by_width < MAX_VISIBLE_TABS {
        by_width
    } else {
        MAX_VISIBLE_TABS
    };
    if count < room {
        count
    } else {
        room
    }
}

/// Where the first active tab stands, or the number of tabs where none is active.
fn find_active(tabs: &Vec<BrowserTab>) -> (r: usize)
    ensures
        r == first_active(tabs@),
        r <= tabs@.len(),
{
    let mut i: usize = 0;
    assert(tabs@.skip(0) =~= tabs@);
    while i < tabs.len()
        invariant
            0 <= i <= tabs@.len(),
            first_active(tabs@) == i + first_active(tabs@.skip(i as int)),
        decreases tabs@.len() - i,
    {
        assert(tabs@.skip(i as int)[0] == tabs@[i as int]);
        if tabs[i].active {
            return i;
        }
        assert(tabs@.skip(i as int).drop_first() =~= tabs@.skip(i + 1));
        i += 1;
    }
    i
}

/// The tabs whose chips are shown.
pub fn visible_indices(tabs: &Vec<BrowserTab>, visible: usize) -> (r: Vec<usize>)
    ensures
        r@ == chosen(tabs@, visible as nat),
{
    let total = tabs.len();
    let count: usize = if visible >= total {
        total
    } else {
        visible
    };
    let mut out: Vec<usize> = Vec::new();
    let mut i: usize = 0;
    while i < count
        invariant
            i <= count,
            out@ == Seq::new(i as nat, |k: int| k as usize),
        decreases count - i,
    {
        out.push(i);
        i += 1;
        assert(out@ =~= Seq::new(i as nat, |k: int| k as usize));
    }
    if visible < total {
        let active = find_active(tabs);
        if active < total && active >= visible && visible > 0 {
            out.set(visible - 1, active);
        }
    }
    out
}

/// The tab strip.
#[derive(Clone, Copy, Debug)]
pub struct BrowserTabsWidget {
    /// Whether the strip has to be drawn again.
    pub changed: bool,
}

/// What a strip of chips shows.
#[derive(Debug)]
pub enum StripPicture {
    /// A notice in place of the chips.
    Notice(String),
    /// Chips, each given by the position of what it stands for.
    Chips(Vec<usize>),
}

/// What a strip of chips shows, its text taken as a sequence.
pub enum StripView {
    Notice(Seq<char>),
    Chips(Seq<usize>),
}

impl View for StripPicture {
    type V = StripView;

    open spec fn view(&self) -> StripView {
        match *self {
            StripPicture::Notice(t) => StripView::Notice(t@),
            StripPicture::Chips(c) => StripView::Chips(c@),
        }
    }
}

/// What the tab strip shows: that the browser gives no tabs, that there are none, or a chip
/// for each tab that there is room for.
pub open spec fn tabs_picture(store: StoreView, tabs: Seq<BrowserTab>, by_width: usize) -> StripView {
    if !store.is_true(key::BROWSER_TABS_AVAILABLE@) {
        StripView::Notice("Browser tabs unavailable"@)
    } else if tabs.len() == 0 {
        StripView::Notice("No browser tabs"@)
    } else {
        StripView::Chips(chosen(tabs, shown(by_width, tabs.len())))
    }
}

/// What a press on the strip asks for, where the finger is on the chips that `hits` marks.
pub open spec fn tab_action(tabs: Seq<BrowserTab>, by_width: usize, hits: Seq<bool>) -> Option<
    ActionView,
> {
    let indices = chosen(tabs, shown(by_width, tabs.len()));
    match first_hit(hits, shown(by_width, indices.len())) {
        Some(i) => Some(ActionView::BrowserActivateTab(tabs[indices[i as int] as int].id@)),
        None => None,
    }
}

impl BrowserTabsWidget {
    /// Whether the strip has to be drawn again.
    pub open spec fn stale(self, store: StoreView) -> bool {
        ||| self.changed
        ||| store.dirty.contains(key::BROWSER_TABS_AVAILABLE@)
        ||| store.dirty.contains(key::BROWSER_TABS_JSON@)
        ||| store.dirty.contains(key::BROWSER_TABS_ACTIVE_INDEX@)
    }

    /// The strip after a press.
    pub open spec fn pressed(
        self,
        tabs: Seq<BrowserTab>,
        by_width: usize,
        hits: Seq<bool>,
    ) -> BrowserTabsWidget {
        BrowserTabsWidget { changed: self.changed || tab_action(tabs, by_width, hits) is Some }
    }

    /// A strip that has not been drawn.
    pub fn new() -> (r: BrowserTabsWidget)
        ensures
            r.changed,
    {
        BrowserTabsWidget { changed: true }
    }

    /// Whether the strip has to be drawn again.
    pub fn needs_redraw(&self, store: &Store) -> (r: bool)
        requires
            store.wf(),
        ensures
            r == self.stale(store@),
    {
        self.changed || store.changed(key::BROWSER_TABS_AVAILABLE) || store.changed(
            key::BROWSER_TABS_JSON,
        ) || store.changed(key::BROWSER_TABS_ACTIVE_INDEX)
    }

    /// What the strip shows, where the store's tabs are `tabs` and `by_width` chips have room.
    pub fn picture(&self, store: &Store, tabs: &Vec<BrowserTab>, by_width: usize) -> (r: StripPicture)
        requires
            store.wf(),
        ensures
            r@ == tabs_picture(store@, tabs@, by_width),
    {
        proof {
            key::law_built_in_keys_are_valid();
        }
        if !store.holds_true(key::BROWSER_TABS_AVAILABLE) {
            StripPicture::Notice("Browser tabs unavailable".to_string())
        } else if tabs.len() == 0 {
            StripPicture::Notice("No browser tabs".to_string())
        } else {
            StripPicture::Chips(visible_indices(tabs, visible_count(by_width, tabs.len())))
        }
    }

    /// A press on a chip brings its tab to the front. `hits` says for each chip whether
    /// the finger is on it.
    pub fn on_press(&mut self, tabs: &Vec<BrowserTab>, by_width: usize, hits: &Vec<bool>) -> (r:
        Option<Action>)
        ensures
            action::opt_action(r) == tab_action(tabs@, by_width, hits@),
            *final(self) == old(self).pressed(tabs@, by_width, hits@),
    {
        let indices = visible_indices(tabs, visible_count(by_width, tabs.len()));
        match find_hit(hits, visible_count(by_width, indices.len())) {
            Some(i) => {
                self.changed = true;
                proof {
                    lemma_first_active(tabs@);
                }
                Some(Action::BrowserActivateTab(tabs[indices[i]].id.clone()))
            },
            None => None,
        }
    }

    /// Notes that the strip has been drawn.
    pub fn drawn(&mut self)
        ensures
            !final(self).changed,
    {
        self.changed = false;
    }
}

/// What `first_active` gives is a tab that is active, or the end.
pub proof fn lemma_first_active(tabs: Seq<BrowserTab>)
    ensures
        first_active(tabs) <= tabs.len(),
        first_active(tabs) < tabs.len() ==> tabs[first_active(tabs) as int].active,
    decreases tabs.len(),
{
    if tabs.len() > 0 && !tabs[0].active {
        lemma_first_active(tabs.drop_first());
    }
}

/// The first tab that is active is where `first_active` says.
pub proof fn lemma_first_active_is(tabs: Seq<BrowserTab>, k: int)
    requires
        0 <= k < tabs.len(),
        tabs[k].active,
        forall|j: int| 0 <= j < k ==> !(#[trigger] tabs[j]).active,
    ensures
        first_active(tabs) == k,
    decreases k,
{
    if k > 0 {
        assert(!tabs[0].active);
        let rest = tabs.drop_first();
        assert forall|j: int| 0 <= j < k - 1 implies !(#[trigger] rest[j]).active by {
            assert(rest[j] == tabs[j + 1]);
        }
        lemma_first_active_is(rest, k - 1);
    }
}

/// However little room there is, the active tab has a chip, and every chip has a tab.
pub proof fn law_active_tab_is_shown(tabs: Seq<BrowserTab>, by_width: usize)
    requires
        by_width > 0,
        tabs.len() <= usize::MAX,
    ensures
        chosen(tabs, shown(by_width, tabs.len())).len() == shown(by_width, tabs.len()),
        forall|i: int|
            0 <= i < chosen(tabs, shown(by_width, tabs.len())).len() ==> (#[trigger] chosen(
                tabs,
                shown(by_width, tabs.len()),
            )[i]) < tabs.len(),
        first_active(tabs) < tabs.len() ==> chosen(tabs, shown(by_width, tabs.len())).contains(
            first_active(tabs) as usize,
        ),
{
    lemma_first_active(tabs);
    let visible = shown(by_width, tabs.len());
    let all = chosen(tabs, visible);
    let active = first_active(tabs);
    if active < tabs.len() {
        if active < visible {
            assert(all[active as int] == active as usize);
        } else {
            assert(all[visible - 1] == active as usize);
        }
    }
}

/// The text on the chip of a tab with the given title and address.
pub open spec fn title_on_chip(title: Seq<char>, url: Seq<char>) -> Seq<char> {
    if scan::trimmed(title).len() == 0 {
        url
    } else {
        title
    }
}

/// What is done for the icon at an address.
pub open spec fn plan_for_icon(url: Seq<char>) -> FaviconPlan {
    if scan::trimmed(url).len() == 0 {
        FaviconPlan::Nothing
    } else if "data:"@.is_prefix_of(url) {
        FaviconPlan::Unsupported
    } else {
        FaviconPlan::Fetch
    }
}

/// The text on a tab's chip: its title, or its address where the title is blank.
pub fn chip_title(tab: &BrowserTab) -> (r: String)
    ensures
        r@ == title_on_chip(tab.title@, tab.url@),
{
    if text::is_empty(scan::trim(tab.title.as_str()).as_str()) {
        tab.url.clone()
    } else {
        tab.title.clone()
    }
}

// ---------------------------------------------------------------------------
// Icons
// ---------------------------------------------------------------------------

/// What is to be done to get a tab's icon.
#[derive(Clone, Copy, Debug, PartialEq, Eq, Structural)]
pub enum FaviconPlan {
    /// The tab has no icon.
    Nothing,
    /// The icon is written into the address itself, which is not supported.
    Unsupported,
    /// The icon is to be fetched.
    Fetch,
}

/// What is to be done to get the icon with the given address.
pub fn favicon_plan(url: &str) -> (r: FaviconPlan)
    ensures
        r == plan_for_icon(url@),
{
    if text::is_empty(scan::trim(url).as_str()) {
        FaviconPlan::Nothing
    } else if scan::starts_with(url, "data:") {
        FaviconPlan::Unsupported
    } else {
        FaviconPlan::Fetch
    }
}

/// Whether `image::ImageReader` can read an image from the given bytes.
pub uninterp spec fn image_decodes(bytes: Seq<u8>) -> bool;

/// Calls `image::ImageReader::decode` on the bytes, with the format guessed from them, then
/// `image::DynamicImage::resize_exact` with a Lanczos filter, and `into_rgba8`. Whether that
/// gives an image is a function of the bytes. The image has the given size and four bytes
/// for each pixel; what they are is left open, since the filter's weights are floating-point
/// numbers that may differ between machines.
#[verifier::external_body]
fn decode_image(bytes: &Vec<u8>, width: u16, height: u16) -> (r: Option<Vec<u8>>)
    requires
        0 < width,
        0 < height,
    ensures
        r is Some <==> image_decodes(bytes@),
        r matches Some(pixels) ==> pixels@.len() == 4 * width * height,
{
    let reader = ImageReader::new(Cursor::new(bytes.as_slice())).with_guessed_format().ok()?;
    let (w, h) = (u32::from(width), u32::from(height));
    Some(reader.decode().ok()?.resize_exact(w, h, FilterType::Lanczos3).into_rgba8().into_raw())
}

/// A colour channel multiplied by its pixel's opacity, rounded to the nearest.
pub open spec fn scaled(channel: u8, alpha: u8) -> u8 {
    ((channel as int * alpha as int + 127) / 255) as u8
}

/// The bytes of one pixel in the order blue, green, red, opacity, the colours multiplied
/// by the opacity. `at` is where its bytes in the order red, green, blue, opacity begin.
pub open spec fn pixel(rgba: Seq<u8>, at: int) -> Seq<u8> {
    seq![
        scaled(rgba[at + 2], rgba[at + 3]),
        scaled(rgba[at + 1], rgba[at + 3]),
        scaled(rgba[at], rgba[at + 3]),
        rgba[at + 3],
    ]
}

/// The byte at position `i` of an image of the given width whose rows take `stride` bytes.
pub open spec fn surface_byte(rgba: Seq<u8>, width: int, stride: int, i: int) -> u8 {
    let y = i / stride;
    let x = (i % stride) / 4;
    if x < width {
        pixel(rgba, (y * width + x) * 4)[i % stride % 4]
    } else {
        0
    }
}

/// A colour channel multiplied by its pixel's opacity, rounded to the nearest.
fn scale(channel: u8, alpha: u8) -> (r: u8)
    ensures
        r == scaled(channel, alpha),
{
    proof {
        assert(0 <= channel as int * alpha as int <= 255 * 255) by (nonlinear_arith)
            requires
                0 <= channel <= 255,
                0 <= alpha <= 255,
        ;
    }
    let product: u32 = channel as u32 * alpha as u32;
    ((product + 127) / 255) as u8
}

/// The image with the given pixels as a surface is drawn from: the colours multiplied by the
/// opacity, in the order blue, green, red, opacity, each row filled up with zeros to
/// `stride` bytes.
pub fn premultiply(rgba: &Vec<u8>, width: usize, height: usize, stride: usize) -> (r: Vec<u8>)
    requires
        4 * width <= stride,
        stride % 4 == 0,
        0 < stride,
        rgba@.len() >= 4 * width * height,
        stride * height <= usize::MAX,
    ensures
        r@.len() == stride * height,
        forall|i: int|
            0 <= i < r@.len() ==> #[trigger] r@[i] == surface_byte(
                rgba@,
                width as int,
                stride as int,
                i,
            ),
{
    let total = rgba.len();
    let mut out: Vec<u8> = Vec::new();
    let mut y: usize = 0;
    while y < height
        invariant
            y <= height,
            total == rgba@.len(),
            4 * width <= stride,
            stride % 4 == 0,
            0 < stride,
            rgba@.len() >= 4 * width * height,
            stride * height <= usize::MAX,
            out@.len() == stride * y,
            forall|i: int|
                0 <= i < out@.len() ==> #[trigger] out@[i] == surface_byte(
                    rgba@,
                    width as int,
                    stride as int,
                    i,
                ),
        decreases height - y,
    {
        let mut x: usize = 0;
        let quads = stride / 4;
        while x < quads
            invariant
                x <= quads,
                quads * 4 == stride,
                total == rgba@.len(),
                y < height,
                4 * width <= stride,
                0 < stride,
                rgba@.len() >= 4 * width * height,
                stride * height <= usize::MAX,
                out@.len() == stride * y + 4 * x,
                forall|i: int|
                    0 <= i < out@.len() ==> #[trigger] out@[i] == surface_byte(
                        rgba@,
                        width as int,
                        stride as int,
                        i,
                    ),
            decreases quads - x,
        {
            let ghost before = out@;
            proof {
                assert(stride * y + stride <= stride * height) by (nonlinear_arith)
                    requires
                        y < height,
                ;
                lemma_places(stride as int, y as int, x as int);
            }
            if x < width {
                proof {
                    assert(0 <= width * y && width * y + width <= width * height)
                        by (nonlinear_arith)
                        requires
                            0 <= y < height,
                    ;
                    assert(4 * width * height == 4 * (width * height)) by (nonlinear_arith);
                    assert(y * width == width * y) by (nonlinear_arith);
                }
                let at = (y * width + x) * 4;
                let a = rgba[at + 3];
                out.push(scale(rgba[at + 2], a));
                out.push(scale(rgba[at + 1], a));
                out.push(scale(rgba[at], a));
                out.push(a);
            } else {
                out.push(0);
                out.push(0);
                out.push(0);
                out.push(0);
            }
            proof {
                let start = stride * y + 4 * x;
                assert forall|i: int| 0 <= i < out@.len() implies #[trigger] out@[i]
                    == surface_byte(rgba@, width as int, stride as int, i) by {
                    if i < start {
                        assert(out@[i] == before[i]);
                    } else {
                        let k = i - start;
                        assert(k == 0 || k == 1 || k == 2 || k == 3);
                        assert(i == stride * y + 4 * x + k);
                        assert((stride * y + 4 * x + k) / (stride as int) == y);
                        assert(i / (stride as int) == y);
                        assert(i % (stride as int) == 4 * x + k);
                    }
                }
            }
            x += 1;
        }
        proof {
            assert(stride * (y + 1) == stride * y + stride) by (nonlinear_arith);
        }
        y += 1;
    }
    out
}

/// Where the four bytes of a pixel stand.
pub proof fn lemma_places(stride: int, y: int, x: int)
    requires
        0 < stride,
        stride % 4 == 0,
        0 <= y,
        0 <= x < stride / 4,
    ensures
        forall|k: int|
            #![trigger (stride * y + 4 * x + k) / stride]
            0 <= k < 4 ==> (stride * y + 4 * x + k) / stride == y && (stride * y + 4 * x + k)
                % stride == 4 * x + k && (4 * x + k) / 4 == x && (4 * x + k) % 4 == k,
{
    assert forall|k: int|
        #![trigger (stride * y + 4 * x + k) / stride]
        0 <= k < 4 implies (stride * y + 4 * x + k) / stride == y && (stride * y + 4 * x + k)
        % stride == 4 * x + k && (4 * x + k) / 4 == x && (4 * x + k) % 4 == k by {
        let rest = 4 * x + k;
        assert(0 <= rest < stride);
        vstd::arithmetic::div_mod::lemma_fundamental_div_mod_converse(
            stride * y + rest,
            stride,
            y,
            rest,
        );
    }
}

/// The icon in the given bytes, as a surface of 32 by 32 pixels is drawn from, where an
/// image can be read from them.
pub fn favicon(bytes: &Vec<u8>, stride: usize) -> (r: Option<Vec<u8>>)
    requires
        4 * FAVICON_SIZE <= stride <= usize::MAX / FAVICON_SIZE,
        stride % 4 == 0,
    ensures
        r is Some <==> image_decodes(bytes@),
        r matches Some(data) ==> exists|rgba: Seq<u8>|
            rgba.len() == 4 * FAVICON_SIZE * FAVICON_SIZE && data@ == Seq::new(
                (stride * FAVICON_SIZE) as nat,
                |i: int| surface_byte(rgba, FAVICON_SIZE as int, stride as int, i),
            ),
{
    match decode_image(bytes, FAVICON_SIZE as u16, FAVICON_SIZE as u16) {
        Some(rgba) => {
            let data = premultiply(&rgba, FAVICON_SIZE, FAVICON_SIZE, stride);
            assert(data@ =~= Seq::new(
                (stride * FAVICON_SIZE) as nat,
                |i: int| surface_byte(rgba@, FAVICON_SIZE as int, stride as int, i),
            ));
            Some(data)
        },
        None => None,
    }
}

/// A colour multiplied by an opacity is never stronger than the opacity.
pub proof fn law_premultiplied_is_at_most_alpha(channel: u8, alpha: u8)
    ensures
        scaled(channel, alpha) <= alpha,
        scaled(channel, 255) == channel,
        scaled(channel, 0) == 0,
{
    assert(channel as int * alpha as int <= 255 * alpha as int) by (nonlinear_arith)
        requires
            0 <= channel <= 255,
            0 <= alpha,
    ;
    assert(channel as int * alpha as int >= 0) by (nonlinear_arith)
        requires
            0 <= channel,
            0 <= alpha,
    ;
}

} // verus!

//! Indicators: the clock and the battery, which are read and not touched.
use crate::scan;
use crate::text;
use crate::widgets::button;
use crate::widgets::button::{IconRequest, IconView, DEFAULT_ICON_SIZE};
use chrono::format::{Item, Numeric, StrftimeItems};
use chrono::Locale;
use vstd::prelude::*;

verus! {

// ---------------------------------------------------------------------------
// The clock
// ---------------------------------------------------------------------------

/// The parts of a time format that change more often than once a minute, and the rest.
#[derive(Clone, Copy, Debug, PartialEq, Eq, Structural)]
pub enum ClockItem {
    Second,
    Nanosecond,
    Timestamp,
    Other,
}

/// What `chrono::format::StrftimeItems::parse_to_owned` makes of a format: the parts, or
/// nothing where the format is not valid.
pub uninterp spec fn strftime_items(format: Seq<char>) -> Option<Seq<ClockItem>>;

/// What an optional list of clock items holds.
pub open spec fn opt_items(items: Option<Vec<ClockItem>>) -> Option<Seq<ClockItem>> {
    match items {
        Some(v) => Some(v@),
        None => None,
    }
}

/// Calls `chrono::format::StrftimeItems::parse_to_owned` on the format and tells the
/// numbers that change within a minute from the other parts. The contract says only that
/// the outcome is a function of the format.
#[verifier::external_body]
fn parse_format(format: &str) -> (r: Option<Vec<ClockItem>>)
    ensures
        opt_items(r) == strftime_items(format@),
{
    let items = StrftimeItems::new(format).parse_to_owned().ok()?;
    Some(items.iter().map(|item| match item {
        Item::Numeric(Numeric::Second, _) => ClockItem::Second,
        Item::Numeric(Numeric::Nanosecond, _) => ClockItem::Nanosecond,
        Item::Numeric(Numeric::Timestamp, _) => ClockItem::Timestamp,
        _ => ClockItem::Other,
    }).collect())
}

/// Whether `chrono::Locale` knows a locale of this name.
pub uninterp spec fn locale_known(name: Seq<char>) -> bool;

/// Calls `chrono::Locale::try_from` on the name. The contract says only that the outcome
/// is a function of the name.
#[verifier::external_body]
fn is_locale(name: &str) -> (r: bool)
    ensures
        r == locale_known(name@),
{
    Locale::try_from(name).is_ok()
}

/// The time of day, in a configured format.
#[derive(Debug)]
pub struct ClockIndicator {
    /// The format, in `strftime` notation.
    pub format: String,
    /// The parts of the format.
    pub items: Vec<ClockItem>,
    /// The locale of the names of days and months.
    pub locale: String,
}

/// A clock, its texts taken as sequences.
pub struct ClockView {
    pub format: Seq<char>,
    pub items: Seq<ClockItem>,
    pub locale: Seq<char>,
}

impl View for ClockIndicator {
    type V = ClockView;

    open spec fn view(&self) -> ClockView {
        ClockView { format: self.format@, items: self.items@, locale: self.locale@ }
    }
}

/// The format that a configured one stands for.
pub open spec fn full_format(format: Seq<char>) -> Seq<char> {
    if format == "24hr"@ {
        "%H:%M    %a %-e %b"@
    } else if format == "12hr"@ {
        "%-l:%M %p    %a %-e %b"@
    } else {
        format
    }
}

/// The locale to use where `locale` is configured: itself where it is known.
pub open spec fn chosen_locale(locale: Option<Seq<char>>, known: bool) -> Seq<char> {
    if locale is Some && known {
        locale->0
    } else {
        "POSIX"@
    }
}

/// Whether any part of a format changes within a minute.
pub open spec fn ticks_by_second(items: Seq<ClockItem>) -> bool {
    exists|i: int| 0 <= i < items.len() && #[trigger] items[i] != ClockItem::Other
}

impl ClockIndicator {
    /// A clock in the given format, where that is a valid one.
    pub fn new(format: &str, locale: Option<String>) -> (r: Option<ClockIndicator>)
        ensures
            r is Some <==> strftime_items(full_format(format@)) is Some,
            r matches Some(c) ==> c@ == (ClockView {
                format: full_format(format@),
                items: strftime_items(full_format(format@))->0,
                locale: chosen_locale(
                    text::opt_text(locale),
                    locale is Some && locale_known(text::opt_text(locale)->0),
                ),
            }),
    {
        let full = if text::same(format, "24hr") {
            "%H:%M    %a %-e %b".to_string()
        } else if text::same(format, "12hr") {
            "%-l:%M %p    %a %-e %b".to_string()
        } else {
            format.to_string()
        };
        let items = parse_format(full.as_str());
        let known = match &locale {
            Some(l) => is_locale(l.as_str()),
            None => false,
        };
        ClockIndicator::from_parts(full, items, locale, known)
    }

    /// A clock in a format that was read into `items`, where it was valid.
    pub fn from_parts(
        format: String,
        items: Option<Vec<ClockItem>>,
        locale: Option<String>,
        known: bool,
    ) -> (r: Option<ClockIndicator>)
        ensures
            r is Some <==> items is Some,
            r matches Some(c) ==> c@ == (ClockView {
                format: format@,
                items: items->0@,
                locale: chosen_locale(text::opt_text(locale), known),
            }),
    {
        match items {
            Some(items) => Some(
                ClockIndicator {
                    format,
                    items,
                    locale: match locale {
                        Some(l) => if known {
                            l
                        } else {
                            "POSIX".to_string()
                        },
                        None => "POSIX".to_string(),
                    },
                },
            ),
            None => None,
        }
    }

    /// Whether the clock has to be drawn every second.
    pub fn needs_faster_refresh(&self) -> (r: bool)
        ensures
            r == ticks_by_second(self@.items),
    {
        let mut i: usize = 0;
        while i < self.items.len()
            invariant
                0 <= i <= self.items@.len(),
                forall|k: int| 0 <= k < i ==> #[trigger] self.items@[k] == ClockItem::Other,
            decreases self.items@.len() - i,
        {
            match self.items[i] {
                ClockItem::Other => {},
                _ => {
                    assert(self.items@[i as int] != ClockItem::Other);
                    return true;
                },
            }
            i += 1;
        }
        false
    }
}

// ---------------------------------------------------------------------------
// The battery
// ---------------------------------------------------------------------------

/// What the battery's cell shows.
#[derive(Clone, Copy, Debug, PartialEq, Eq, Structural)]
pub enum BatteryIconMode {
    Icon,
    Percentage,
    Both,
}

impl BatteryIconMode {
    /// Whether an icon shows how full the battery is.
    pub fn should_draw_icon(self) -> (r: bool)
        ensures
            r == (self != BatteryIconMode::Percentage),
    {
        match self {
            BatteryIconMode::Percentage => false,
            _ => true,
        }
    }

    /// Whether a text shows how full the battery is.
    pub fn should_draw_text(self) -> (r: bool)
        ensures
            r == (self != BatteryIconMode::Icon),
    {
        match self {
            BatteryIconMode::Icon => false,
            _ => true,
        }
    }
}

/// What the battery does.
#[derive(Clone, Copy, Debug, PartialEq, Eq, Structural)]
pub enum BatteryState {
    Charging,
    Low,
    NotCharging,
}

/// The colour of the battery's cell.
#[derive(Clone, Copy, Debug, PartialEq, Eq, Structural)]
pub enum Tint {
    Green,
    Red,
    White,
}

/// The battery, shown as a configured mode says.
#[derive(Debug)]
pub struct BatteryIndicator {
    pub device: String,
    pub mode: BatteryIconMode,
    pub theme: Option<String>,
}

/// A battery indicator, its texts taken as sequences.
pub struct BatteryView {
    pub device: Seq<char>,
    pub mode: BatteryIconMode,
    pub theme: Option<Seq<char>>,
}

impl View for BatteryIndicator {
    type V = BatteryView;

    open spec fn view(&self) -> BatteryView {
        BatteryView { device: self.device@, mode: self.mode, theme: text::opt_text(self.theme) }
    }
}

/// Why a battery cannot be shown as configured.
#[derive(Debug)]
pub enum BatteryError {
    /// One of the icons does not load.
    Icon(IconRequest),
    /// There is no such mode.
    Mode(String),
}

/// A battery icon of the given theme.
pub open spec fn battery_icon(name: Seq<char>, theme: Option<Seq<char>>) -> IconView {
    IconView { name, theme, width: DEFAULT_ICON_SIZE, height: DEFAULT_ICON_SIZE, svg_only: true }
}

/// The names of the icons that show a battery, in the order in which they are loaded.
pub open spec fn battery_icon_names() -> Seq<Seq<char>> {
    seq![
        "bolt"@,
        "battery_0_bar"@,
        "battery_1_bar"@,
        "battery_2_bar"@,
        "battery_3_bar"@,
        "battery_4_bar"@,
        "battery_5_bar"@,
        "battery_6_bar"@,
        "battery_full"@,
        "battery_charging_20"@,
        "battery_charging_30"@,
        "battery_charging_50"@,
        "battery_charging_60"@,
        "battery_charging_80"@,
        "battery_charging_90"@,
        "battery_charging_full"@,
    ]
}

/// The icons that show a battery, in the order in which they are loaded.
pub open spec fn battery_icons(theme: Option<Seq<char>>) -> Seq<IconView> {
    battery_icon_names().map_values(|name: Seq<char>| battery_icon(name, theme))
}

/// The first of `wanted` that is among `failed`.
pub open spec fn first_failed(wanted: Seq<IconView>, failed: Seq<IconView>) -> Option<IconView>
    decreases wanted.len(),
{
    if wanted.len() == 0 {
        None
    } else if failed.contains(wanted[0]) {
        Some(wanted[0])
    } else {
        first_failed(wanted.drop_first(), failed)
    }
}

/// The mode with the given name.
pub open spec fn mode_named(name: Seq<char>) -> Option<BatteryIconMode> {
    if name == "icon"@ {
        Some(BatteryIconMode::Icon)
    } else if name == "percentage"@ {
        Some(BatteryIconMode::Percentage)
    } else if name == "both"@ {
        Some(BatteryIconMode::Both)
    } else {
        None
    }
}

/// The mode with the given name.
fn find_mode(name: &str) -> (r: Option<BatteryIconMode>)
    ensures
        r == mode_named(name@),
{
    if text::same(name, "icon") {
        Some(BatteryIconMode::Icon)
    } else if text::same(name, "percentage") {
        Some(BatteryIconMode::Percentage)
    } else if text::same(name, "both") {
        Some(BatteryIconMode::Both)
    } else {
        None
    }
}

/// A battery icon of the given theme.
fn battery_image(name: &str, theme: &Option<String>) -> (r: IconRequest)
    ensures
        r@ == battery_icon(name@, text::opt_text(*theme)),
{
    IconRequest {
        name: name.to_string(),
        theme: crate::action::clone_text(theme),
        width: DEFAULT_ICON_SIZE,
        height: DEFAULT_ICON_SIZE,
        svg_only: true,
    }
}

/// The icons that show a battery, in the order in which they are loaded.
pub fn wanted_battery_icons(theme: &Option<String>) -> (r: Vec<IconRequest>)
    ensures
        button::icons(r@) == battery_icons(text::opt_text(*theme)),
{
    let mut out: Vec<IconRequest> = Vec::new();
    out.push(battery_image("bolt", theme));
    out.push(battery_image("battery_0_bar", theme));
    out.push(battery_image("battery_1_bar", theme));
    out.push(battery_image("battery_2_bar", theme));
    out.push(battery_image("battery_3_bar", theme));
    out.push(battery_image("battery_4_bar", theme));
    out.push(battery_image("battery_5_bar", theme));
    out.push(battery_image("battery_6_bar", theme));
    out.push(battery_image("battery_full", theme));
    out.push(battery_image("battery_charging_20", theme));
    out.push(battery_image("battery_charging_30", theme));
    out.push(battery_image("battery_charging_50", theme));
    out.push(battery_image("battery_charging_60", theme));
    out.push(battery_image("battery_charging_80", theme));
    out.push(battery_image("battery_charging_90", theme));
    out.push(battery_image("battery_charging_full", theme));
    assert(button::icons(out@) =~= battery_icons(text::opt_text(*theme)));
    out
}

/// The first of `wanted` that is among `failed`.
fn find_failed(wanted: &Vec<IconRequest>, failed: &Vec<IconRequest>) -> (r: Option<IconRequest>)
    ensures
        match r {
            Some(i) => first_failed(button::icons(wanted@), button::icons(failed@)) == Some(i@),
            None => first_failed(button::icons(wanted@), button::icons(failed@)) is None,
        },
{
    let ghost all = button::icons(wanted@);
    let ghost bad = button::icons(failed@);
    let mut i: usize = 0;
    assert(all.skip(0) =~= all);
    while i < wanted.len()
        invariant
            0 <= i <= wanted@.len(),
            all == button::icons(wanted@),
            bad == button::icons(failed@),
            first_failed(all, bad) == first_failed(all.skip(i as int), bad),
        decreases wanted@.len() - i,
    {
        assert(all.skip(i as int)[0] == all[i as int]);
        assert(all.skip(i as int).drop_first() =~= all.skip(i + 1));
        if wanted[i].is_in(failed) {
            return Some(wanted[i].copy());
        }
        i += 1;
    }
    assert(all.skip(i as int) =~= Seq::<IconView>::empty());
    None
}

/// What `first_failed` gives is among both, and it gives nothing only where they share nothing.
pub proof fn lemma_first_failed(wanted: Seq<IconView>, failed: Seq<IconView>)
    ensures
        match first_failed(wanted, failed) {
            Some(i) => wanted.contains(i) && failed.contains(i),
            None => forall|k: int| 0 <= k < wanted.len() ==> !failed.contains(#[trigger] wanted[k]),
        },
    decreases wanted.len(),
{
    if wanted.len() > 0 {
        let rest = wanted.drop_first();
        lemma_first_failed(rest, failed);
        if failed.contains(wanted[0]) {
            assert(wanted.contains(wanted[0]));
        } else {
            match first_failed(rest, failed) {
                Some(i) => {
                    let k = choose|k: int| 0 <= k < rest.len() && rest[k] == i;
                    assert(wanted[k + 1] == i);
                },
                None => {
                    assert forall|k: int| 0 <= k < wanted.len() implies !failed.contains(
                        #[trigger] wanted[k],
                    ) by {
                        if k > 0 {
                            assert(rest[k - 1] == wanted[k]);
                        }
                    }
                },
            }
        }
    }
}

/// The icon of a battery that is being charged and so full.
pub open spec fn charging_icon(capacity: u32) -> Seq<char> {
    if capacity <= 20 {
        "battery_charging_20"@
    } else if capacity <= 30 {
        "battery_charging_30"@
    } else if capacity <= 50 {
        "battery_charging_50"@
    } else if capacity <= 60 {
        "battery_charging_60"@
    } else if capacity <= 80 {
        "battery_charging_80"@
    } else if capacity <= 99 {
        "battery_charging_90"@
    } else {
        "battery_charging_full"@
    }
}

/// The icon of a battery that is not being charged and so full.
pub open spec fn plain_icon(capacity: u32) -> Seq<char> {
    if capacity == 0 {
        "battery_0_bar"@
    } else if capacity <= 20 {
        "battery_1_bar"@
    } else if capacity <= 30 {
        "battery_2_bar"@
    } else if capacity <= 50 {
        "battery_3_bar"@
    } else if capacity <= 60 {
        "battery_4_bar"@
    } else if capacity <= 80 {
        "battery_5_bar"@
    } else if capacity <= 99 {
        "battery_6_bar"@
    } else {
        "battery_full"@
    }
}

/// What a battery's cell shows at the moment.
#[derive(Debug)]
pub struct BatteryReadout {
    pub icon: Option<IconRequest>,
    /// The charge in percent.
    pub percent: String,
    /// Whether the charge is written.
    pub written: bool,
    /// How far the icon pushes the text aside, in pixels.
    pub text_offset: i32,
    pub tint: Tint,
}

/// Whether a power supply of the given kind and scope is the machine's own battery, and not
/// that of a device.
pub fn is_own_battery(kind: &str, scope: &str) -> (r: bool)
    ensures
        r == (scan::trimmed(kind@) == "Battery"@ && scan::trimmed(scope@) != "Device"@),
{
    text::same(scan::trim(kind).as_str(), "Battery") && !text::same(
        scan::trim(scope).as_str(),
        "Device",
    )
}

impl BatteryView {
    /// Whether `r` is what the cell shows for a battery that is so full and does so.
    pub open spec fn reads_out(self, capacity: u32, state: BatteryState, r: BatteryReadout) -> bool {
        &&& match (r.icon, BatteryIndicator::icon_name(self.mode, capacity, state)) {
            (Some(icon), Some(name)) => icon@ == battery_icon(name, self.theme),
            (None, None) => true,
            _ => false,
        }
        &&& r.percent@ == text::decimal(capacity as nat) + "%"@
        &&& r.written == (self.mode != BatteryIconMode::Icon)
        &&& r.text_offset == if r.icon is Some {
            DEFAULT_ICON_SIZE as int
        } else {
            0
        }
        &&& r.tint == match state {
            BatteryState::Charging => Tint::Green,
            BatteryState::Low => Tint::Red,
            BatteryState::NotCharging => Tint::White,
        }
    }
}

impl BatteryIndicator {
    /// The name of the icon that the cell shows.
    pub open spec fn icon_name(mode: BatteryIconMode, capacity: u32, state: BatteryState) -> Option<
        Seq<char>,
    > {
        if mode != BatteryIconMode::Percentage {
            Some(
                if state == BatteryState::Charging {
                    charging_icon(capacity)
                } else {
                    plain_icon(capacity)
                },
            )
        } else if state == BatteryState::Charging {
            Some("bolt"@)
        } else {
            None
        }
    }

    /// The battery `device`, shown as `mode` says, unless an icon does not load or there
    /// is no such mode.
    pub fn new(
        device: String,
        mode: String,
        theme: Option<String>,
        failed: &Vec<IconRequest>,
    ) -> (r: Result<BatteryIndicator, BatteryError>)
        ensures
            r is Ok <==> first_failed(battery_icons(text::opt_text(theme)), button::icons(failed@))
                is None && mode_named(mode@) is Some,
            r matches Ok(b) ==> b@ == (BatteryView {
                device: device@,
                mode: mode_named(mode@)->0,
                theme: text::opt_text(theme),
            }),
            r matches Err(BatteryError::Icon(i)) ==> first_failed(
                battery_icons(text::opt_text(theme)),
                button::icons(failed@),
            ) == Some(i@),
            r matches Err(BatteryError::Mode(m)) ==> m@ == mode@ && mode_named(mode@) is None
                && first_failed(battery_icons(text::opt_text(theme)), button::icons(failed@))
                is None,
    {
        let wanted = wanted_battery_icons(&theme);
        match find_failed(&wanted, failed) {
            Some(icon) => return Err(BatteryError::Icon(icon)),
            None => {},
        }
        match find_mode(mode.as_str()) {
            Some(mode) => Ok(BatteryIndicator { device, mode, theme }),
            None => Err(BatteryError::Mode(mode)),
        }
    }

    /// What the cell shows for a battery that is so full and does so.
    pub fn readout(&self, capacity: u32, state: BatteryState) -> (r: BatteryReadout)
        ensures
            self@.reads_out(capacity, state, r),
    {
        let name: Option<&str> = if self.mode.should_draw_icon() {
            Some(
                match state {
                    BatteryState::Charging => if capacity <= 20 {
                        "battery_charging_20"
                    } else if capacity <= 30 {
                        "battery_charging_30"
                    } else if capacity <= 50 {
                        "battery_charging_50"
                    } else if capacity <= 60 {
                        "battery_charging_60"
                    } else if capacity <= 80 {
                        "battery_charging_80"
                    } else if capacity <= 99 {
                        "battery_charging_90"
                    } else {
                        "battery_charging_full"
                    },
                    _ => if capacity == 0 {
                        "battery_0_bar"
                    } else if capacity <= 20 {
                        "battery_1_bar"
                    } else if capacity <= 30 {
                        "battery_2_bar"
                    } else if capacity <= 50 {
                        "battery_3_bar"
                    } else if capacity <= 60 {
                        "battery_4_bar"
                    } else if capacity <= 80 {
                        "battery_5_bar"
                    } else if capacity <= 99 {
                        "battery_6_bar"
                    } else {
                        "battery_full"
                    },
                },
            )
        } else {
            match state {
                BatteryState::Charging => Some("bolt"),
                _ => None,
            }
        };
        let icon = match name {
            Some(n) => Some(battery_image(n, &self.theme)),
            None => None,
        };
        let text_offset: i32 = if icon.is_some() {
            DEFAULT_ICON_SIZE
        } else {
            0
        };
        BatteryReadout {
            icon,
            percent: text::concat(text::to_decimal(capacity as u64).as_str(), "%"),
            written: self.mode.should_draw_text(),
            text_offset,
            tint: match state {
                BatteryState::Charging => Tint::Green,
                BatteryState::Low => Tint::Red,
                BatteryState::NotCharging => Tint::White,
            },
        }
    }
}

/// Whatever the battery does, the icon that the cell shows is one of those that were
/// loaded when the cell was made.
pub proof fn law_shown_icon_was_loaded(mode: BatteryIconMode, capacity: u32, state: BatteryState)
    ensures
        BatteryIndicator::icon_name(mode, capacity, state) matches Some(name)
            ==> battery_icon_names().contains(name),
{
    let names = battery_icon_names();
    assert forall|i: int| 0 <= i < 16 implies names.contains(#[trigger] names[i]) by {}
    assert(names.len() == 16);
    assert(names[0] == "bolt"@);
    assert(names[1] == "battery_0_bar"@);
    assert(names[2] == "battery_1_bar"@);
    assert(names[3] == "battery_2_bar"@);
    assert(names[4] == "battery_3_bar"@);
    assert(names[5] == "battery_4_bar"@);
    assert(names[6] == "battery_5_bar"@);
    assert(names[7] == "battery_6_bar"@);
    assert(names[8] == "battery_full"@);
    assert(names[9] == "battery_charging_20"@);
    assert(names[10] == "battery_charging_30"@);
    assert(names[11] == "battery_charging_50"@);
    assert(names[12] == "battery_charging_60"@);
    assert(names[13] == "battery_charging_80"@);
    assert(names[14] == "battery_charging_90"@);
    assert(names[15] == "battery_charging_full"@);
}

} // verus!

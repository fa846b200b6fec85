use tiny_dfr::key;
use tiny_dfr::key::{KeyError, StateKey};
use tiny_dfr::number::Number;
use tiny_dfr::store::{Expected, Store, StoreError, Value};

fn number(x: f64) -> Value {
    Value::Number(Number { bits: x.to_bits() })
}

#[test]
fn validates_state_keys() {
    for key in [
        "hardware.brightness",
        "context.focus.class",
        "ci-build.status_1",
        "A.B-c_1",
    ] {
        assert!(StateKey::new(key).is_ok(), "{key} should be valid");
    }

    for key in [
        "",
        ".leading",
        "trailing.",
        "double..dot",
        "has space",
        "slash/key",
    ] {
        assert!(StateKey::new(key).is_err(), "{key} should be invalid");
    }
}

#[test]
fn set_and_get_typed_values() {
    let mut store = Store::new();
    store.set("hardware.brightness", number(0.5)).unwrap();
    store
        .set("context.focus.class", Value::Text("kitty".into()))
        .unwrap();
    store.set("feature.enabled", Value::Bool(true)).unwrap();

    assert_eq!(
        f64::from_bits(store.number("hardware.brightness").unwrap().bits),
        0.5
    );
    assert_eq!(store.text("context.focus.class").unwrap(), "kitty");
    assert!(store.bool("feature.enabled").unwrap());
    assert!(store.number("context.focus.class").is_err());
    assert!(store.text("missing.key").is_err());
}

#[test]
fn tracks_dirty_keys_until_cleared() {
    let mut store = Store::new();
    store.set("audio.volume", number(0.25)).unwrap();
    assert!(store.is_dirty("audio.volume").unwrap());
    assert_eq!(store.dirty_keys().len(), 1);

    store.clear_dirty();
    assert!(!store.is_dirty("audio.volume").unwrap());

    store.set("audio.volume", number(0.25)).unwrap();
    assert!(!store.is_dirty("audio.volume").unwrap());

    store.set("audio.volume", number(0.5)).unwrap();
    assert!(store.is_dirty("audio.volume").unwrap());
}

#[test]
fn key_errors_name_the_fault() {
    assert!(matches!(StateKey::new(""), Err(KeyError::Empty)));
    assert!(matches!(
        StateKey::new("a..b"),
        Err(KeyError::EmptySegment { key }) if key == "a..b"
    ));
    assert!(matches!(
        StateKey::new("a.b c.d e"),
        Err(KeyError::InvalidSegment { key, segment }) if key == "a.b c.d e" && segment == "b c"
    ));
    assert_eq!(StateKey::new("pi.model").unwrap().as_str(), "pi.model");
}

#[test]
fn store_errors_name_the_fault() {
    let mut store = Store::new();
    assert!(matches!(
        store.set("no key", Value::Bool(true)),
        Err(StoreError::InvalidStateKey)
    ));
    assert!(matches!(
        store.value("no key"),
        Err(StoreError::Key(KeyError::InvalidSegment { .. }))
    ));
    assert!(matches!(
        store.value("a.b"),
        Err(StoreError::Missing { key }) if key == "a.b"
    ));
    store.set("a.b", Value::Bool(true)).unwrap();
    assert!(matches!(
        store.number("a.b"),
        Err(StoreError::WrongType { key, expected: Expected::Number, found: Value::Bool(true) })
            if key == "a.b"
    ));
    assert!(matches!(
        store.text("a.b"),
        Err(StoreError::WrongType { expected: Expected::Text, .. })
    ));
    assert!(matches!(store.is_dirty("a..b"), Err(StoreError::Key(_))));
    assert!(store.value("a.b").unwrap().equals(&Value::Bool(true)));
}

#[test]
fn setting_one_key_leaves_the_others() {
    let mut store = Store::new();
    store.set("a", Value::Text("x".into())).unwrap();
    store.set("b", number(1.0)).unwrap();
    store.clear_dirty();
    store.set("b", number(2.0)).unwrap();
    assert_eq!(store.text("a").unwrap(), "x");
    assert!(!store.is_dirty("a").unwrap());
    assert!(store.is_dirty("b").unwrap());
    store.set("b", Value::Text("now a text".into())).unwrap();
    assert_eq!(store.text("b").unwrap(), "now a text");
    assert_eq!(store.dirty_keys().len(), 1);
    assert_eq!(store.dirty_keys()[0].as_str(), "b");
}

#[test]
fn numbers_are_compared_as_numbers() {
    let mut store = Store::new();
    store.set("n", number(0.0)).unwrap();
    store.clear_dirty();
    store.set("n", number(-0.0)).unwrap();
    assert!(!store.is_dirty("n").unwrap());
    assert_eq!(store.number("n").unwrap().bits, 0);
    store.set("n", number(f64::NAN)).unwrap();
    store.clear_dirty();
    store.set("n", number(f64::NAN)).unwrap();
    assert!(store.is_dirty("n").unwrap());
}

#[test]
fn built_in_keys_can_be_set() {
    let mut store = Store::new();
    store.set(key::TERMINAL_TMUX_PANE_COMMAND, number(1.0)).unwrap();
    store.set(key::NVIM_NEOTEST_SUMMARY_VISIBLE, Value::Bool(true)).unwrap();
    assert!(store.holds_true(key::NVIM_NEOTEST_SUMMARY_VISIBLE));
    assert!(!store.holds_true(key::NVIM_DAP_ACTIVE));
    assert_eq!(store.text_or_empty(key::PI_MODEL), "");
    assert_eq!(key::BROWSER_TABS_JSON, key::CHROMIUM_TABS_JSON);
}

#[test]
fn integers_become_the_nearest_double() {
    for v in [
        0u64,
        1,
        2,
        3,
        10,
        255,
        4096,
        1_000_000_007,
        (1 << 52) - 1,
        1 << 52,
        (1 << 53) - 1,
        1 << 53,
        (1 << 53) + 1,
        (1 << 53) + 2,
        (1 << 53) + 3,
        (1 << 54) + 2,
        (1 << 54) + 6,
        0x7fff_ffff_ffff_ffff,
        0xffff_ffff_ffff_fbff,
        0xffff_ffff_ffff_fc00,
        u64::MAX,
    ] {
        assert_eq!(Number::from_u64(v).bits, (v as f64).to_bits(), "{v}");
    }
    for v in [0i64, 5, -1, -5, i64::MAX, i64::MIN, i64::MIN + 1, -(1 << 53) - 1] {
        assert_eq!(Number::from_i64(v).bits, (v as f64).to_bits(), "{v}");
    }
    assert_eq!(Number::minus_one().bits, (-1.0f64).to_bits());
    assert_eq!(Number::zero().bits, 0.0f64.to_bits());
}

#[test]
fn doubles_are_cut_to_integers() {
    for x in [
        0.0f64,
        -0.0,
        0.999,
        1.0,
        1.5,
        41.99,
        4294967295.0,
        4294967294.9,
        4294967296.0,
        1e300,
        -1.0,
        -1e300,
        1e-310,
        f64::INFINITY,
        f64::NEG_INFINITY,
        f64::NAN,
        9007199254740993.0,
        9.3e18,
        9223372036854774784.0,
    ] {
        let n = Number { bits: x.to_bits() };
        assert_eq!(n.to_u32(), x as u32, "{x}");
        assert_eq!(n.to_i64(), x.max(0.0) as i64, "{x}");
        assert_eq!(n.is_at_most_zero(), x <= 0.0, "{x}");
        assert_eq!(n.not_a_number(), x.is_nan(), "{x}");
    }
    for v in [0u32, 1, 77, 65536, u32::MAX - 1, u32::MAX] {
        assert_eq!(Number::from_u64(v as u64).to_u32(), v);
    }
}

#[test]
fn doubles_are_compared() {
    let n = |x: f64| Number { bits: x.to_bits() };
    assert!(n(1.5).equals(n(1.5)));
    assert!(!n(1.5).equals(n(2.5)));
    assert!(n(0.0).equals(n(-0.0)));
    assert!(!n(f64::NAN).equals(n(f64::NAN)));
    assert!(n(f64::INFINITY).equals(n(f64::INFINITY)));
}

#[test]
fn every_marked_key_has_a_value() {
    let mut store = Store::new();
    store.set("a.b", Value::Bool(true)).unwrap();
    store.set("a.c", Value::Text("t".into())).unwrap();
    store.set("a.b", Value::Bool(true)).unwrap();
    assert!(store.set("a..b", Value::Bool(true)).is_err());
    assert_eq!(store.dirty_keys().len(), 2);
    for key in store.dirty_keys() {
        assert!(store.value(key.as_str()).is_ok());
    }
}

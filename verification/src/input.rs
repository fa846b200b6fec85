//! Key events, as they are written to the virtual keyboard.
use crate::action::{Edge, Key};
use vstd::prelude::*;

verus! {

/// The kernel's type of an event that ends a report.
pub const EV_SYN: u16 = 0;

/// The kernel's type of a key event.
pub const EV_KEY: u16 = 1;

/// The code of an event that ends a report.
pub const SYN_REPORT: u16 = 0;

/// An event, as the kernel takes it.
#[derive(Clone, Copy, Debug, PartialEq, Eq, Structural)]
pub struct InputEvent {
    pub kind: u16,
    pub code: u16,
    pub value: i32,
}

/// The value of a key event: one for a press, zero for a release.
pub open spec fn edge_value(edge: Edge) -> i32 {
    match edge {
        Edge::Press => 1,
        Edge::Release => 0,
    }
}

/// The events that press or release keys: one for each key in order, and one that ends the
/// report; none at all where there are no keys.
pub open spec fn events_for(keys: Seq<Key>, edge: Edge) -> Seq<InputEvent> {
    if keys.len() == 0 {
        Seq::empty()
    } else {
        keys.map_values(
            |k: Key| InputEvent { kind: EV_KEY, code: k.code, value: edge_value(edge) },
        ).push(InputEvent { kind: EV_SYN, code: SYN_REPORT, value: 0 })
    }
}

/// The events that press or release keys.
pub fn toggle_keys(keys: &Vec<Key>, edge: Edge) -> (r: Vec<InputEvent>)
    ensures
        r@ == events_for(keys@, edge),
{
    let mut out: Vec<InputEvent> = Vec::new();
    if keys.len() == 0 {
        assert(out@ =~= events_for(keys@, edge));
        return out;
    }
    let value: i32 = match edge {
        Edge::Press => 1,
        Edge::Release => 0,
    };
    let mut i: usize = 0;
    while i < keys.len()
        invariant
            0 <= i <= keys@.len(),
            value == edge_value(edge),
            out@.len() == i,
            forall|k: int|
                0 <= k < i ==> #[trigger] out@[k] == (InputEvent {
                    kind: EV_KEY,
                    code: keys@[k].code,
                    value,
                }),
        decreases keys@.len() - i,
    {
        out.push(InputEvent { kind: EV_KEY, code: keys[i].code, value });
        i += 1;
    }
    out.push(InputEvent { kind: EV_SYN, code: SYN_REPORT, value: 0 });
    assert(out@ =~= events_for(keys@, edge));
    out
}

/// The part of the flags of a file that says how it is opened.
pub const ACCESS_MODE: i32 = 3;

/// Whether a file that is opened with the given flags is to be read, and whether it is to be
/// written.
pub fn access(flags: i32) -> (r: (bool, bool))
    ensures
        r.0 == (flags & ACCESS_MODE == 0 || flags & ACCESS_MODE == 2),
        r.1 == (flags & ACCESS_MODE == 1 || flags & ACCESS_MODE == 2),
{
    let mode: i32 = flags & ACCESS_MODE;
    (mode == 0 || mode == 2, mode == 1 || mode == 2)
}

/// Every key that is pressed is released by the release of the same keys: the events differ
/// in the edge alone.
pub proof fn law_release_mirrors_press(keys: Seq<Key>)
    ensures
        events_for(keys, Edge::Press).len() == events_for(keys, Edge::Release).len(),
        forall|i: int|
            0 <= i < events_for(keys, Edge::Press).len() ==> (#[trigger] events_for(
                keys,
                Edge::Press,
            )[i]).code == events_for(keys, Edge::Release)[i].code && events_for(
                keys,
                Edge::Press,
            )[i].kind == events_for(keys, Edge::Release)[i].kind,
{
}

} // verus!

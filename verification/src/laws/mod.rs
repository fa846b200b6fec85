//! What holds of the library as a whole, stated of what goes in and what comes out.
use crate::store::{StoreView, ValueView};
use vstd::prelude::*;

pub mod actions;
pub mod config;
pub mod devices;
pub mod layers;
pub mod news;
pub mod programs;
pub mod replies;
pub mod state;
pub mod tabs;
pub mod terminal;
pub mod texts;
pub mod touches;
pub mod widgets;

verus! {

/// The text under a key, or the empty text where there is none.
pub open spec fn said(s: StoreView, k: Seq<char>) -> Seq<char> {
    if s.values.contains_key(k) {
        match s.values[k] {
            ValueView::Text(t) => t,
            _ => Seq::empty(),
        }
    } else {
        Seq::empty()
    }
}

/// Whether a key holds true.
pub open spec fn is_on(s: StoreView, k: Seq<char>) -> bool {
    s.values.contains_key(k) && s.values[k] == ValueView::Bool(true)
}

} // verus!

//! The strip of database connections: one chip for each database that Neovim knows.
use crate::action;
use crate::action::{Action, ActionView};
use crate::key;
use crate::scan;
use crate::store::{Store, StoreView};
use crate::text;
use crate::widgets::browser_tabs;
use crate::widgets::browser_tabs::{StripPicture, StripView};
use vstd::prelude::*;

verus! {

/// A database connection, as the strip shows it.
#[derive(Debug)]
pub struct DbConnection {
    pub name: String,
    pub source: String,
    pub key_name: String,
    pub is_connected: bool,
}

/// The strip of database connections.
#[derive(Clone, Copy, Debug)]
pub struct DbuiConnectionsWidget {
    /// Whether the strip has to be drawn again.
    pub changed: bool,
}

/// What a press on the strip asks for, where the finger is on the chips that `hits` marks.
pub open spec fn db_action(connections: Seq<DbConnection>, by_width: usize, hits: Seq<bool>) -> Option<
    ActionView,
> {
    match browser_tabs::first_hit(hits, browser_tabs::shown(by_width, connections.len())) {
        Some(i) => Some(ActionView::NvimDbConnect(connections[i as int].key_name@)),
        None => None,
    }
}

/// What the strip shows: that Neovim has no databases, that there are none, or a chip for
/// each of the first ones that there is room for.
pub open spec fn databases_picture(
    store: StoreView,
    connections: Seq<DbConnection>,
    by_width: usize,
) -> StripView {
    if !store.is_true(key::NVIM_DBUI_AVAILABLE@) {
        StripView::Notice("DBUI unavailable"@)
    } else if connections.len() == 0 {
        StripView::Notice("No DBUI connections"@)
    } else {
        StripView::Chips(
            Seq::new(browser_tabs::shown(by_width, connections.len()), |i: int| i as usize),
        )
    }
}

impl DbuiConnectionsWidget {
    /// Whether the strip has to be drawn again.
    pub open spec fn stale(self, store: StoreView) -> bool {
        ||| self.changed
        ||| store.dirty.contains(key::NVIM_DBUI_AVAILABLE@)
        ||| store.dirty.contains(key::NVIM_DBUI_CONNECTIONS_JSON@)
    }

    /// The strip after a press.
    pub open spec fn pressed(
        self,
        connections: Seq<DbConnection>,
        by_width: usize,
        hits: Seq<bool>,
    ) -> DbuiConnectionsWidget {
        DbuiConnectionsWidget {
            changed: self.changed || db_action(connections, by_width, hits) is Some,
        }
    }

    /// A strip that has not been drawn.
    pub fn new() -> (r: DbuiConnectionsWidget)
        ensures
            r.changed,
    {
        DbuiConnectionsWidget { changed: true }
    }

    /// Whether the strip has to be drawn again.
    pub fn needs_redraw(&self, store: &Store) -> (r: bool)
        requires
            store.wf(),
        ensures
            r == self.stale(store@),
    {
        self.changed || store.changed(key::NVIM_DBUI_AVAILABLE) || store.changed(
            key::NVIM_DBUI_CONNECTIONS_JSON,
        )
    }

    /// What the strip shows, where the store's databases are `connections` and `by_width`
    /// chips have room.
    pub fn picture(&self, store: &Store, connections: &Vec<DbConnection>, by_width: usize) -> (r:
        StripPicture)
        requires
            store.wf(),
        ensures
            r@ == databases_picture(store@, connections@, by_width),
    {
        proof {
            key::law_built_in_keys_are_valid();
        }
        if !store.holds_true(key::NVIM_DBUI_AVAILABLE) {
            return StripPicture::Notice("DBUI unavailable".to_string());
        }
        if connections.len() == 0 {
            return StripPicture::Notice("No DBUI connections".to_string());
        }
        let visible = browser_tabs::visible_count(by_width, connections.len());
        let mut chips: Vec<usize> = Vec::new();
        let mut i: usize = 0;
        while i < visible
            invariant
                i <= visible,
                chips@ == Seq::new(i as nat, |k: int| k as usize),
            decreases visible - i,
        {
            chips.push(i);
            i += 1;
            assert(chips@ =~= Seq::new(i as nat, |k: int| k as usize));
        }
        StripPicture::Chips(chips)
    }

    /// A press on a chip opens a query buffer for its database. `hits` says for each chip
    /// whether the finger is on it.
    pub fn on_press(
        &mut self,
        connections: &Vec<DbConnection>,
        by_width: usize,
        hits: &Vec<bool>,
    ) -> (r: Option<Action>)
        ensures
            action::opt_action(r) == db_action(connections@, by_width, hits@),
            *final(self) == old(self).pressed(connections@, by_width, hits@),
    {
        let visible = browser_tabs::visible_count(by_width, connections.len());
        match browser_tabs::find_hit(hits, visible) {
            Some(i) => {
                self.changed = true;
                Some(Action::NvimDbConnect(connections[i].key_name.clone()))
            },
            None => None,
        }
    }

    /// Notes that the strip has been drawn.
    pub fn drawn(&mut self)
        ensures
            !final(self).changed,
    {
        self.changed = false;
    }
}

/// The text on the chip of a database with the given name and source.
pub open spec fn label_on_chip(name: Seq<char>, source: Seq<char>) -> Seq<char> {
    if scan::trimmed(source).len() == 0 {
        name
    } else {
        name + " · "@ + source
    }
}

/// The text on a database's chip: its name, and its source where that is not blank.
pub fn chip_label(db: &DbConnection) -> (r: String)
    ensures
        r@ == label_on_chip(db.name@, db.source@),
{
    if text::is_empty(scan::trim(db.source.as_str()).as_str()) {
        db.name.clone()
    } else {
        text::concat3(db.name.as_str(), " · ", db.source.as_str())
    }
}

} // verus!

//! Chromium's tabs.
use crate::browser;
use crate::browser::{BrowserTabsState, CdpBackend, DevToolsTarget};
use vstd::prelude::*;

verus! {

/// A Chromium browser that is asked for its tabs.
#[derive(Debug)]
pub struct ChromiumClient {
    pub cdp: CdpBackend,
}

impl ChromiumClient {
    /// A Chromium that has not been asked, at the given address or at the usual one.
    pub fn new(endpoint: Option<String>) -> (r: ChromiumClient)
        ensures
            r.cdp.order.wf(),
            r.cdp.order.seen() == Seq::<Seq<char>>::empty(),
            r.cdp.endpoint@ == match endpoint {
                Some(e) => e@,
                None => browser::CDP_DEFAULT_ENDPOINT@,
            },
            r.cdp.last_refresh is None,
            r.cdp.cached@ == browser::no_tabs(),
    {
        ChromiumClient { cdp: CdpBackend::new(endpoint) }
    }

    /// What is shown where Chromium was asked a moment ago. Where this gives nothing, it is to
    /// be asked for its targets.
    pub fn begin_refresh(&mut self, now: u64, force: bool) -> (r: Option<BrowserTabsState>)
        requires
            old(self).cdp.order.wf(),
        ensures
            final(self).cdp.order == old(self).cdp.order,
            final(self).cdp.endpoint == old(self).cdp.endpoint,
            final(self).cdp.cached == old(self).cdp.cached,
            if browser::due(old(self).cdp.last_refresh, now, force) {
                r is None && final(self).cdp.last_refresh == Some(now)
            } else {
                r matches Some(s) && s@ == old(self).cdp.cached@ && final(self).cdp.last_refresh
                    == old(self).cdp.last_refresh
            },
    {
        self.cdp.begin_refresh(now, force)
    }

    /// The tabs among the targets that Chromium gave, or nothing where it gave none.
    pub fn fetch_tabs(&mut self, targets: Option<Vec<DevToolsTarget>>, focused_title: &str) -> (r:
        Option<BrowserTabsState>)
        requires
            old(self).cdp.order.wf(),
        ensures
            final(self).cdp.order.wf(),
            final(self).cdp.endpoint == old(self).cdp.endpoint,
            final(self).cdp.last_refresh == old(self).cdp.last_refresh,
            match targets {
                Some(t) => {
                    let tabs = browser::tabs_of(t@, focused_title@, t@.len() as int);
                    let (next, shown) = browser::shown_tabs(old(self).cdp.order.seen(), tabs);
                    &&& final(self).cdp.order.seen() == next
                    &&& final(self).cdp.cached@ == browser::state_of(shown)
                    &&& r matches Some(s) && s@ == browser::state_of(shown)
                },
                None => {
                    &&& final(self).cdp.order == old(self).cdp.order
                    &&& final(self).cdp.cached@ == browser::no_tabs()
                    &&& r is None
                },
            },
    {
        self.cdp.finish_refresh(targets, focused_title)
    }

    /// What is shown where Chromium cannot be asked.
    pub fn unavailable_state(&self) -> (r: BrowserTabsState)
        ensures
            r@ == browser::no_tabs(),
    {
        BrowserTabsState::unavailable()
    }
}

} // verus!

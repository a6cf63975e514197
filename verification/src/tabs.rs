//! Counts over the open tabs.

use crate::tally;
use vstd::prelude::*;

verus! {

/// The flags of one tab that the counts read.
#[derive(Debug, Clone, Copy, PartialEq, Eq, Structural)]
pub struct TabFlags {
    pub is_loading: bool,
    pub is_pinned: bool,
    pub is_muted: bool,
    pub is_private: bool,
}

/// How many tabs there are, and how many of each sort.
#[derive(Debug, Clone, Copy, PartialEq, Eq, Structural)]
pub struct TabStats {
    pub total_tabs: usize,
    /// The number of windows with an active tab.
    pub active_tabs: usize,
    pub pinned_tabs: usize,
    pub private_tabs: usize,
    pub loading_tabs: usize,
}

/// The counts over `tabs`, where `active_tabs` windows have an active tab.
pub open spec fn tab_stats(tabs: Seq<TabFlags>, active_tabs: usize) -> TabStats {
    TabStats {
        total_tabs: tabs.len() as usize,
        active_tabs,
        pinned_tabs: tally::count(tabs, |t: TabFlags| t.is_pinned) as usize,
        private_tabs: tally::count(tabs, |t: TabFlags| t.is_private) as usize,
        loading_tabs: tally::count(tabs, |t: TabFlags| t.is_loading) as usize,
    }
}

/// The counts over `tabs`, where `active_tabs` windows have an active tab.
pub fn get_tab_stats(tabs: &Vec<TabFlags>, active_tabs: usize) -> (stats: TabStats)
    ensures
        stats == tab_stats(tabs@, active_tabs),
{
    let ghost pinned = |t: TabFlags| t.is_pinned;
    let ghost private = |t: TabFlags| t.is_private;
    let ghost loading = |t: TabFlags| t.is_loading;
    let mut pinned_tabs: usize = 0;
    let mut private_tabs: usize = 0;
    let mut loading_tabs: usize = 0;
    let mut i: usize = 0;
    while i < tabs.len()
        invariant
            i <= tabs@.len(),
            pinned == (|t: TabFlags| t.is_pinned),
            private == (|t: TabFlags| t.is_private),
            loading == (|t: TabFlags| t.is_loading),
            pinned_tabs == tally::count(tabs@.take(i as int), pinned),
            private_tabs == tally::count(tabs@.take(i as int), private),
            loading_tabs == tally::count(tabs@.take(i as int), loading),
        decreases tabs@.len() - i,
    {
        proof {
            tally::lemma_count_step(tabs@, pinned, i as int);
            tally::lemma_count_step(tabs@, private, i as int);
            tally::lemma_count_step(tabs@, loading, i as int);
            tally::lemma_count_bound(tabs@.take(i + 1), pinned);
            tally::lemma_count_bound(tabs@.take(i + 1), private);
            tally::lemma_count_bound(tabs@.take(i + 1), loading);
        }
        let tab = tabs[i];
        if tab.is_pinned {
            pinned_tabs += 1;
        }
        if tab.is_private {
            private_tabs += 1;
        }
        if tab.is_loading {
            loading_tabs += 1;
        }
        i += 1;
    }
    proof {
        assert(tabs@.take(i as int) =~= tabs@);
    }
    TabStats { total_tabs: tabs.len(), active_tabs, pinned_tabs, private_tabs, loading_tabs }
}

} // verus!

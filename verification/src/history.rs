//! The browsing history: its entries, and the counts over them.

use crate::clock::Timestamp;
use crate::tally;
use vstd::prelude::*;

verus! {

/// One page that was visited, with how often and when.
#[derive(Debug, Clone, PartialEq, Eq)]
pub struct HistoryEntry {
    pub id: String,
    pub url: String,
    pub title: String,
    /// The first visit.
    pub visit_time: Timestamp,
    pub visit_count: u32,
    pub last_visit: Timestamp,
    pub favicon: Option<String>,
    pub is_private: bool,
}

impl HistoryEntry {
    /// Records one more visit at `now`, under the page's current `title`.
    /// The count stops at the largest `u32`.
    pub fn record_visit(&mut self, title: String, now: Timestamp)
        ensures
            *final(self) == (HistoryEntry {
                visit_count: if old(self).visit_count < u32::MAX {
                    (old(self).visit_count + 1) as u32
                } else {
                    u32::MAX
                },
                last_visit: now,
                title,
                ..*old(self)
            }),
    {
        if self.visit_count < u32::MAX {
            self.visit_count = self.visit_count + 1;
        }
        self.last_visit = now;
        self.title = title;
    }
}

/// The counts over the history. Each count of visits is capped at the
/// largest `u64`.
#[derive(Debug, Clone, Copy, PartialEq, Eq, Structural)]
pub struct HistoryStats {
    pub total_visits: u64,
    pub unique_sites: u64,
    /// The visits of pages last visited on the UTC calendar day of now.
    pub today_visits: u64,
    /// The visits of pages last visited within seven days before now.
    pub this_week_visits: u64,
    /// The visits of pages last visited within thirty days before now.
    pub this_month_visits: u64,
}

/// The seconds of seven days.
pub const WEEK_SECONDS: u32 = 604800;

/// The seconds of thirty days.
pub const MONTH_SECONDS: u32 = 2592000;

/// The visits of `entry`.
pub open spec fn visits(entry: HistoryEntry) -> nat {
    entry.visit_count as nat
}

/// The visits of `entry` where it was last visited on the day of `now`, else
/// none.
pub open spec fn visits_today(entry: HistoryEntry, now: Timestamp) -> nat {
    if entry.last_visit.day() == now.day() {
        entry.visit_count as nat
    } else {
        0
    }
}

/// The visits of `entry` where it was last visited within `seconds` seconds
/// before `now`, else none.
pub open spec fn visits_within(entry: HistoryEntry, now: Timestamp, seconds: u32) -> nat {
    if entry.last_visit.is_within(now, seconds) {
        entry.visit_count as nat
    } else {
        0
    }
}

/// The counts over `entries` at `now`.
pub open spec fn history_stats(entries: Seq<HistoryEntry>, now: Timestamp) -> HistoryStats {
    HistoryStats {
        total_visits: tally::capped(tally::sum(entries, |e: HistoryEntry| visits(e))),
        unique_sites: entries.len() as u64,
        today_visits: tally::capped(tally::sum(entries, |e: HistoryEntry| visits_today(e, now))),
        this_week_visits: tally::capped(
            tally::sum(entries, |e: HistoryEntry| visits_within(e, now, WEEK_SECONDS)),
        ),
        this_month_visits: tally::capped(
            tally::sum(entries, |e: HistoryEntry| visits_within(e, now, MONTH_SECONDS)),
        ),
    }
}

/// The counts over `entries` at `now`.
pub fn get_stats(entries: &Vec<HistoryEntry>, now: Timestamp) -> (stats: HistoryStats)
    ensures
        stats == history_stats(entries@, now),
{
    let ghost all = |e: HistoryEntry| visits(e);
    let ghost today = |e: HistoryEntry| visits_today(e, now);
    let ghost week = |e: HistoryEntry| visits_within(e, now, WEEK_SECONDS);
    let ghost month = |e: HistoryEntry| visits_within(e, now, MONTH_SECONDS);
    let this_day = now.day();
    let mut total_visits: u64 = 0;
    let mut today_visits: u64 = 0;
    let mut this_week_visits: u64 = 0;
    let mut this_month_visits: u64 = 0;
    let mut i: usize = 0;
    while i < entries.len()
        invariant
            i <= entries@.len(),
            this_day == now.day(),
            all == (|e: HistoryEntry| visits(e)),
            today == (|e: HistoryEntry| visits_today(e, now)),
            week == (|e: HistoryEntry| visits_within(e, now, WEEK_SECONDS)),
            month == (|e: HistoryEntry| visits_within(e, now, MONTH_SECONDS)),
            total_visits == tally::capped(tally::sum(entries@.take(i as int), all)),
            today_visits == tally::capped(tally::sum(entries@.take(i as int), today)),
            this_week_visits == tally::capped(tally::sum(entries@.take(i as int), week)),
            this_month_visits == tally::capped(tally::sum(entries@.take(i as int), month)),
        decreases entries@.len() - i,
    {
        proof {
            tally::lemma_sum_step(entries@, all, i as int);
            tally::lemma_sum_step(entries@, today, i as int);
            tally::lemma_sum_step(entries@, week, i as int);
            tally::lemma_sum_step(entries@, month, i as int);
        }
        let entry = &entries[i];
        let count: u64 = entry.visit_count as u64;
        total_visits = tally::add_capped(total_visits, count);
        today_visits = tally::add_capped(
            today_visits,
            if entry.last_visit.day() == this_day {
                count
            } else {
                0
            },
        );
        this_week_visits = tally::add_capped(
            this_week_visits,
            if entry.last_visit.is_within(now, WEEK_SECONDS) {
                count
            } else {
                0
            },
        );
        this_month_visits = tally::add_capped(
            this_month_visits,
            if entry.last_visit.is_within(now, MONTH_SECONDS) {
                count
            } else {
                0
            },
        );
        i += 1;
    }
    proof {
        assert(entries@.take(i as int) =~= entries@);
    }
    HistoryStats {
        total_visits,
        unique_sites: entries.len() as u64,
        today_visits,
        this_week_visits,
        this_month_visits,
    }
}

} // verus!

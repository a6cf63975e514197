//! Per-site shields and the global counters of what was blocked.

use crate::clock;
use crate::clock::Timestamp;
use crate::text;
use vstd::prelude::*;

verus! {

/// What a blocked request is counted as.
#[derive(Debug, Clone, Copy, PartialEq, Eq, Structural)]
pub enum BlockCategory {
    Ad,
    Tracker,
    Script,
}

/// The category that a block type names, if it names one.
pub open spec fn block_category(block_type: Seq<char>) -> Option<BlockCategory> {
    if block_type == "ad"@ {
        Some(BlockCategory::Ad)
    } else if block_type == "tracker"@ {
        Some(BlockCategory::Tracker)
    } else if block_type == "script"@ {
        Some(BlockCategory::Script)
    } else {
        None
    }
}

/// The category that `block_type` names, if it names one.
pub fn classify_block_type(block_type: &str) -> (category: Option<BlockCategory>)
    ensures
        category == block_category(block_type@),
{
    let chars = text::chars_of(block_type);
    let t = chars.as_slice();
    if text::equals_str(t, "ad") {
        Some(BlockCategory::Ad)
    } else if text::equals_str(t, "tracker") {
        Some(BlockCategory::Tracker)
    } else if text::equals_str(t, "script") {
        Some(BlockCategory::Script)
    } else {
        None
    }
}

/// The counters of everything that was blocked since the last reset.
#[derive(Debug, Clone, Copy, PartialEq, Eq, Structural)]
pub struct GlobalStats {
    pub total_ads_blocked: u64,
    pub total_trackers_blocked: u64,
    pub total_scripts_blocked: u64,
    pub bandwidth_saved: u64,
    pub last_reset: Timestamp,
}

impl GlobalStats {
    /// All counters at zero, last reset at `at`.
    pub open spec fn spec_zeroed(at: Timestamp) -> GlobalStats {
        GlobalStats {
            total_ads_blocked: 0,
            total_trackers_blocked: 0,
            total_scripts_blocked: 0,
            bandwidth_saved: 0,
            last_reset: at,
        }
    }

    /// All counters at zero, last reset at `at`.
    #[verifier::when_used_as_spec(spec_zeroed)]
    pub fn zeroed(at: Timestamp) -> (stats: GlobalStats)
        ensures
            stats == GlobalStats::spec_zeroed(at),
    {
        GlobalStats {
            total_ads_blocked: 0,
            total_trackers_blocked: 0,
            total_scripts_blocked: 0,
            bandwidth_saved: 0,
            last_reset: at,
        }
    }

    /// The counter of `category`.
    pub open spec fn spec_counter(self, category: BlockCategory) -> u64 {
        match category {
            BlockCategory::Ad => self.total_ads_blocked,
            BlockCategory::Tracker => self.total_trackers_blocked,
            BlockCategory::Script => self.total_scripts_blocked,
        }
    }

    /// The counter of `category`.
    #[verifier::when_used_as_spec(spec_counter)]
    pub fn counter(self, category: BlockCategory) -> (n: u64)
        ensures
            n == self.spec_counter(category),
    {
        match category {
            BlockCategory::Ad => self.total_ads_blocked,
            BlockCategory::Tracker => self.total_trackers_blocked,
            BlockCategory::Script => self.total_scripts_blocked,
        }
    }

    /// These counters with the one of `category` set to `n`.
    pub open spec fn spec_with_counter(self, category: BlockCategory, n: u64) -> GlobalStats {
        match category {
            BlockCategory::Ad => GlobalStats { total_ads_blocked: n, ..self },
            BlockCategory::Tracker => GlobalStats { total_trackers_blocked: n, ..self },
            BlockCategory::Script => GlobalStats { total_scripts_blocked: n, ..self },
        }
    }

    /// These counters with the one of `category` set to `n`.
    #[verifier::when_used_as_spec(spec_with_counter)]
    pub fn with_counter(self, category: BlockCategory, n: u64) -> (stats: GlobalStats)
        ensures
            stats == self.spec_with_counter(category, n),
    {
        match category {
            BlockCategory::Ad => GlobalStats { total_ads_blocked: n, ..self },
            BlockCategory::Tracker => GlobalStats { total_trackers_blocked: n, ..self },
            BlockCategory::Script => GlobalStats { total_scripts_blocked: n, ..self },
        }
    }
}

impl Default for GlobalStats {
    /// All counters at zero, never reset.
    fn default() -> (stats: GlobalStats)
        ensures
            stats == GlobalStats::zeroed(Timestamp::epoch()),
    {
        GlobalStats::zeroed(Timestamp::epoch())
    }
}

/// The protection settings of one site and the counters of what was blocked
/// on it.
#[derive(Debug, PartialEq, Eq)]
pub struct SiteShields {
    pub domain: String,
    pub ad_blocking: bool,
    pub tracker_blocking: bool,
    pub third_party_cookies: bool,
    pub fingerprinting_protection: bool,
    pub https_only: bool,
    pub scripts_blocked: u32,
    pub trackers_blocked: u32,
    pub ads_blocked: u32,
    pub last_updated: Timestamp,
}

/// The mathematical value of a [`SiteShields`].
pub struct SiteShieldsView {
    pub domain: Seq<char>,
    pub ad_blocking: bool,
    pub tracker_blocking: bool,
    pub third_party_cookies: bool,
    pub fingerprinting_protection: bool,
    pub https_only: bool,
    pub scripts_blocked: u32,
    pub trackers_blocked: u32,
    pub ads_blocked: u32,
    pub last_updated: Timestamp,
}

impl View for SiteShields {
    type V = SiteShieldsView;

    open spec fn view(&self) -> SiteShieldsView {
        SiteShieldsView {
            domain: self.domain@,
            ad_blocking: self.ad_blocking,
            tracker_blocking: self.tracker_blocking,
            third_party_cookies: self.third_party_cookies,
            fingerprinting_protection: self.fingerprinting_protection,
            https_only: self.https_only,
            scripts_blocked: self.scripts_blocked,
            trackers_blocked: self.trackers_blocked,
            ads_blocked: self.ads_blocked,
            last_updated: self.last_updated,
        }
    }
}

impl SiteShieldsView {
    /// The shields of a site that nothing was ever set for: every protection
    /// on, third-party cookies off, nothing counted.
    pub open spec fn defaults(domain: Seq<char>, at: Timestamp) -> SiteShieldsView {
        SiteShieldsView {
            domain,
            ad_blocking: true,
            tracker_blocking: true,
            third_party_cookies: false,
            fingerprinting_protection: true,
            https_only: true,
            scripts_blocked: 0,
            trackers_blocked: 0,
            ads_blocked: 0,
            last_updated: at,
        }
    }

    /// The counter of `category`.
    pub open spec fn counter(self, category: BlockCategory) -> u32 {
        match category {
            BlockCategory::Ad => self.ads_blocked,
            BlockCategory::Tracker => self.trackers_blocked,
            BlockCategory::Script => self.scripts_blocked,
        }
    }

    /// These shields with the counter of `category` set to `n`.
    pub open spec fn with_counter(self, category: BlockCategory, n: u32) -> SiteShieldsView {
        match category {
            BlockCategory::Ad => SiteShieldsView { ads_blocked: n, ..self },
            BlockCategory::Tracker => SiteShieldsView { trackers_blocked: n, ..self },
            BlockCategory::Script => SiteShieldsView { scripts_blocked: n, ..self },
        }
    }

    /// Whether blocking is switched off for the site altogether.
    pub open spec fn blocks_nothing(self) -> bool {
        !self.ad_blocking && !self.tracker_blocking
    }
}

/// Whether a block of `block_type` is counted, given the site's and the
/// global counters: the type names a category, and neither counter of that
/// category stands at its maximum. The two counters move together or not at
/// all.
pub open spec fn is_counted(shields: SiteShieldsView, stats: GlobalStats, block_type: Seq<char>) -> bool {
    match block_category(block_type) {
        Some(category) => shields.counter(category) < u32::MAX && stats.counter(category)
            < u64::MAX,
        None => false,
    }
}

/// The site's shields after a block of `block_type` was reported at `now`:
/// the counter of the category is one higher where the block is counted, and
/// `last_updated` is `now` in any case.
pub open spec fn shields_after_block(
    shields: SiteShieldsView,
    stats: GlobalStats,
    block_type: Seq<char>,
    now: Timestamp,
) -> SiteShieldsView {
    let stamped = SiteShieldsView { last_updated: now, ..shields };
    match block_category(block_type) {
        Some(category) => if is_counted(shields, stats, block_type) {
            stamped.with_counter(category, (shields.counter(category) + 1) as u32)
        } else {
            stamped
        },
        None => stamped,
    }
}

/// The global counters after a block of `block_type` was reported for a site
/// with `shields`: the counter of the category is one higher where the block
/// is counted.
pub open spec fn stats_after_block(
    shields: SiteShieldsView,
    stats: GlobalStats,
    block_type: Seq<char>,
) -> GlobalStats {
    match block_category(block_type) {
        Some(category) => if is_counted(shields, stats, block_type) {
            stats.with_counter(category, (stats.counter(category) + 1) as u64)
        } else {
            stats
        },
        None => stats,
    }
}

impl Clone for SiteShields {
    fn clone(&self) -> (copy: SiteShields)
        ensures
            copy@ == self@,
    {
        SiteShields {
            domain: self.domain.clone(),
            ad_blocking: self.ad_blocking,
            tracker_blocking: self.tracker_blocking,
            third_party_cookies: self.third_party_cookies,
            fingerprinting_protection: self.fingerprinting_protection,
            https_only: self.https_only,
            scripts_blocked: self.scripts_blocked,
            trackers_blocked: self.trackers_blocked,
            ads_blocked: self.ads_blocked,
            last_updated: self.last_updated,
        }
    }
}

impl Default for SiteShields {
    /// The default shields of the site with the empty name, stamped with the
    /// current time.
    fn default() -> (shields: SiteShields)
        ensures
            shields@ == SiteShieldsView::defaults(Seq::empty(), shields.last_updated),
    {
        proof {
            reveal_strlit("");
            assert(""@ =~= Seq::<char>::empty());
        }
        SiteShields::default_for("", clock::now())
    }
}

impl SiteShields {
    /// The default shields of `domain`, stamped with `at`.
    pub fn default_for(domain: &str, at: Timestamp) -> (shields: SiteShields)
        ensures
            shields@ == SiteShieldsView::defaults(domain@, at),
    {
        SiteShields {
            domain: domain.to_string(),
            ad_blocking: true,
            tracker_blocking: true,
            third_party_cookies: false,
            fingerprinting_protection: true,
            https_only: true,
            scripts_blocked: 0,
            trackers_blocked: 0,
            ads_blocked: 0,
            last_updated: at,
        }
    }

    /// The counter of `category`.
    pub fn counter(&self, category: BlockCategory) -> (n: u32)
        ensures
            n == self@.counter(category),
    {
        match category {
            BlockCategory::Ad => self.ads_blocked,
            BlockCategory::Tracker => self.trackers_blocked,
            BlockCategory::Script => self.scripts_blocked,
        }
    }

    /// The shields and the global counters after a block of `block_type` on
    /// this site was reported at `now`.
    pub fn record_block(&self, stats: GlobalStats, block_type: &str, now: Timestamp) -> (after: (
        SiteShields,
        GlobalStats,
    ))
        ensures
            after.0@ == shields_after_block(self@, stats, block_type@, now),
            after.1 == stats_after_block(self@, stats, block_type@),
    {
        let mut shields = self.clone();
        let mut totals = stats;
        shields.last_updated = now;
        match classify_block_type(block_type) {
            Some(category) => {
                let site = self.counter(category);
                let total = stats.counter(category);
                if site < u32::MAX && total < u64::MAX {
                    match category {
                        BlockCategory::Ad => {
                            shields.ads_blocked = site + 1;
                        },
                        BlockCategory::Tracker => {
                            shields.trackers_blocked = site + 1;
                        },
                        BlockCategory::Script => {
                            shields.scripts_blocked = site + 1;
                        },
                    }
                    totals = stats.with_counter(category, total + 1);
                }
            },
            None => {},
        }
        (shields, totals)
    }
}

/// A reported block never lowers a global counter, and the site's counter and
/// the global counter of a category rise by the same amount: by one where the
/// block is counted, by nothing where it is not.
pub proof fn law_counters_move_together(
    shields: SiteShieldsView,
    stats: GlobalStats,
    block_type: Seq<char>,
    now: Timestamp,
    category: BlockCategory,
)
    ensures
        stats_after_block(shields, stats, block_type).counter(category) >= stats.counter(category),
        stats_after_block(shields, stats, block_type).counter(category) - stats.counter(category)
            == shields_after_block(shields, stats, block_type, now).counter(category)
            - shields.counter(category),
        stats_after_block(shields, stats, block_type).counter(category) - stats.counter(category)
            == (if is_counted(shields, stats, block_type) && block_category(block_type) == Some(
            category,
        ) {
            1int
        } else {
            0int
        }),
        stats_after_block(shields, stats, block_type).bandwidth_saved == stats.bandwidth_saved,
        stats_after_block(shields, stats, block_type).last_reset == stats.last_reset,
{
}

} // verus!

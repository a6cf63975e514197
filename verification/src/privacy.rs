//! The privacy panel's view of the engine: what is switched on, and what was
//! blocked.

use crate::filters::shields::GlobalStats;
use vstd::prelude::*;

verus! {

/// The totals of what was blocked, as the privacy panel shows them.
#[derive(Debug, Clone, PartialEq, Eq)]
pub struct BlockingStats {
    pub total_ads_blocked: u64,
    pub total_trackers_blocked: u64,
    pub total_scripts_blocked: u64,
    pub bandwidth_saved: u64,
    /// Seconds of loading time that blocking saved.
    pub time_saved: u64,
    /// When the counters were last reset, as text.
    pub last_reset: String,
}

impl BlockingStats {
    /// The panel's totals for the engine's counters, with the given time
    /// saved and the given text for the time of the last reset.
    pub fn from_global(stats: GlobalStats, time_saved: u64, last_reset: String) -> (shown:
        BlockingStats)
        ensures
            shown.total_ads_blocked == stats.total_ads_blocked,
            shown.total_trackers_blocked == stats.total_trackers_blocked,
            shown.total_scripts_blocked == stats.total_scripts_blocked,
            shown.bandwidth_saved == stats.bandwidth_saved,
            shown.time_saved == time_saved,
            shown.last_reset@ == last_reset@,
    {
        BlockingStats {
            total_ads_blocked: stats.total_ads_blocked,
            total_trackers_blocked: stats.total_trackers_blocked,
            total_scripts_blocked: stats.total_scripts_blocked,
            bandwidth_saved: stats.bandwidth_saved,
            time_saved,
            last_reset,
        }
    }
}

/// The switches of the privacy panel.
#[derive(Debug, Clone, Copy, PartialEq, Eq, Structural)]
pub struct PrivacySettings {
    pub ad_blocking_enabled: bool,
    pub tracker_blocking_enabled: bool,
    pub script_blocking_enabled: bool,
    pub fingerprinting_protection: bool,
    pub https_everywhere: bool,
    pub clear_data_on_exit: bool,
    pub send_do_not_track: bool,
    pub block_third_party_cookies: bool,
}

impl PrivacySettings {
    /// The switches as they stand before the user changes any: everything
    /// on, but script blocking and clearing data on exit.
    pub open spec fn initial() -> PrivacySettings {
        PrivacySettings {
            ad_blocking_enabled: true,
            tracker_blocking_enabled: true,
            script_blocking_enabled: false,
            fingerprinting_protection: true,
            https_everywhere: true,
            clear_data_on_exit: false,
            send_do_not_track: true,
            block_third_party_cookies: true,
        }
    }
}

impl Default for PrivacySettings {
    fn default() -> (settings: PrivacySettings)
        ensures
            settings == PrivacySettings::initial(),
    {
        PrivacySettings {
            ad_blocking_enabled: true,
            tracker_blocking_enabled: true,
            script_blocking_enabled: false,
            fingerprinting_protection: true,
            https_everywhere: true,
            clear_data_on_exit: false,
            send_do_not_track: true,
            block_third_party_cookies: true,
        }
    }
}

} // verus!

//! Downloads: what state a download is in, how it moves from one state to
//! the next, and the counts over all downloads.

use crate::clock::Timestamp;
use crate::tally;
use vstd::prelude::*;

verus! {

/// The state of a download.
#[derive(Debug, Clone, Copy, PartialEq, Eq, Structural)]
pub enum DownloadStatus {
    Pending,
    InProgress,
    Completed,
    Failed,
    Cancelled,
    Paused,
}

impl DownloadStatus {
    /// Whether the download is under way: in progress or paused.
    pub open spec fn spec_is_active(self) -> bool {
        self is InProgress || self is Paused
    }

    /// Whether the download is under way: in progress or paused.
    #[verifier::when_used_as_spec(spec_is_active)]
    pub fn is_active(self) -> (b: bool)
        ensures
            b == self.spec_is_active(),
    {
        match self {
            DownloadStatus::InProgress | DownloadStatus::Paused => true,
            _ => false,
        }
    }

    /// Whether the download has ended: completed, failed or cancelled.
    pub open spec fn spec_is_finished(self) -> bool {
        self is Completed || self is Failed || self is Cancelled
    }

    /// Whether the download has ended: completed, failed or cancelled.
    #[verifier::when_used_as_spec(spec_is_finished)]
    pub fn is_finished(self) -> (b: bool)
        ensures
            b == self.spec_is_finished(),
    {
        match self {
            DownloadStatus::Completed | DownloadStatus::Failed | DownloadStatus::Cancelled => true,
            _ => false,
        }
    }
}

/// One download.
#[derive(Debug, Clone, PartialEq, Eq)]
pub struct Download {
    pub id: String,
    pub url: String,
    pub filename: String,
    pub file_path: String,
    pub mime_type: Option<String>,
    pub total_bytes: Option<u64>,
    pub downloaded_bytes: u64,
    pub status: DownloadStatus,
    pub start_time: Timestamp,
    pub end_time: Option<Timestamp>,
    pub error_message: Option<String>,
    pub referrer: Option<String>,
    pub user_agent: Option<String>,
}

impl Download {
    /// Records progress: the bytes that arrived so far, and the total size
    /// where it is known now. The download is in progress afterwards.
    pub fn update_progress(&mut self, downloaded_bytes: u64, total_bytes: Option<u64>)
        ensures
            *final(self) == (Download {
                downloaded_bytes,
                total_bytes: if total_bytes is Some {
                    total_bytes
                } else {
                    old(self).total_bytes
                },
                status: DownloadStatus::InProgress,
                ..*old(self)
            }),
    {
        self.downloaded_bytes = downloaded_bytes;
        if total_bytes.is_some() {
            self.total_bytes = total_bytes;
        }
        self.status = DownloadStatus::InProgress;
    }

    /// Ends the download at `now` as completed.
    pub fn complete(&mut self, now: Timestamp)
        ensures
            *final(self) == (Download {
                status: DownloadStatus::Completed,
                end_time: Some(now),
                ..*old(self)
            }),
    {
        self.status = DownloadStatus::Completed;
        self.end_time = Some(now);
    }

    /// Ends the download at `now` as failed, for the reason `error`.
    pub fn fail(&mut self, error: String, now: Timestamp)
        ensures
            *final(self) == (Download {
                status: DownloadStatus::Failed,
                error_message: Some(error),
                end_time: Some(now),
                ..*old(self)
            }),
    {
        self.status = DownloadStatus::Failed;
        self.error_message = Some(error);
        self.end_time = Some(now);
    }

    /// Ends the download at `now` as cancelled.
    pub fn cancel(&mut self, now: Timestamp)
        ensures
            *final(self) == (Download {
                status: DownloadStatus::Cancelled,
                end_time: Some(now),
                ..*old(self)
            }),
    {
        self.status = DownloadStatus::Cancelled;
        self.end_time = Some(now);
    }

    /// Pauses the download where it is in progress; changes nothing in any
    /// other state.
    pub fn pause(&mut self)
        ensures
            *final(self) == (Download {
                status: if old(self).status is InProgress {
                    DownloadStatus::Paused
                } else {
                    old(self).status
                },
                ..*old(self)
            }),
    {
        match self.status {
            DownloadStatus::InProgress => {
                self.status = DownloadStatus::Paused;
            },
            _ => {},
        }
    }

    /// Takes the download up again where it is paused; changes nothing in
    /// any other state.
    pub fn resume(&mut self)
        ensures
            *final(self) == (Download {
                status: if old(self).status is Paused {
                    DownloadStatus::InProgress
                } else {
                    old(self).status
                },
                ..*old(self)
            }),
    {
        match self.status {
            DownloadStatus::Paused => {
                self.status = DownloadStatus::InProgress;
            },
            _ => {},
        }
    }
}

/// The counts over all downloads.
#[derive(Debug, Clone, Copy, PartialEq, Eq, Structural)]
pub struct DownloadStats {
    pub total_downloads: u64,
    pub completed_downloads: u64,
    pub failed_downloads: u64,
    /// The bytes that arrived over all downloads, capped at the largest
    /// `u64`.
    pub total_bytes_downloaded: u64,
    pub active_downloads: u64,
}

/// The counts over `downloads`.
pub open spec fn download_stats(downloads: Seq<Download>) -> DownloadStats {
    DownloadStats {
        total_downloads: downloads.len() as u64,
        completed_downloads: tally::count(downloads, |d: Download| d.status is Completed) as u64,
        failed_downloads: tally::count(downloads, |d: Download| d.status is Failed) as u64,
        total_bytes_downloaded: tally::capped(
            tally::sum(downloads, |d: Download| d.downloaded_bytes as nat),
        ),
        active_downloads: tally::count(downloads, |d: Download| d.status.is_active()) as u64,
    }
}

/// The counts over `downloads`.
pub fn get_download_stats(downloads: &Vec<Download>) -> (stats: DownloadStats)
    ensures
        stats == download_stats(downloads@),
{
    let ghost completed = |d: Download| d.status is Completed;
    let ghost failed = |d: Download| d.status is Failed;
    let ghost active = |d: Download| d.status.is_active();
    let ghost bytes = |d: Download| d.downloaded_bytes as nat;
    let mut completed_downloads: u64 = 0;
    let mut failed_downloads: u64 = 0;
    let mut active_downloads: u64 = 0;
    let mut total_bytes_downloaded: u64 = 0;
    let mut i: usize = 0;
    while i < downloads.len()
        invariant
            i <= downloads@.len(),
            completed == (|d: Download| d.status is Completed),
            failed == (|d: Download| d.status is Failed),
            active == (|d: Download| d.status.is_active()),
            bytes == (|d: Download| d.downloaded_bytes as nat),
            completed_downloads == tally::count(downloads@.take(i as int), completed),
            failed_downloads == tally::count(downloads@.take(i as int), failed),
            active_downloads == tally::count(downloads@.take(i as int), active),
            total_bytes_downloaded == tally::capped(tally::sum(downloads@.take(i as int), bytes)),
        decreases downloads@.len() - i,
    {
        proof {
            tally::lemma_count_step(downloads@, completed, i as int);
            tally::lemma_count_step(downloads@, failed, i as int);
            tally::lemma_count_step(downloads@, active, i as int);
            tally::lemma_sum_step(downloads@, bytes, i as int);
            tally::lemma_count_bound(downloads@.take(i + 1), completed);
            tally::lemma_count_bound(downloads@.take(i + 1), failed);
            tally::lemma_count_bound(downloads@.take(i + 1), active);
        }
        let download = &downloads[i];
        match download.status {
            DownloadStatus::Completed => {
                completed_downloads += 1;
            },
            DownloadStatus::Failed => {
                failed_downloads += 1;
            },
            DownloadStatus::InProgress | DownloadStatus::Paused => {
                active_downloads += 1;
            },
            _ => {},
        }
        total_bytes_downloaded = tally::add_capped(total_bytes_downloaded, download.downloaded_bytes);
        i += 1;
    }
    proof {
        assert(downloads@.take(i as int) =~= downloads@);
    }
    DownloadStats {
        total_downloads: downloads.len() as u64,
        completed_downloads,
        failed_downloads,
        total_bytes_downloaded,
        active_downloads,
    }
}

} // verus!

//! Runtime-recognized configuration, read live by the poller and the batcher.
//!
//! Every field is optional; a consumer applies the documented default at the
//! point of use. Intervals are held as whole milliseconds.

use vstd::prelude::*;

verus! {

/// Fetch interval applied when no subreddit filter is active (the global feed).
pub const DEFAULT_REDDIT_FETCH_INTERVAL_MS: u64 = 10_000;

/// Fetch interval applied while a subreddit filter is active.
pub const DEFAULT_SUBREDDIT_FETCH_INTERVAL_MS: u64 = 60_000;

/// A letter is sent at least once per this interval, work permitting.
pub const DEFAULT_EMAIL_SEND_INTERVAL_MS: u64 = 600_000;

/// Hard cap on the number of submissions drained into one letter.
pub const DEFAULT_EMAIL_MAX_SUBMISSIONS_PER_LETTER: usize = 200;

/// No letter is composed while the queue holds fewer submissions than this.
pub const DEFAULT_EMAIL_MIN_SUBMISSIONS_PER_LETTER: usize = 1;

/// The mutable shared settings. Readers take one consistent snapshot per poll
/// cycle or flush tick; a change never retroactively re-evaluates work already
/// done under an earlier snapshot.
#[derive(Clone, Debug)]
pub struct Settings {
    /// Restrict polling to a single subreddit; `None` polls the global feed.
    pub subreddit: Option<String>,
    /// Regular-expression pattern applied to submission titles post-fetch.
    pub submission_filter_regex: Option<String>,
    /// Address to notify; `None` disables sending altogether.
    pub notify_email: Option<String>,
    /// Interval between fetches of the global feed, in milliseconds.
    pub reddit_fetch_interval_ms: Option<u64>,
    /// Interval between fetches while a subreddit filter is active, in milliseconds.
    pub subreddit_fetch_interval_ms: Option<u64>,
    /// A letter is due once this much time has passed since the last flush.
    pub email_send_interval_ms: Option<u64>,
    /// Maximum number of submissions drained into one letter.
    pub email_max_submissions_per_letter: Option<usize>,
    /// Minimum queue length before any letter is composed.
    pub email_min_submissions_per_letter: Option<usize>,
}

impl Settings {
    /// The fetch interval for the global feed, with its default applied.
    pub open spec fn spec_reddit_fetch_interval_ms(self) -> u64 {
        self.reddit_fetch_interval_ms.unwrap_or(DEFAULT_REDDIT_FETCH_INTERVAL_MS)
    }

    /// The fetch interval under an active subreddit filter, with its default applied.
    pub open spec fn spec_subreddit_fetch_interval_ms(self) -> u64 {
        self.subreddit_fetch_interval_ms.unwrap_or(DEFAULT_SUBREDDIT_FETCH_INTERVAL_MS)
    }

    /// The send interval, with its default applied.
    pub open spec fn spec_email_send_interval_ms(self) -> u64 {
        self.email_send_interval_ms.unwrap_or(DEFAULT_EMAIL_SEND_INTERVAL_MS)
    }

    /// The per-letter cap, with its default applied.
    pub open spec fn spec_max_per_letter(self) -> usize {
        self.email_max_submissions_per_letter.unwrap_or(DEFAULT_EMAIL_MAX_SUBMISSIONS_PER_LETTER)
    }

    /// The per-letter floor, with its default applied.
    pub open spec fn spec_min_per_letter(self) -> usize {
        self.email_min_submissions_per_letter.unwrap_or(DEFAULT_EMAIL_MIN_SUBMISSIONS_PER_LETTER)
    }
}

impl Default for Settings {
    /// A settings value with nothing set: every consumer then runs on the
    /// documented defaults.
    fn default() -> (r: Self)
        ensures
            r.subreddit is None,
            r.submission_filter_regex is None,
            r.notify_email is None,
            r.reddit_fetch_interval_ms is None,
            r.subreddit_fetch_interval_ms is None,
            r.email_send_interval_ms is None,
            r.email_max_submissions_per_letter is None,
            r.email_min_submissions_per_letter is None,
    {
        Settings {
            subreddit: None,
            submission_filter_regex: None,
            notify_email: None,
            reddit_fetch_interval_ms: None,
            subreddit_fetch_interval_ms: None,
            email_send_interval_ms: None,
            email_max_submissions_per_letter: None,
            email_min_submissions_per_letter: None,
        }
    }
}

} // verus!

//! A single feed entry, as the poller hands it downstream.

use vstd::prelude::*;

verus! {

/// One feed submission. The feed guarantees that `id` is globally unique and
/// never reused during a process lifetime; the poller's cursor relies on that
/// for deduplication. `created_utc` is the creation time as whole seconds of
/// UTC epoch time.
#[derive(Clone, Debug)]
pub struct Submission {
    pub id: String,
    pub title: String,
    pub author: String,
    pub subreddit_name_prefixed: String,
    pub created_utc: i64,
    pub permalink: String,
}

} // verus!

//! The poller: turns a paginated "newest N" feed into a duplicate-free,
//! chronologically ordered stream of new submissions.
//!
//! The watcher owns the cursor (the scope it was taken under and the id of the
//! most recently observed submission) and the live-reconfigurable scope and
//! title filters. It never performs a fetch itself: it hands the caller a
//! plain [`FetchRequest`] and ingests the page the caller fetched, so every
//! decision — when to re-bootstrap, how to advance the cursor, what to emit
//! and in which order — is made here, on plain values.

use vstd::prelude::*;

use crate::error::WatcherError;
use crate::settings::Settings;
use crate::submission::Submission;
use crate::title_filter::{title_passes, regex_valid, TitleFilter};

verus! {

broadcast use vstd::seq_lib::group_seq_properties;

/// Page size for ordinary incremental fetches.
pub const DEFAULT_FETCH_PAGE_SIZE: u32 = 100;

/// Page size for a bootstrap fetch: only the newest entry is needed, a page
/// of two tolerates a pinned entry at the head of the feed.
pub const BOOTSTRAP_FETCH_PAGE_SIZE: u32 = 2;

/// The deduplication point: the scope the poller was looking at when the
/// cursor was taken, and the id of the newest submission observed under it.
/// The cursor is valid only while `scope` still equals the active scope
/// filter; on mismatch it is discarded and re-bootstrapped.
#[derive(Debug)]
pub struct Cursor {
    pub scope: Option<String>,
    pub last_id: Option<String>,
}

/// A fetch, described as plain values: the transport turns this into one GET
/// of the feed, newest first, restricted to `subreddit` when set, to entries
/// newer than `before` when set, and to at most `limit` entries.
#[derive(Debug)]
pub struct FetchRequest {
    pub subreddit: Option<String>,
    pub before: Option<String>,
    pub limit: u32,
}

/// What one ingested page produced: the submissions to emit downstream, in
/// chronological (oldest-first) order and title-filtered, and whether the
/// page came back full — a full page means the fetch rate may be too low and
/// entries may have been missed (accepted as best effort, no re-pagination).
#[derive(Debug)]
pub struct CycleOutcome {
    pub emitted: Vec<Submission>,
    pub page_full_warning: bool,
}

/// An `Option<String>` as the mathematical value it holds.
pub open spec fn opt_str_view(o: Option<String>) -> Option<Seq<char>> {
    match o {
        None => None,
        Some(s) => Some(s@),
    }
}

/// The title predicate induced by a filter snapshot.
pub open spec fn title_pred(filter: Option<TitleFilter>) -> spec_fn(Submission) -> bool {
    |s: Submission| title_passes(filter, s.title@)
}

/// What a cycle emits: the raw page arrives newest first, is reversed to
/// oldest first, and is then title-filtered under the snapshot taken for that
/// cycle.
pub open spec fn emitted_seq(page: Seq<Submission>, filter: Option<TitleFilter>) -> Seq<Submission> {
    page.reverse().filter(title_pred(filter))
}

/// How the cursor moves: a non-empty page advances it to the id of the page's
/// newest (first, pre-reversal) entry, under the scope of the cycle; an empty
/// page — which is also how a failed fetch is treated — leaves it unchanged.
pub open spec fn spec_cursor_after(
    scope: Option<String>,
    cursor: Option<Cursor>,
    page: Seq<Submission>,
) -> Option<Cursor> {
    if page.len() > 0 {
        Some(Cursor { scope, last_id: Some(page[0].id) })
    } else {
        cursor
    }
}

/// Whether the next cycle must bootstrap instead of fetching with the cursor:
/// on first activation there is no cursor yet, and after a scope change the
/// cursor's scope no longer matches the active filter.
pub open spec fn spec_needs_bootstrap(cursor: Option<Cursor>, scope: Option<String>) -> bool {
    match cursor {
        None => true,
        Some(c) => opt_str_view(c.scope) != opt_str_view(scope),
    }
}

/// The cursor a bootstrap records: the id of the newest entry currently in
/// the feed under the active scope, or nothing when the feed is empty or the
/// bootstrap fetch failed. The seeded entry itself is never emitted.
pub open spec fn spec_bootstrap_cursor(
    scope: Option<String>,
    page: Result<Vec<Submission>, WatcherError>,
) -> Cursor {
    Cursor { scope, last_id: if page_items(page).len() > 0 { Some(page_items(page)[0].id) } else { None } }
}

/// The items a fetch produced; a failed fetch is treated as an empty page.
pub open spec fn page_items(page: Result<Vec<Submission>, WatcherError>) -> Seq<Submission> {
    match page {
        Ok(p) => p@,
        Err(_) => Seq::empty(),
    }
}

/// The `before` value the cursor contributes to a fetch.
pub open spec fn spec_cursor_before(cursor: Option<Cursor>) -> Option<String> {
    match cursor {
        None => None,
        Some(c) => c.last_id,
    }
}

fn clone_opt_string(o: &Option<String>) -> (r: Option<String>)
    ensures
        r == *o,
{
    match o {
        None => None,
        Some(s) => Some(s.clone()),
    }
}

fn opt_string_view_eq(a: &Option<String>, b: &Option<String>) -> (r: bool)
    ensures
        r == (opt_str_view(*a) == opt_str_view(*b)),
{
    match (a, b) {
        (None, None) => true,
        (Some(x), Some(y)) => x.eq(y),
        _ => false,
    }
}

/// The poller's whole state: filters and intervals (live-reconfigurable) and
/// the cursor. One value of this type, behind whatever lock the caller
/// chooses, is the poll loop.
#[derive(Debug)]
pub struct RedditWatcher {
    /// Restrict polling to one subreddit; `None` polls the global feed.
    pub subreddit_filter: Option<String>,
    /// Title filter applied, one snapshot per cycle, to fetched submissions.
    pub title_regex_filter: Option<TitleFilter>,
    /// Interval between fetches of the global feed, in milliseconds.
    pub reddit_fetch_interval_ms: u64,
    /// Interval between fetches under a subreddit filter, in milliseconds.
    pub subreddit_fetch_interval_ms: u64,
    /// The deduplication point; `None` until the first bootstrap.
    pub cursor: Option<Cursor>,
}

impl RedditWatcher {
    /// Builds a watcher from one settings snapshot: the scope filter is taken
    /// as is, the title pattern must compile (anything else is a
    /// configuration error), the fetch intervals get their defaults, and no
    /// cursor exists yet, so the first cycle bootstraps.
    pub fn new(env_settings: Settings) -> (r: Result<RedditWatcher, WatcherError>)
        ensures
            r is Ok <==> (env_settings.submission_filter_regex matches Some(p) ==> regex_valid(p@)),
            r matches Ok(w) ==> {
                &&& w.subreddit_filter == env_settings.subreddit
                &&& match env_settings.submission_filter_regex {
                    None => w.title_regex_filter is None,
                    Some(p) => w.title_regex_filter matches Some(f) && f@ == p@,
                }
                &&& w.reddit_fetch_interval_ms == env_settings.spec_reddit_fetch_interval_ms()
                &&& w.subreddit_fetch_interval_ms == env_settings.spec_subreddit_fetch_interval_ms()
                &&& w.cursor is None
            },
            r matches Err(e) ==> e == WatcherError::ConfigurationError,
    {
        let title_regex_filter = match &env_settings.submission_filter_regex {
            Some(pattern) => match TitleFilter::new(pattern.clone()) {
                Ok(f) => Some(f),
                Err(e) => {
                    return Err(e);
                },
            },
            None => None,
        };
        Ok(RedditWatcher {
            subreddit_filter: env_settings.subreddit,
            title_regex_filter,
            reddit_fetch_interval_ms: env_settings
                .reddit_fetch_interval_ms
                .unwrap_or(crate::settings::DEFAULT_REDDIT_FETCH_INTERVAL_MS),
            subreddit_fetch_interval_ms: env_settings
                .subreddit_fetch_interval_ms
                .unwrap_or(crate::settings::DEFAULT_SUBREDDIT_FETCH_INTERVAL_MS),
            cursor: None,
        })
    }

    /// Replaces the scope filter. The cursor is left alone here: the next
    /// cycle notices the mismatch and re-bootstraps.
    pub fn with_subredit_filter(&mut self, subreddit: Option<String>)
        ensures
            final(self).subreddit_filter == subreddit,
            final(self).title_regex_filter == old(self).title_regex_filter,
            final(self).cursor == old(self).cursor,
            final(self).reddit_fetch_interval_ms == old(self).reddit_fetch_interval_ms,
            final(self).subreddit_fetch_interval_ms == old(self).subreddit_fetch_interval_ms,
    {
        self.subreddit_filter = subreddit;
    }

    /// Replaces the title filter. Takes effect from the next cycle on: pages
    /// already ingested were filtered under their own snapshot.
    pub fn with_title_filter(&mut self, regex: Option<TitleFilter>)
        ensures
            final(self).title_regex_filter == regex,
            final(self).subreddit_filter == old(self).subreddit_filter,
            final(self).cursor == old(self).cursor,
            final(self).reddit_fetch_interval_ms == old(self).reddit_fetch_interval_ms,
            final(self).subreddit_fetch_interval_ms == old(self).subreddit_fetch_interval_ms,
    {
        self.title_regex_filter = regex;
    }

    /// Replaces the fetch interval used for the global feed, in milliseconds.
    pub fn with_reddit_fetch_interval(&mut self, t: u64)
        ensures
            final(self).reddit_fetch_interval_ms == t,
            final(self).subreddit_filter == old(self).subreddit_filter,
            final(self).title_regex_filter == old(self).title_regex_filter,
            final(self).cursor == old(self).cursor,
            final(self).subreddit_fetch_interval_ms == old(self).subreddit_fetch_interval_ms,
    {
        self.reddit_fetch_interval_ms = t;
    }

    /// Replaces the fetch interval used under a subreddit filter, in milliseconds.
    pub fn with_subreddit_fetch_interval(&mut self, t: u64)
        ensures
            final(self).subreddit_fetch_interval_ms == t,
            final(self).subreddit_filter == old(self).subreddit_filter,
            final(self).title_regex_filter == old(self).title_regex_filter,
            final(self).cursor == old(self).cursor,
            final(self).reddit_fetch_interval_ms == old(self).reddit_fetch_interval_ms,
    {
        self.subreddit_fetch_interval_ms = t;
    }

    /// How long the current cycle suspends before it fetches: the slower
    /// global-feed interval when unscoped, the independently configured one
    /// when a subreddit filter is active.
    pub fn poll_interval_ms(&self) -> (r: u64)
        ensures
            r == if self.subreddit_filter is Some {
                self.subreddit_fetch_interval_ms
            } else {
                self.reddit_fetch_interval_ms
            },
    {
        if self.subreddit_filter.is_some() {
            self.subreddit_fetch_interval_ms
        } else {
            self.reddit_fetch_interval_ms
        }
    }

    /// Whether the cycle must bootstrap before fetching: true on first
    /// activation and whenever the scope filter changed since the cursor was
    /// taken.
    pub fn needs_bootstrap(&self) -> (r: bool)
        ensures
            r == spec_needs_bootstrap(self.cursor, self.subreddit_filter),
    {
        match &self.cursor {
            None => true,
            Some(c) => !opt_string_view_eq(&c.scope, &self.subreddit_filter),
        }
    }

    /// The fetch that seeds the deduplication point: newest entries of the
    /// active scope, without a `before` bound.
    pub fn bootstrap_request(&self) -> (r: FetchRequest)
        ensures
            r.subreddit == self.subreddit_filter,
            r.before is None,
            r.limit == BOOTSTRAP_FETCH_PAGE_SIZE,
    {
        FetchRequest {
            subreddit: clone_opt_string(&self.subreddit_filter),
            before: None,
            limit: BOOTSTRAP_FETCH_PAGE_SIZE,
        }
    }

    /// Records the bootstrap's outcome as the new cursor, emitting nothing:
    /// the backlog that was already in the feed is deliberately skipped.
    pub fn apply_bootstrap(&mut self, page: Result<Vec<Submission>, WatcherError>)
        ensures
            final(self).cursor == Some(spec_bootstrap_cursor(old(self).subreddit_filter, page)),
            final(self).subreddit_filter == old(self).subreddit_filter,
            final(self).title_regex_filter == old(self).title_regex_filter,
            final(self).reddit_fetch_interval_ms == old(self).reddit_fetch_interval_ms,
            final(self).subreddit_fetch_interval_ms == old(self).subreddit_fetch_interval_ms,
    {
        let last_id = match &page {
            Ok(p) => {
                if p.len() > 0 {
                    Some(p[0].id.clone())
                } else {
                    None
                }
            },
            Err(_) => None,
        };
        self.cursor = Some(Cursor { scope: clone_opt_string(&self.subreddit_filter), last_id });
    }

    /// Describes the cycle's incremental fetch: the active scope, the
    /// cursor's id as the `before` bound, and the requested page size. A page
    /// size outside 1..=100 is a configuration error, and no fetch happens:
    /// no request value exists to hand to the transport.
    pub fn fetch_request(&self, limit: u32) -> (r: Result<FetchRequest, WatcherError>)
        ensures
            r is Ok <==> 1 <= limit <= 100,
            r matches Ok(req) ==> {
                &&& req.subreddit == self.subreddit_filter
                &&& req.before == spec_cursor_before(self.cursor)
                &&& req.limit == limit
            },
            r matches Err(e) ==> e == WatcherError::ConfigurationError,
    {
        if limit < 1 || limit > 100 {
            return Err(WatcherError::ConfigurationError);
        }
        let before = match &self.cursor {
            None => None,
            Some(c) => clone_opt_string(&c.last_id),
        };
        Ok(FetchRequest { subreddit: clone_opt_string(&self.subreddit_filter), before, limit })
    }

    /// Ingests the page a fetch produced, completing the cycle:
    /// - a failed fetch is treated as an empty page — the cursor is left
    ///   unchanged and nothing is emitted;
    /// - a non-empty page advances the cursor, exactly once, to the id of the
    ///   page's newest entry;
    /// - the page, which arrives newest first, is emitted oldest first, kept
    ///   or dropped per title under this cycle's filter snapshot;
    /// - a page of at least `limit` entries raises the full-page warning:
    ///   entries may have been skipped, and no re-pagination is attempted.
    pub fn ingest_page(&mut self, page: Result<Vec<Submission>, WatcherError>, limit: u32) -> (r:
        CycleOutcome)
        ensures
            final(self).cursor == spec_cursor_after(
                old(self).subreddit_filter,
                old(self).cursor,
                page_items(page),
            ),
            r.emitted@ == emitted_seq(page_items(page), old(self).title_regex_filter),
            r.page_full_warning == (page is Ok && page_items(page).len() >= limit),
            final(self).subreddit_filter == old(self).subreddit_filter,
            final(self).title_regex_filter == old(self).title_regex_filter,
            final(self).reddit_fetch_interval_ms == old(self).reddit_fetch_interval_ms,
            final(self).subreddit_fetch_interval_ms == old(self).subreddit_fetch_interval_ms,
    {
        let ghost filter_snapshot = self.title_regex_filter;
        let mut p: Vec<Submission> = match page {
            Ok(p) => p,
            Err(_) => {
                proof {
                    assert(emitted_seq(Seq::<Submission>::empty(), filter_snapshot) =~= Seq::<
                        Submission,
                    >::empty());
                }
                return CycleOutcome { emitted: Vec::new(), page_full_warning: false };
            },
        };
        let page_full_warning = p.len() >= limit as usize;
        if p.len() > 0 {
            let newest_id = p[0].id.clone();
            self.cursor = Some(
                Cursor {
                    scope: clone_opt_string(&self.subreddit_filter),
                    last_id: Some(newest_id),
                },
            );
        }
        let ghost page0 = p@;
        let ghost n = page0.len() as int;
        let mut emitted: Vec<Submission> = Vec::new();
        proof {
            assert(page0.take(n) =~= page0);
            assert(page0.reverse().take(0).filter(title_pred(filter_snapshot)) =~= Seq::<
                Submission,
            >::empty());
        }
        while p.len() > 0
            invariant
                n == page0.len(),
                p@.len() <= n,
                p@ == page0.take(p@.len() as int),
                emitted@ == page0.reverse().take(n - p@.len()).filter(title_pred(filter_snapshot)),
                self.title_regex_filter == filter_snapshot,
            decreases p@.len(),
        {
            let ghost m = p@.len() as int;
            let s = p.pop().unwrap();
            proof {
                assert(1 <= m && m <= n);
                assert(p@ =~= page0.take(m - 1));
                assert(s == page0.take(m)[m - 1]);
                assert(s == page0[m - 1]);
                assert(page0.reverse().len() == n);
                assert(page0.reverse()[n - m] == page0[m - 1]);
                assert(page0.reverse().take(n - m + 1) =~= page0.reverse().take(n - m).push(s));
            }
            let keep = match &self.title_regex_filter {
                Some(f) => f.is_match(&s.title),
                None => true,
            };
            proof {
                broadcast use Seq::lemma_filter_push;

                assert(keep == title_pred(filter_snapshot)(s));
            }
            if keep {
                emitted.push(s);
            }
        }
        proof {
            assert(page0.reverse().take(n) =~= page0.reverse());
        }
        CycleOutcome { emitted, page_full_warning }
    }

    /// The id the cursor currently holds, if any: the deduplication point for
    /// the next incremental fetch.
    pub fn current_cursor_id(&self) -> (r: Option<String>)
        ensures
            r == spec_cursor_before(self.cursor),
    {
        match &self.cursor {
            None => None,
            Some(c) => clone_opt_string(&c.last_id),
        }
    }
}

/// The cursor after a whole run of cycles, folded left to right.
pub open spec fn cursor_after_pages(
    scope: Option<String>,
    cursor: Option<Cursor>,
    pages: Seq<Seq<Submission>>,
) -> Option<Cursor>
    decreases pages.len(),
{
    if pages.len() == 0 {
        cursor
    } else {
        cursor_after_pages(scope, spec_cursor_after(scope, cursor, pages[0]), pages.skip(1))
    }
}

/// Cursor monotonicity: over any run of successful non-empty fetches under a
/// fixed scope, the cursor always equals the id of the most recently observed
/// submission — the head of the last page — and so never reverts to an older
/// id, whatever cursor the run started from.
pub proof fn lemma_cursor_monotonic(
    scope: Option<String>,
    cursor: Option<Cursor>,
    pages: Seq<Seq<Submission>>,
)
    requires
        pages.len() > 0,
        forall|i: int| 0 <= i < pages.len() ==> #[trigger] pages[i].len() > 0,
    ensures
        cursor_after_pages(scope, cursor, pages) == Some(
            Cursor { scope, last_id: Some(pages.last()[0].id) },
        ),
    decreases pages.len(),
{
    let advanced = spec_cursor_after(scope, cursor, pages[0]);
    assert(pages[0].len() > 0);
    if pages.len() == 1 {
        assert(pages.skip(1).len() == 0);
        assert(cursor_after_pages(scope, advanced, pages.skip(1)) == advanced);
        assert(cursor_after_pages(scope, cursor, pages) == advanced);
        assert(pages.last() == pages[0]);
    } else {
        let rest = pages.skip(1);
        assert forall|i: int| 0 <= i < rest.len() implies #[trigger] rest[i].len() > 0 by {
            assert(rest[i] == pages[i + 1]);
        }
        lemma_cursor_monotonic(scope, advanced, rest);
        assert(cursor_after_pages(scope, cursor, pages) == cursor_after_pages(
            scope,
            advanced,
            rest,
        ));
        assert(rest.last() == pages[pages.len() - 1]);
        assert(rest.last() == pages.last());
    }
}

/// Scope-change re-bootstrap: after any cycle that observed at least one
/// submission, the cursor carries that cycle's scope, so installing a
/// different scope filter makes the next cycle bootstrap instead of fetching
/// with the stale cursor.
pub proof fn lemma_scope_change_rebootstraps(
    scope: Option<String>,
    cursor: Option<Cursor>,
    page: Seq<Submission>,
    new_scope: Option<String>,
)
    requires
        page.len() > 0,
        opt_str_view(new_scope) != opt_str_view(scope),
    ensures
        spec_needs_bootstrap(spec_cursor_after(scope, cursor, page), new_scope),
{
}

/// The emissions of two consecutive cycles, each under its own snapshot.
pub open spec fn two_cycle_emissions(
    page_n: Seq<Submission>,
    filter_n: Option<TitleFilter>,
    page_next: Seq<Submission>,
    filter_next: Option<TitleFilter>,
) -> (Seq<Submission>, Seq<Submission>) {
    (emitted_seq(page_n, filter_n), emitted_seq(page_next, filter_next))
}

/// Title-filter timing: a filter installed between two cycles touches only
/// the later one. The earlier cycle's emissions are fixed by its page and its
/// own snapshot — the same whatever filter the next cycle runs under — and
/// the next cycle runs wholly under the new snapshot.
pub proof fn lemma_title_filter_change_not_retroactive(
    page_n: Seq<Submission>,
    filter_n: Option<TitleFilter>,
    page_next: Seq<Submission>,
    filter_next: Option<TitleFilter>,
    filter_other: Option<TitleFilter>,
)
    ensures
        two_cycle_emissions(page_n, filter_n, page_next, filter_next).0 == two_cycle_emissions(
            page_n,
            filter_n,
            page_next,
            filter_other,
        ).0,
        two_cycle_emissions(page_n, filter_n, page_next, filter_next).1 == emitted_seq(
            page_next,
            filter_next,
        ),
{
}

} // verus!


//! The notification batcher: a FIFO queue of emitted submissions and the
//! flush policy that reconciles a size quota with a time quota.
//!
//! The flush loop itself — a fine-grained tick, a clock, the mail transport —
//! lives with the caller. Each tick hands `flush_tick` the current time and
//! the last-flush time; the batcher reads one settings snapshot, decides
//! whether a flush is due, and if so drains the oldest contiguous prefix of
//! the queue, in order, for the caller to compose and send. The last-flush
//! time is reset the moment a batch is taken, whatever later becomes of the
//! send: delivery is at most once, and a failed send is never retried.

use vstd::prelude::*;

use std::collections::VecDeque;

use crate::settings::{
    Settings, DEFAULT_EMAIL_MAX_SUBMISSIONS_PER_LETTER, DEFAULT_EMAIL_MIN_SUBMISSIONS_PER_LETTER,
    DEFAULT_EMAIL_SEND_INTERVAL_MS,
};
use crate::submission::Submission;

verus! {

broadcast use vstd::seq_lib::group_seq_properties;

/// The flush rule: a flush is due iff the queue is over the size quota or the
/// send interval has elapsed, and the queue is not under the minimum.
pub open spec fn spec_flush_due(
    queue_len: int,
    max: int,
    min: int,
    elapsed_ms: int,
    interval_ms: int,
) -> bool {
    (queue_len > max || elapsed_ms > interval_ms) && !(queue_len < min)
}

/// How many submissions a flush drains: the whole queue, capped by the
/// per-letter maximum — a longer queue keeps a remainder for later flushes.
pub open spec fn spec_batch_len(queue_len: int, max: int) -> int {
    if max < queue_len {
        max
    } else {
        queue_len
    }
}

/// The batcher: the queue it exclusively owns, and the settings snapshot it
/// reads each tick. The queue is strictly FIFO: submissions leave in the
/// exact order they were enqueued, and a flush removes only the oldest
/// contiguous prefix.
pub struct Mailer {
    /// Submissions waiting for the next letter, oldest first.
    pub submission_queue: VecDeque<Submission>,
    /// The live-reconfigurable notification settings.
    pub env_settings: Settings,
}

impl Mailer {
    /// A batcher with an empty queue, sized by the per-letter cap as a
    /// capacity hint.
    pub fn new(env_settings: Settings) -> (r: Mailer)
        ensures
            r.submission_queue@ == Seq::<Submission>::empty(),
            r.env_settings == env_settings,
    {
        let capacity = env_settings.email_max_submissions_per_letter.unwrap_or(
            DEFAULT_EMAIL_MAX_SUBMISSIONS_PER_LETTER,
        );
        Mailer { submission_queue: VecDeque::with_capacity(capacity), env_settings }
    }

    /// Appends one submission at the tail of the queue; nothing else moves.
    pub fn add_submission_to_queue(&mut self, submission: Submission)
        ensures
            final(self).submission_queue@ == old(self).submission_queue@.push(submission),
            final(self).env_settings == old(self).env_settings,
    {
        self.submission_queue.push_back(submission);
    }

    /// Removes the `count` oldest submissions, in their enqueued order.
    fn take_batch(&mut self, count: usize) -> (r: Vec<Submission>)
        requires
            count <= old(self).submission_queue@.len(),
        ensures
            r@ == old(self).submission_queue@.take(count as int),
            final(self).submission_queue@ == old(self).submission_queue@.skip(count as int),
            final(self).env_settings == old(self).env_settings,
    {
        let ghost q0 = self.submission_queue@;
        let ghost settings0 = self.env_settings;
        let mut batch: Vec<Submission> = Vec::new();
        proof {
            assert(q0.take(0) =~= Seq::<Submission>::empty());
            assert(q0.skip(0) =~= q0);
        }
        let mut i: usize = 0;
        while i < count
            invariant
                i <= count,
                count <= q0.len(),
                batch@ == q0.take(i as int),
                self.submission_queue@ == q0.skip(i as int),
                self.env_settings == settings0,
            decreases count - i,
        {
            let s = match self.submission_queue.pop_front() {
                Some(s) => s,
                None => {
                    // unreachable: i < count <= the starting queue length
                    return batch;
                },
            };
            proof {
                assert(s == q0.skip(i as int)[0]);
                assert(s == q0[i as int]);
                assert(q0.skip(i as int).subrange(1, q0.skip(i as int).len() as int) =~= q0.skip(
                    i as int + 1,
                ));
                assert(q0.take(i as int).push(s) =~= q0.take(i as int + 1));
            }
            batch.push(s);
            i += 1;
        }
        batch
    }

    /// One tick of the flush loop. Reads one consistent settings snapshot,
    /// and flushes iff a notification target is configured and the flush rule
    /// holds for the snapshot's quotas: over the size quota or past the send
    /// interval, and not under the minimum. A flush drains the oldest
    /// `min(max-per-letter, queue-length)` submissions — exactly in enqueued
    /// order, possibly leaving a remainder — and resets the last-flush time
    /// to `now_ms` immediately, before any send is attempted. A tick without
    /// a flush changes nothing.
    pub fn flush_tick(&mut self, now_ms: u64, last_sent_ms: &mut u64) -> (r: Option<
        Vec<Submission>,
    >)
        requires
            *old(last_sent_ms) <= now_ms,
        ensures
            final(self).env_settings == old(self).env_settings,
            ({
                let len = old(self).submission_queue@.len() as int;
                let max = old(self).env_settings.spec_max_per_letter() as int;
                let min = old(self).env_settings.spec_min_per_letter() as int;
                let elapsed = now_ms - *old(last_sent_ms);
                let interval = old(self).env_settings.spec_email_send_interval_ms() as int;
                let due = old(self).env_settings.notify_email is Some && spec_flush_due(
                    len,
                    max,
                    min,
                    elapsed,
                    interval,
                );
                &&& r is Some <==> due
                &&& match r {
                    Some(batch) => {
                        let k = spec_batch_len(len, max);
                        &&& batch@ == old(self).submission_queue@.take(k)
                        &&& final(self).submission_queue@ == old(self).submission_queue@.skip(k)
                        &&& *final(last_sent_ms) == now_ms
                    },
                    None => {
                        &&& final(self).submission_queue@ == old(self).submission_queue@
                        &&& *final(last_sent_ms) == *old(last_sent_ms)
                    },
                }
            }),
    {
        if self.env_settings.notify_email.is_none() {
            return None;
        }
        let max = self.env_settings.email_max_submissions_per_letter.unwrap_or(
            DEFAULT_EMAIL_MAX_SUBMISSIONS_PER_LETTER,
        );
        let min = self.env_settings.email_min_submissions_per_letter.unwrap_or(
            DEFAULT_EMAIL_MIN_SUBMISSIONS_PER_LETTER,
        );
        let interval = self.env_settings.email_send_interval_ms.unwrap_or(
            DEFAULT_EMAIL_SEND_INTERVAL_MS,
        );
        let len = self.submission_queue.len();
        let over_quota = len > max;
        let under_quota = len < min;
        let over_interval = now_ms - *last_sent_ms > interval;
        if (over_quota || over_interval) && !under_quota {
            let count = if max < len {
                max
            } else {
                len
            };
            let batch = self.take_batch(count);
            *last_sent_ms = now_ms;
            Some(batch)
        } else {
            None
        }
    }

    /// How many submissions are waiting.
    pub fn queue_len(&self) -> (r: usize)
        ensures
            r == self.submission_queue@.len(),
    {
        self.submission_queue.len()
    }
}

} // verus!

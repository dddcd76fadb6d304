use reddit_watcher::{Mailer, Settings, Submission, TitleFilter, RedditWatcher};

fn queued(id: &str, title: &str, created_utc: i64) -> Submission {
    Submission {
        id: id.to_string(),
        title: title.to_string(),
        author: "author".to_string(),
        subreddit_name_prefixed: "r/testing".to_string(),
        created_utc,
        permalink: format!("/r/testing/{}", id),
    }
}

fn notify_settings(max: usize, min: usize, interval_ms: u64) -> Settings {
    let mut s = Settings::default();
    s.notify_email = Some("user@example.com".to_string());
    s.email_max_submissions_per_letter = Some(max);
    s.email_min_submissions_per_letter = Some(min);
    s.email_send_interval_ms = Some(interval_ms);
    s
}

#[test]
fn over_quota_flush_drains_cap_and_leaves_remainder() {
    // max 5, min 1: six queued submissions are over quota, the flush takes
    // exactly the five oldest and leaves one behind.
    let mut m = Mailer::new(notify_settings(5, 1, 600_000));
    for i in 0..6 {
        m.add_submission_to_queue(queued(&format!("t3_{}", i), "title", 100 + i));
    }
    let mut last_sent: u64 = 1_000;
    let batch = m.flush_tick(1_001, &mut last_sent).expect("over quota: flush is due");
    let ids: Vec<String> = batch.iter().map(|s| s.id.clone()).collect();
    assert_eq!(ids, vec!["t3_0", "t3_1", "t3_2", "t3_3", "t3_4"]);
    assert_eq!(m.queue_len(), 1);
    assert_eq!(last_sent, 1_001);

    // The remainder is under the interval and not over quota: no second flush
    // until the interval elapses again.
    assert!(m.flush_tick(1_002, &mut last_sent).is_none());
    let batch = m.flush_tick(700_000, &mut last_sent).expect("interval elapsed");
    let ids: Vec<String> = batch.iter().map(|s| s.id.clone()).collect();
    assert_eq!(ids, vec!["t3_5"]);
    assert_eq!(m.queue_len(), 0);
}

#[test]
fn under_minimum_starves_even_past_interval() {
    // min 3 with two queued: no flush, however long the interval has elapsed.
    let mut m = Mailer::new(notify_settings(200, 3, 1_000));
    m.add_submission_to_queue(queued("t3_a", "A", 100));
    m.add_submission_to_queue(queued("t3_b", "B", 101));
    let mut last_sent: u64 = 0;
    assert!(m.flush_tick(10_000_000, &mut last_sent).is_none());
    assert_eq!(m.queue_len(), 2);
    assert_eq!(last_sent, 0);

    // The third submission meets the floor; the elapsed interval triggers.
    m.add_submission_to_queue(queued("t3_c", "C", 102));
    let batch = m.flush_tick(10_000_000, &mut last_sent).unwrap();
    assert_eq!(batch.len(), 3);
}

#[test]
fn interval_is_a_strict_bound() {
    let mut m = Mailer::new(notify_settings(200, 1, 1_000));
    m.add_submission_to_queue(queued("t3_a", "A", 100));
    let mut last_sent: u64 = 0;
    // Exactly at the interval nothing is due; one past it, the flush runs.
    assert!(m.flush_tick(1_000, &mut last_sent).is_none());
    assert!(m.flush_tick(1_001, &mut last_sent).is_some());
}

#[test]
fn size_quota_is_a_strict_bound() {
    // A queue exactly at the cap is not over quota.
    let mut m = Mailer::new(notify_settings(2, 1, 600_000));
    m.add_submission_to_queue(queued("t3_a", "A", 100));
    m.add_submission_to_queue(queued("t3_b", "B", 101));
    let mut last_sent: u64 = 0;
    assert!(m.flush_tick(1, &mut last_sent).is_none());
    m.add_submission_to_queue(queued("t3_c", "C", 102));
    let batch = m.flush_tick(2, &mut last_sent).unwrap();
    assert_eq!(batch.len(), 2);
    assert_eq!(m.queue_len(), 1);
}

#[test]
fn no_notification_target_never_flushes() {
    let mut s = notify_settings(5, 1, 1_000);
    s.notify_email = None;
    let mut m = Mailer::new(s);
    for i in 0..10 {
        m.add_submission_to_queue(queued(&format!("t3_{}", i), "title", 100 + i));
    }
    let mut last_sent: u64 = 0;
    assert!(m.flush_tick(10_000_000, &mut last_sent).is_none());
    assert_eq!(m.queue_len(), 10);
}

#[test]
fn flush_preserves_enqueue_order() {
    let mut m = Mailer::new(notify_settings(200, 1, 1_000));
    m.add_submission_to_queue(queued("t3_first", "first", 100));
    m.add_submission_to_queue(queued("t3_second", "second", 101));
    m.add_submission_to_queue(queued("t3_third", "third", 102));
    let mut last_sent: u64 = 0;
    let batch = m.flush_tick(2_000, &mut last_sent).unwrap();
    let ids: Vec<String> = batch.iter().map(|s| s.id.clone()).collect();
    assert_eq!(ids, vec!["t3_first", "t3_second", "t3_third"]);
}

#[test]
fn default_settings_apply_at_each_tick() {
    // With nothing set: min 1, max 200, interval 10 minutes.
    let mut s = Settings::default();
    s.notify_email = Some("user@example.com".to_string());
    let mut m = Mailer::new(s);
    m.add_submission_to_queue(queued("t3_a", "A", 100));
    let mut last_sent: u64 = 0;
    assert!(m.flush_tick(600_000, &mut last_sent).is_none());
    let batch = m.flush_tick(600_001, &mut last_sent).unwrap();
    assert_eq!(batch.len(), 1);
}

#[test]
fn zero_cap_drains_nothing() {
    // A per-letter cap of zero is over quota at once but caps the drain at
    // zero submissions; the queue keeps everything.
    let mut m = Mailer::new(notify_settings(0, 0, 600_000));
    m.add_submission_to_queue(queued("t3_a", "A", 100));
    let mut last_sent: u64 = 0;
    let batch = m.flush_tick(1, &mut last_sent).unwrap();
    assert!(batch.is_empty());
    assert_eq!(m.queue_len(), 1);
}

#[test]
fn emitted_cycle_feeds_queue_end_to_end() {
    // Feed returns [A(t=100), B(t=101), C(t=102)] as the newest-first page
    // [C, B, A]; with a title filter matching only "B", the batcher's queue
    // receives exactly B once the cycle completes.
    let mut w = RedditWatcher::new(Settings::default()).unwrap();
    w.with_title_filter(Some(TitleFilter::new("^B$".to_string()).unwrap()));
    let page = vec![queued("t3_c", "C", 102), queued("t3_b", "B", 101), queued("t3_a", "A", 100)];
    let out = w.ingest_page(Ok(page), 100);

    let mut m = Mailer::new(notify_settings(200, 1, 1_000));
    for s in out.emitted {
        m.add_submission_to_queue(s);
    }
    assert_eq!(m.queue_len(), 1);
    let mut last_sent: u64 = 0;
    let batch = m.flush_tick(2_000, &mut last_sent).unwrap();
    assert_eq!(batch.len(), 1);
    assert_eq!(batch[0].id, "t3_b");
    assert_eq!(batch[0].title, "B");
    assert_eq!(batch[0].created_utc, 101);
}

use tailburrow::session::{
    copy_text, FAState, FASyncStatus, StartError, Status, SyncSession, SyncState, SyncStatus,
};

#[test]
fn fresh_session_runs_with_zero_counters() {
    let s = SyncSession::fresh(Some(5));
    assert!(s.running);
    assert!(!s.cancelled);
    assert_eq!(s.max_new_items, Some(5));
    assert_eq!(
        (s.scanned_pages, s.scanned_candidates, s.skipped_existing, s.skipped_by_hash),
        (0, 0, 0, 0)
    );
    assert_eq!((s.attempted, s.imported, s.upgraded, s.failed, s.unavailable), (0, 0, 0, 0, 0));
    assert_eq!(s.last_error, None);
    assert_eq!(s.current_message, None);
}

#[test]
fn status_snapshot_adds_both_kinds_of_skip() {
    let mut s = SyncSession::fresh(None);
    s.scanned_pages = 2;
    s.scanned_candidates = 10;
    s.skipped_existing = 3;
    s.skipped_by_hash = 2;
    s.attempted = 4;
    s.imported = 2;
    s.failed = 1;
    s.unavailable = 1;
    s.last_error = Some("boom".to_string());
    let st: SyncStatus = s.to_status();
    assert!(st.running);
    assert_eq!(st.scanned_pages, 2);
    assert_eq!(st.scanned_posts, 10);
    assert_eq!(st.skipped_existing, 5);
    assert_eq!(st.new_attempted, 4);
    assert_eq!(st.downloaded_ok, 2);
    assert_eq!(st.failed_downloads, 1);
    assert_eq!(st.unavailable, 1);
    assert_eq!(st.last_error, Some("boom".to_string()));
    assert_eq!(st.max_new_downloads, None);
}

#[test]
fn fa_snapshot_maps_each_counter() {
    let mut s = SyncSession::fresh(None);
    s.scanned_candidates = 9;
    s.skipped_existing = 1;
    s.skipped_by_hash = 2;
    s.imported = 3;
    s.upgraded = 1;
    s.failed = 2;
    let st: FASyncStatus = s.to_fa_status();
    assert_eq!(
        (st.scanned, st.skipped_url, st.skipped_md5, st.imported, st.upgraded, st.errors),
        (9, 1, 2, 3, 1, 2)
    );
    assert_eq!(st.current_message, "");
    s.current_message = Some("Scanning page 1...".to_string());
    assert_eq!(s.to_fa_status().current_message, "Scanning page 1...");
}

#[test]
fn start_is_refused_while_running() {
    let mut st = SyncState::new();
    assert!(!st.status.running);
    assert_eq!(st.start(true, Some(3)), Ok(()));
    assert!(st.status.running);
    assert_eq!(st.status.max_new_downloads, Some(3));
    assert_eq!(st.start(true, None), Err(StartError::AlreadyRunning));
    assert_eq!(st.start(false, None), Err(StartError::AlreadyRunning));
    assert!(st.status.running);
    assert_eq!(st.status.max_new_downloads, Some(3));
}

#[test]
fn start_after_a_finished_run_resets_the_snapshot() {
    let mut st = SyncState::new();
    st.start(true, None).unwrap();
    st.cancel();
    let mut s = SyncSession::fresh(None);
    s.scanned_candidates = 4;
    s.imported = 4;
    st.publish(&s);
    st.finish(Some("fatal".to_string()));
    assert!(!st.status.running);
    assert!(st.status.cancelled);
    assert_eq!(st.status.downloaded_ok, 4);
    assert_eq!(st.status.last_error, Some("fatal".to_string()));
    assert_eq!(st.start(true, Some(1)), Ok(()));
    assert!(st.status.running);
    assert!(!st.status.cancelled);
    assert!(!st.cancel_requested);
    assert_eq!(st.status.downloaded_ok, 0);
    assert_eq!(st.status.last_error, None);
}

#[test]
fn cancel_is_idempotent() {
    let mut st = SyncState::new();
    st.start(true, None).unwrap();
    st.cancel();
    assert!(st.cancel_requested);
    assert!(st.status.cancelled);
    assert!(st.status.running);
    st.cancel();
    assert!(st.cancel_requested);
    assert!(st.status.cancelled);
    assert!(st.status.running);
}

#[test]
fn publish_keeps_a_stop_request_visible() {
    let mut st = SyncState::new();
    st.start(true, None).unwrap();
    st.cancel();
    let s = SyncSession::fresh(None);
    assert!(!s.cancelled);
    st.publish(&s);
    assert!(st.status.cancelled);
    assert!(st.cancel_requested);
}

#[test]
fn finish_keeps_counters_and_the_last_error() {
    let mut st = SyncState::new();
    st.start(true, None).unwrap();
    let mut s = SyncSession::fresh(None);
    s.scanned_candidates = 2;
    s.failed = 1;
    s.last_error = Some("first".to_string());
    st.publish(&s);
    st.finish(None);
    assert!(!st.status.running);
    assert_eq!(st.status.failed_downloads, 1);
    assert_eq!(st.status.last_error, Some("first".to_string()));
}

#[test]
fn fa_state_start_cancel_finish() {
    let mut st = FAState::new();
    assert!(!st.status.running);
    assert_eq!(st.start(false), Err(StartError::MissingCredentials));
    assert!(!st.status.running);
    assert_eq!(st.start(true), Ok(()));
    assert_eq!(st.start(true), Err(StartError::AlreadyRunning));
    assert_eq!(st.start(false), Err(StartError::MissingCredentials));
    assert!(st.status.running);
    assert!(!st.status.cancelled);
    st.cancel();
    assert!(st.should_cancel);
    assert!(st.status.cancelled);
    assert!(st.status.running);
    st.cancel();
    assert!(st.should_cancel);
    assert!(st.status.cancelled);
    let mut s = SyncSession::fresh(None);
    s.imported = 2;
    s.running = false;
    st.publish(&s);
    assert_eq!(st.status.imported, 2);
    assert!(st.status.cancelled);
    st.finish("Done.");
    assert!(!st.status.running);
    assert!(st.status.cancelled);
    assert_eq!(st.status.current_message, "Done.");
    assert_eq!(st.status.imported, 2);
    assert_eq!(st.start(true), Ok(()));
    assert!(!st.should_cancel);
    assert!(!st.status.cancelled);
    assert_eq!(st.status.imported, 0);
}

#[test]
fn status_answer_and_text_copy() {
    let s = Status::accepted("Sync started");
    assert!(s.ok);
    assert_eq!(s.message, "Sync started");
    assert_eq!(copy_text(&Some("x".to_string())), Some("x".to_string()));
    assert_eq!(copy_text(&None), None);
}

#[test]
fn start_without_credentials_is_refused_and_changes_nothing() {
    let mut st = SyncState::new();
    assert_eq!(st.start(false, Some(2)), Err(StartError::MissingCredentials));
    assert!(!st.status.running);
    assert_eq!(st.status.max_new_downloads, None);
    assert!(!st.cancel_requested);
}

#[test]
fn scraped_snapshot_shows_the_stop_request_of_the_record() {
    let mut s = SyncSession::fresh(None);
    assert!(!s.to_fa_status().cancelled);
    s.cancelled = true;
    assert!(s.to_fa_status().cancelled);
    assert!(!FAState::new().status.cancelled);
}

#[test]
fn single_post_answer_follows_the_record() {
    let mut s = SyncSession::fresh(None);
    s.scanned_candidates = 1;
    assert_eq!(s.single_post_status().unwrap_err(), "Post has no id");
    s.unavailable = 1;
    assert_eq!(s.single_post_status().unwrap_err(), "Missing file_url from e621");
    s.unavailable = 0;
    s.failed = 1;
    s.last_error = Some("Missing file_ext from e621".to_string());
    assert_eq!(s.single_post_status().unwrap_err(), "Missing file_ext from e621");
    s.failed = 0;
    s.last_error = None;
    s.imported = 1;
    let st = s.single_post_status().unwrap();
    assert!(st.ok);
    assert_eq!(st.message, "Downloaded into library");
    s.imported = 0;
    s.skipped_by_hash = 1;
    assert_eq!(s.single_post_status().unwrap().message, "Already downloaded (md5 match)");
    s.skipped_by_hash = 0;
    s.skipped_existing = 1;
    assert_eq!(s.single_post_status().unwrap().message, "Already downloaded");
}

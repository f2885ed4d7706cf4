use shared_display::eviction::{
    backing_file, deletion_threshold, settle, sweep_candidates, DeleteOutcome,
    DELETION_THRESHOLD_SECS, SWEEP_INTERVAL_SECS,
};
use shared_display::ledger::ClientAddr;
use shared_display::media::{confirm_viewed, media_for_viewer};
use shared_display::state::{MediaInfo, MediaType, MediaViewState};
use shared_display::time::{Span, Timestamp};

fn upload(name: &str, uploaded_at: u64) -> MediaInfo {
    MediaInfo {
        filename: name.to_string(),
        media_type: MediaType::Image,
        upload_time: Timestamp::from_secs(uploaded_at),
        marked_for_deletion: false,
        duration_secs: 5,
        caption: String::new(),
    }
}

#[test]
fn the_sweep_runs_every_second_with_a_threshold_of_ten() {
    assert_eq!(SWEEP_INTERVAL_SECS, 1);
    assert_eq!(DELETION_THRESHOLD_SECS, 10);
    assert_eq!(deletion_threshold(), Span { secs: 10, nanos: 0 });
    assert_eq!(backing_file("cat.jpg"), "uploads/cat.jpg");
}

#[test]
fn sweep_lists_at_eleven_seconds_not_at_nine() {
    let mut state = MediaViewState::new();
    state.set_last_media(upload("cat.jpg", 1000));
    assert!(sweep_candidates(&state, Timestamp::from_secs(1009)).is_empty());
    assert_eq!(
        sweep_candidates(&state, Timestamp::from_secs(1011)),
        vec![("cat.jpg".to_string(), MediaType::Image)]
    );
}

#[test]
fn a_successful_delete_empties_the_slot() {
    let mut state = MediaViewState::new();
    state.set_last_media(upload("cat.jpg", 0));
    state.mark_viewed("cat.jpg", ClientAddr::V4(1));
    settle(&mut state, "cat.jpg", DeleteOutcome::Deleted);
    assert!(state.get_last_media().is_none());
    assert!(!state.has_been_viewed("cat.jpg", ClientAddr::V4(1)));
    assert!(sweep_candidates(&state, Timestamp::from_secs(100)).is_empty());
}

#[test]
fn a_failed_delete_quarantines_the_item() {
    let mut state = MediaViewState::new();
    state.set_last_media(upload("cat.jpg", 0));
    settle(&mut state, "cat.jpg", DeleteOutcome::Failed);
    assert!(state.get_last_media().unwrap().marked_for_deletion);
    assert!(state.get_last_media_for_ip(ClientAddr::V4(1)).is_none());
    assert!(state.get_last_media_for_ip(ClientAddr::V4(2)).is_none());
    assert!(sweep_candidates(&state, Timestamp::from_secs(100)).is_empty());
}

#[test]
fn settling_a_replaced_item_changes_nothing() {
    let mut state = MediaViewState::new();
    state.set_last_media(upload("old.jpg", 0));
    let due = sweep_candidates(&state, Timestamp::from_secs(50));
    state.set_last_media(upload("new.jpg", 50));
    settle(&mut state, &due[0].0, DeleteOutcome::Failed);
    assert!(!state.get_last_media().unwrap().marked_for_deletion);
    settle(&mut state, &due[0].0, DeleteOutcome::Deleted);
    assert_eq!(state.get_last_media().unwrap().filename, "new.jpg");
}

#[test]
fn an_item_replaced_before_the_threshold_is_never_listed() {
    let mut state = MediaViewState::new();
    state.set_last_media(upload("old.jpg", 0));
    state.set_last_media(upload("new.jpg", 5));
    let due = sweep_candidates(&state, Timestamp::from_secs(12));
    assert!(due.is_empty());
    let due = sweep_candidates(&state, Timestamp::from_secs(16));
    assert_eq!(due, vec![("new.jpg".to_string(), MediaType::Image)]);
}

#[test]
fn show_then_record_serves_each_viewer_once() {
    let first = Some(ClientAddr::V4(0x0A00_0001));
    let second = Some(ClientAddr::V4(0x0A00_0002));
    let mut state = MediaViewState::new();
    state.set_last_media(upload("cat.jpg", 0));

    let shown = media_for_viewer(&state, first);
    assert_eq!(shown.as_ref().map(|m| m.filename.as_str()), Some("cat.jpg"));
    assert!(confirm_viewed(&mut state, &shown, first));
    assert!(media_for_viewer(&state, first).is_none());

    let shown = media_for_viewer(&state, second);
    assert_eq!(shown.as_ref().map(|m| m.filename.as_str()), Some("cat.jpg"));
    assert!(confirm_viewed(&mut state, &shown, second));
    assert!(media_for_viewer(&state, second).is_none());
}

#[test]
fn a_viewer_without_an_address_is_shown_nothing() {
    let mut state = MediaViewState::new();
    state.set_last_media(upload("cat.jpg", 0));
    assert!(media_for_viewer(&state, None).is_none());
    assert!(!confirm_viewed(&mut state, &None, Some(ClientAddr::V4(1))));
    let shown = Some(upload("cat.jpg", 0));
    assert!(!confirm_viewed(&mut state, &shown, None));
    assert!(media_for_viewer(&state, Some(ClientAddr::V4(1))).is_some());
}

#[test]
fn a_late_record_does_not_consume_the_newer_item() {
    let viewer = Some(ClientAddr::V4(9));
    let mut state = MediaViewState::new();
    state.set_last_media(upload("old.jpg", 0));
    let shown = media_for_viewer(&state, viewer);
    state.set_last_media(upload("new.jpg", 1));
    assert!(!confirm_viewed(&mut state, &shown, viewer));
    let next = media_for_viewer(&state, viewer);
    assert_eq!(next.map(|m| m.filename), Some("new.jpg".to_string()));
}

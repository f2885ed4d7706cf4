use shared_display::ledger::ClientAddr;
use shared_display::state::{MediaInfo, MediaType, MediaViewState};
use shared_display::time::{Span, Timestamp};

fn image(name: &str, uploaded_at: u64) -> MediaInfo {
    MediaInfo {
        filename: name.to_string(),
        media_type: MediaType::Image,
        upload_time: Timestamp::from_secs(uploaded_at),
        marked_for_deletion: false,
        duration_secs: 5,
        caption: String::new(),
    }
}

#[test]
fn each_viewer_sees_an_upload_once() {
    let first = ClientAddr::V4(0x0A00_0001);
    let second = ClientAddr::V4(0x0A00_0002);
    let mut state = MediaViewState::new();
    state.set_last_media(image("cat.jpg", 0));

    let shown = state.get_last_media_for_ip(first).map(|m| m.filename.clone());
    assert_eq!(shown, Some("cat.jpg".to_string()));
    assert!(state.mark_viewed("cat.jpg", first));
    assert!(state.get_last_media_for_ip(first).is_none());

    let shown = state.get_last_media_for_ip(second).map(|m| m.filename.clone());
    assert_eq!(shown, Some("cat.jpg".to_string()));
    assert!(state.mark_viewed("cat.jpg", second));
    assert!(state.get_last_media_for_ip(second).is_none());
}

#[test]
fn eviction_boundary_is_strict() {
    let mut state = MediaViewState::new();
    state.set_last_media(image("old.png", 100));
    let threshold = Span::from_secs(10);
    let at_11 = state.stale_candidates_at(Timestamp::from_secs(111), threshold);
    assert_eq!(at_11, vec![("old.png".to_string(), MediaType::Image)]);
    let at_9 = state.stale_candidates_at(Timestamp::from_secs(109), threshold);
    assert!(at_9.is_empty());
    let at_10 = state.stale_candidates_at(Timestamp::from_secs(110), threshold);
    assert!(at_10.is_empty());
    let just_over = state.stale_candidates_at(Timestamp { secs: 110, nanos: 1 }, threshold);
    assert_eq!(just_over.len(), 1);
}

fn video(name: &str, uploaded_at: u64) -> MediaInfo {
    MediaInfo {
        filename: name.to_string(),
        media_type: MediaType::Video,
        upload_time: Timestamp::from_secs(uploaded_at),
        marked_for_deletion: false,
        duration_secs: 999999,
        caption: String::new(),
    }
}

#[test]
fn an_empty_store_serves_nothing() {
    let state = MediaViewState::new();
    assert!(state.get_last_media().is_none());
    assert!(state.get_last_sound().is_none());
    assert!(state.get_last_media_for_ip(ClientAddr::V4(1)).is_none());
    assert!(!state.file_exists("x"));
    assert!(!state.has_been_viewed("x", ClientAddr::V4(1)));
    assert!(state.stale_candidates_at(Timestamp::from_secs(u64::MAX), Span::from_secs(0)).is_empty());
}

#[test]
fn last_write_wins() {
    let viewer = ClientAddr::V6(1);
    let mut state = MediaViewState::new();
    state.set_last_media(image("a.png", 0));
    state.set_last_media(video("b.mp4", 1));
    let shown = state.get_last_media_for_ip(viewer).unwrap();
    assert_eq!(shown.filename, "b.mp4");
    assert_eq!(shown.media_type, MediaType::Video);
    assert_eq!(state.get_last_media().unwrap().filename, "b.mp4");
}

#[test]
fn marking_twice_is_not_a_new_view() {
    let viewer = ClientAddr::V4(7);
    let mut state = MediaViewState::new();
    state.set_last_media(image("a.png", 0));
    assert!(state.mark_viewed("a.png", viewer));
    assert!(!state.mark_viewed("a.png", viewer));
    assert!(state.has_been_viewed("a.png", viewer));
    assert!(!state.has_been_viewed("a.png", ClientAddr::V4(8)));
}

#[test]
fn a_view_of_a_replaced_item_is_not_recorded() {
    let viewer = ClientAddr::V4(7);
    let mut state = MediaViewState::new();
    state.set_last_media(image("a.png", 0));
    state.set_last_media(image("b.png", 1));
    assert!(!state.mark_viewed("a.png", viewer));
    assert!(!state.has_been_viewed("a.png", viewer));
    assert!(!state.mark_viewed("nothing", viewer));
    assert_eq!(state.get_last_media_for_ip(viewer).unwrap().filename, "b.png");
}

#[test]
fn the_ledger_outlives_the_item_it_was_written_for() {
    let viewer = ClientAddr::V4(7);
    let mut state = MediaViewState::new();
    state.set_last_media(image("a.png", 0));
    assert!(state.mark_viewed("a.png", viewer));
    state.set_last_media(image("b.png", 1));
    assert!(state.has_been_viewed("a.png", viewer));
    state.set_last_media(image("a.png", 2));
    assert!(state.get_last_media_for_ip(viewer).is_none());
}

#[test]
fn quarantine_hides_the_item_from_everyone_but_keeps_it() {
    let mut state = MediaViewState::new();
    state.set_last_media(image("a.png", 0));
    state.mark_for_deletion("a.png");
    assert!(state.get_last_media_for_ip(ClientAddr::V4(1)).is_none());
    assert!(state.get_last_media_for_ip(ClientAddr::V6(2)).is_none());
    let kept = state.get_last_media().unwrap();
    assert_eq!(kept.filename, "a.png");
    assert!(kept.marked_for_deletion);
    assert!(!state.file_exists("a.png"));
    assert!(state.stale_candidates_at(Timestamp::from_secs(1000), Span::from_secs(10)).is_empty());
}

#[test]
fn quarantine_of_another_name_changes_nothing() {
    let mut state = MediaViewState::new();
    state.set_last_media(image("a.png", 0));
    state.mark_for_deletion("b.png");
    assert!(!state.get_last_media().unwrap().marked_for_deletion);
    assert!(state.file_exists("a.png"));
    assert!(!state.file_exists("b.png"));
}

#[test]
fn removal_clears_the_slot_and_its_views() {
    let viewer = ClientAddr::V4(7);
    let mut state = MediaViewState::new();
    state.set_last_media(image("a.png", 0));
    assert!(state.mark_viewed("a.png", viewer));
    state.remove_file_from_state("a.png");
    assert!(state.get_last_media().is_none());
    assert!(!state.has_been_viewed("a.png", viewer));
}

#[test]
fn removal_of_an_untracked_name_changes_nothing() {
    let viewer = ClientAddr::V4(7);
    let mut state = MediaViewState::new();
    state.set_last_media(image("a.png", 0));
    assert!(state.mark_viewed("a.png", viewer));
    state.set_last_media(image("b.png", 1));
    state.remove_file_from_state("a.png");
    assert_eq!(state.get_last_media().unwrap().filename, "b.png");
    assert!(state.has_been_viewed("a.png", viewer));
}

#[test]
fn removal_reaches_the_sound_slot() {
    let mut state = MediaViewState::new();
    state.set_last_media(image("a.png", 0));
    state.set_last_sound(shared_display::state::SoundInfo {
        filename: "s.mp3".to_string(),
        upload_time: Timestamp::from_secs(3),
        marked_for_deletion: false,
    });
    assert_eq!(state.get_last_sound().unwrap().filename, "s.mp3");
    state.remove_file_from_state("s.mp3");
    assert!(state.get_last_sound().is_none());
    assert_eq!(state.get_last_media().unwrap().filename, "a.png");
}

#[test]
fn candidates_carry_the_kind() {
    let mut state = MediaViewState::new();
    state.set_last_media(video("v.mp4", 5));
    let found = state.stale_candidates_at(Timestamp::from_secs(100), Span::from_secs(10));
    assert_eq!(found, vec![("v.mp4".to_string(), MediaType::Video)]);
}

#[test]
fn an_upload_from_the_future_is_not_stale() {
    let mut state = MediaViewState::new();
    state.set_last_media(image("a.png", 500));
    assert!(state.stale_candidates_at(Timestamp::from_secs(100), Span::from_secs(0)).is_empty());
}

#[test]
fn a_fresh_upload_is_not_due_at_once() {
    let mut state = MediaViewState::new();
    let now = Timestamp::now();
    state.set_last_media(image("a.png", now.secs));
    assert!(state.get_files_to_delete(Span::from_secs(3600)).is_empty());
    state.set_last_media(image("b.png", 0));
    assert_eq!(state.get_files_to_delete(Span::from_secs(10)).len(), 1);
}

#[test]
fn age_is_measured_to_the_nanosecond() {
    let now = Timestamp { secs: 20, nanos: 5 };
    let since = Timestamp { secs: 10, nanos: 6 };
    assert!(!now.is_older_than(&since, &Span { secs: 9, nanos: 999_999_999 }));
    assert!(now.is_older_than(&since, &Span { secs: 9, nanos: 999_999_998 }));
    let far = Timestamp { secs: u64::MAX, nanos: u32::MAX };
    assert!(far.is_older_than(&Timestamp::from_secs(0), &Span::from_secs(u64::MAX)));
    assert!(!Timestamp::from_secs(0).is_older_than(&far, &Span::from_secs(0)));
}

#[test]
fn duplicate_copies_every_field() {
    let mut original = video("v.mp4", 9);
    original.caption = "hi".to_string();
    original.marked_for_deletion = true;
    let copy = original.duplicate();
    assert_eq!(copy.filename, "v.mp4");
    assert_eq!(copy.media_type, MediaType::Video);
    assert_eq!(copy.upload_time, Timestamp::from_secs(9));
    assert!(copy.marked_for_deletion);
    assert_eq!(copy.duration_secs, 999999);
    assert_eq!(copy.caption, "hi");
}

#[test]
fn a_clock_reading_is_in_normal_form() {
    for _ in 0..1000 {
        let now = Timestamp::now();
        assert!(now.nanos < 1_000_000_000);
        assert!(now.secs > 1_600_000_000);
    }
}

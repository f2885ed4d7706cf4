use shared_display::connection::{after_inbound, after_send, next_outbound, Inbound, Pump};
use shared_display::hub::{Event, EventKind, Hub};
use shared_display::websocket::{
    broadcast_new_browser_raw, broadcast_new_media, broadcast_new_song, broadcast_video_event,
    create_ws_state, encode_fragment, event_json, event_name, frame_envelope, HUB_CAPACITY,
};

const FRAGMENT: &percent_encoding::AsciiSet =
    &percent_encoding::CONTROLS.add(b' ').add(b'"').add(b'<').add(b'>').add(b'`');

fn numbered(n: usize) -> Event {
    Event { kind: EventKind::RawUrl, url: format!("/{}", n) }
}

fn drain(hub: &mut Hub, id: u64) -> Vec<String> {
    let mut urls = Vec::new();
    while let Some(event) = hub.receive(id) {
        urls.push(event.url);
    }
    urls
}

#[test]
fn publish_reaches_every_subscriber_of_that_moment() {
    let mut hub = Hub::new(4);
    let a = hub.subscribe().unwrap();
    let b = hub.subscribe().unwrap();
    hub.publish(&numbered(1));
    let late = hub.subscribe().unwrap();
    assert_eq!(drain(&mut hub, a), vec!["/1".to_string()]);
    assert_eq!(drain(&mut hub, b), vec!["/1".to_string()]);
    assert!(drain(&mut hub, late).is_empty());
}

#[test]
fn subscribers_get_distinct_identifiers() {
    let mut hub = Hub::new(1);
    let a = hub.subscribe().unwrap();
    let b = hub.subscribe().unwrap();
    hub.unsubscribe(a);
    let c = hub.subscribe().unwrap();
    assert_eq!((a, b, c), (0, 1, 2));
}

#[test]
fn a_full_queue_loses_its_oldest_event() {
    let mut hub = Hub::new(3);
    let slow = hub.subscribe().unwrap();
    let quick = hub.subscribe().unwrap();
    let mut seen_by_quick = Vec::new();
    for n in 0..5 {
        hub.publish(&numbered(n));
        seen_by_quick.extend(drain(&mut hub, quick));
    }
    assert_eq!(seen_by_quick, vec!["/0", "/1", "/2", "/3", "/4"]);
    assert_eq!(drain(&mut hub, slow), vec!["/2", "/3", "/4"]);
}

#[test]
fn a_queue_of_the_default_capacity_keeps_the_newest_hundred() {
    let mut hub = create_ws_state();
    let slow = hub.subscribe().unwrap();
    for n in 0..(HUB_CAPACITY + 7) {
        hub.publish(&numbered(n));
    }
    let unread = drain(&mut hub, slow);
    assert_eq!(unread.len(), 100);
    assert_eq!(unread[0], "/7");
    assert_eq!(unread[99], "/106");
}

#[test]
fn a_hub_without_room_keeps_nothing() {
    let mut hub = Hub::new(0);
    let id = hub.subscribe().unwrap();
    hub.publish(&numbered(1));
    assert!(hub.receive(id).is_none());
}

#[test]
fn receive_takes_events_oldest_first() {
    let mut hub = Hub::new(8);
    let id = hub.subscribe().unwrap();
    hub.publish(&numbered(1));
    hub.publish(&numbered(2));
    assert_eq!(hub.receive(id).map(|e| e.url), Some("/1".to_string()));
    assert_eq!(hub.receive(id).map(|e| e.url), Some("/2".to_string()));
    assert!(hub.receive(id).is_none());
    assert!(hub.receive(id + 1).is_none());
}

#[test]
fn unsubscribe_removes_one_queue_only() {
    let mut hub = Hub::new(8);
    let a = hub.subscribe().unwrap();
    let b = hub.subscribe().unwrap();
    hub.publish(&numbered(1));
    hub.unsubscribe(a);
    hub.unsubscribe(77);
    hub.publish(&numbered(2));
    assert!(hub.receive(a).is_none());
    assert_eq!(drain(&mut hub, b), vec!["/1", "/2"]);
}

#[test]
fn publish_without_subscribers_is_harmless() {
    let mut hub = Hub::new(2);
    hub.publish(&numbered(1));
    let id = hub.subscribe().unwrap();
    assert!(hub.receive(id).is_none());
}

#[test]
fn duplicate_copies_an_event() {
    let event = Event { kind: EventKind::Song, url: "/sounds/a".to_string() };
    let copy = event.duplicate();
    assert_eq!(copy.kind, EventKind::Song);
    assert_eq!(copy.url, "/sounds/a");
}

#[test]
fn event_names_on_the_wire() {
    assert_eq!(event_name(EventKind::Media), "media");
    assert_eq!(event_name(EventKind::Video), "video");
    assert_eq!(event_name(EventKind::Song), "song");
    assert_eq!(event_name(EventKind::RawUrl), "raw_url");
}

#[test]
fn envelope_is_compact_json() {
    let event = Event { kind: EventKind::Video, url: "/uploads/v1.mp4".to_string() };
    assert_eq!(event_json(&event), "{\"event\":\"video\",\"url\":\"/uploads/v1.mp4\"}");
    assert_eq!(frame_envelope("1", "2"), "{\"event\":1,\"url\":2}");
}

#[test]
fn envelope_escapes_what_json_must() {
    let event = Event { kind: EventKind::RawUrl, url: "a\"b\\c\nd".to_string() };
    let json = event_json(&event);
    assert_eq!(json, "{\"event\":\"raw_url\",\"url\":\"a\\\"b\\\\c\\nd\"}");
    let parsed = serde_json::from_str::<serde_json::Value>(&json).unwrap();
    assert_eq!(parsed.pointer("/url").and_then(|v| v.as_str()), Some("a\"b\\c\nd"));
    assert_eq!(parsed.pointer("/event").and_then(|v| v.as_str()), Some("raw_url"));
}

#[test]
fn fragment_encoding_escapes_the_fragment_set_and_non_ascii() {
    assert_eq!(encode_fragment("plain-name_1.mp3"), "plain-name_1.mp3");
    assert_eq!(encode_fragment("my song.mp3"), "my%20song.mp3");
    assert_eq!(encode_fragment("a\"b<c>d`e"), "a%22b%3Cc%3Ed%60e");
    assert_eq!(encode_fragment("\u{1}\u{7f}"), "%01%7F");
    assert_eq!(encode_fragment("é"), "%C3%A9");
    assert_eq!(encode_fragment("100%?#/"), "100%?#/");
    assert_eq!(encode_fragment(""), "");
}

#[test]
fn fragment_encoding_agrees_with_the_encoder_crate() {
    let text = "a b\"c<d>e`f\u{0}\u{1f}~\u{7f}é 漢字 🎵 /?#[]@!$&'()*+,;=%";
    let expected = percent_encoding::utf8_percent_encode(text, FRAGMENT).to_string();
    assert_eq!(encode_fragment(text), expected);
    for byte in 0u8..128 {
        let one = String::from(byte as char);
        let expected = percent_encoding::utf8_percent_encode(&one, FRAGMENT).to_string();
        assert_eq!(encode_fragment(&one), expected);
    }
}

#[test]
fn broadcasts_publish_the_right_events() {
    let mut hub = create_ws_state();
    let id = hub.subscribe().unwrap();
    broadcast_new_media(&mut hub);
    broadcast_new_song(&mut hub, "my song.mp3".to_string());
    broadcast_new_browser_raw(&mut hub, "https://example.com/x".to_string());
    broadcast_video_event(&mut hub, "v1.mp4".to_string());
    let mut seen = Vec::new();
    while let Some(event) = hub.receive(id) {
        seen.push((event.kind, event.url));
    }
    assert_eq!(
        seen,
        vec![
            (EventKind::Media, "/?ws=true".to_string()),
            (EventKind::Song, "/sounds/my%20song.mp3?ws=true".to_string()),
            (EventKind::RawUrl, "https://example.com/x".to_string()),
            (EventKind::Video, "/uploads/v1.mp4".to_string()),
        ]
    );
}

#[test]
fn outbound_pump_relays_envelopes_in_order() {
    let mut hub = create_ws_state();
    let id = hub.subscribe().unwrap();
    broadcast_new_media(&mut hub);
    broadcast_video_event(&mut hub, "v1.mp4".to_string());
    assert_eq!(
        next_outbound(&mut hub, id),
        Some("{\"event\":\"media\",\"url\":\"/?ws=true\"}".to_string())
    );
    assert_eq!(
        next_outbound(&mut hub, id),
        Some("{\"event\":\"video\",\"url\":\"/uploads/v1.mp4\"}".to_string())
    );
    assert_eq!(next_outbound(&mut hub, id), None);
}

#[test]
fn pumps_stop_on_close_and_on_failure_only() {
    assert_eq!(after_inbound(Inbound::Pong), Pump::Continue);
    assert_eq!(after_inbound(Inbound::Other), Pump::Continue);
    assert_eq!(after_inbound(Inbound::Close), Pump::Stop);
    assert_eq!(after_inbound(Inbound::Failed), Pump::Stop);
    assert_eq!(after_send(true), Pump::Continue);
    assert_eq!(after_send(false), Pump::Stop);
}

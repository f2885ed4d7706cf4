//! The events that viewers are sent: what each announces, how its address is
//! built, and the JSON envelope that carries it.

use crate::hub::{Event, EventKind, EventView, Hub, HubView};
use crate::text::{chars_of, extend_chars, joined, string_of};
use vstd::prelude::*;
use vstd::utf8::encode_utf8;

verus! {

/// The number of unread events that a viewer's queue holds.
pub const HUB_CAPACITY: usize = 100;

/// The name that an event kind has in the envelope.
pub open spec fn kind_name(kind: EventKind) -> Seq<char> {
    match kind {
        EventKind::Media => "media"@,
        EventKind::Video => "video"@,
        EventKind::Song => "song"@,
        EventKind::RawUrl => "raw_url"@,
    }
}

/// The uppercase hexadecimal digit for `nibble`, which is below 16.
pub open spec fn hex_upper(nibble: int) -> char {
    if nibble == 0 {
        '0'
    } else if nibble == 1 {
        '1'
    } else if nibble == 2 {
        '2'
    } else if nibble == 3 {
        '3'
    } else if nibble == 4 {
        '4'
    } else if nibble == 5 {
        '5'
    } else if nibble == 6 {
        '6'
    } else if nibble == 7 {
        '7'
    } else if nibble == 8 {
        '8'
    } else if nibble == 9 {
        '9'
    } else if nibble == 10 {
        'A'
    } else if nibble == 11 {
        'B'
    } else if nibble == 12 {
        'C'
    } else if nibble == 13 {
        'D'
    } else if nibble == 14 {
        'E'
    } else {
        'F'
    }
}

/// A byte written as `%` and two uppercase hexadecimal digits.
pub open spec fn percent_byte(byte: u8) -> Seq<char> {
    seq!['%', hex_upper(byte as int / 16), hex_upper(byte as int % 16)]
}

/// Whether a byte cannot stand as it is in the address of a sound: control
/// characters, space, `"`, `<`, `>`, `` ` ``, and everything outside ASCII.
pub open spec fn needs_percent(byte: u8) -> bool {
    byte < 0x20 || byte >= 0x7F || byte == 0x20 || byte == 0x22 || byte == 0x3C || byte == 0x3E
        || byte == 0x60
}

/// What one byte becomes in a percent-encoded text.
pub open spec fn encoded_byte(byte: u8) -> Seq<char> {
    if needs_percent(byte) {
        percent_byte(byte)
    } else {
        seq![byte as char]
    }
}

/// The percent-encoded form of `bytes`.
pub open spec fn percent_encoded(bytes: Seq<u8>) -> Seq<char>
    decreases bytes.len(),
{
    if bytes.len() == 0 {
        seq![]
    } else {
        percent_encoded(bytes.drop_last()) + encoded_byte(bytes.last())
    }
}

/// What the JSON encoder makes of a text: the text in double quotes, with
/// escapes where JSON asks for them.
pub uninterp spec fn json_quoted(text: Seq<char>) -> Seq<char>;

/// The envelope around an event's kind and address, both already quoted.
pub open spec fn envelope(quoted_kind: Seq<char>, quoted_url: Seq<char>) -> Seq<char> {
    "{\"event\":"@ + quoted_kind + ",\"url\":"@ + quoted_url + "}"@
}

/// The JSON text that carries `event`.
pub open spec fn event_envelope(event: EventView) -> Seq<char> {
    envelope(json_quoted(kind_name(event.kind)), json_quoted(event.url))
}

/// The event that tells viewers to fetch the media slot anew.
pub open spec fn media_event() -> EventView {
    EventView { kind: EventKind::Media, url: "/?ws=true"@ }
}

/// The percent-encoded form of the UTF-8 bytes of `text`.
pub open spec fn fragment_encoded(text: Seq<char>) -> Seq<char> {
    percent_encoded(encode_utf8(text))
}

/// The event that announces the sound stored under `name`.
pub open spec fn song_event(name: Seq<char>) -> EventView {
    EventView { kind: EventKind::Song, url: "/sounds/"@ + fragment_encoded(name) + "?ws=true"@ }
}

/// The event that hands viewers an address as it is.
pub open spec fn raw_event(url: Seq<char>) -> EventView {
    EventView { kind: EventKind::RawUrl, url }
}

/// The event that announces the video stored under `filename`.
pub open spec fn video_event(filename: Seq<char>) -> EventView {
    EventView { kind: EventKind::Video, url: "/uploads/"@ + filename }
}

/// `percent_encoding::percent_encode_byte`: the byte as `%` and its two
/// uppercase hexadecimal digits. Not proved here.
#[verifier::external_body]
fn percent_byte_text(byte: u8) -> (text: &'static str)
    ensures
        text@ == percent_byte(byte),
{
    percent_encoding::percent_encode_byte(byte)
}

/// `serde_json`'s `Display` for `Value::String`: `text` as a JSON string.
/// Here the result is only given its name. Not proved here.
#[verifier::external_body]
fn json_string(text: &str) -> (quoted: String)
    ensures
        quoted@ == json_quoted(text@),
{
    serde_json::Value::String(text.to_owned()).to_string()
}

/// The percent-encoded form of `text`, for use in the address of a sound.
pub fn encode_fragment(text: &str) -> (encoded: String)
    ensures
        encoded@ == fragment_encoded(text@),
{
    let bytes = text.as_bytes();
    let mut out: Vec<char> = Vec::new();
    let mut i: usize = 0;
    while i < bytes.len()
        invariant
            i <= bytes.len(),
            out@ == percent_encoded(bytes@.subrange(0, i as int)),
        decreases bytes.len() - i,
    {
        let byte: u8 = bytes[i];
        proof {
            let next = bytes@.subrange(0, i + 1);
            assert(next.drop_last() =~= bytes@.subrange(0, i as int));
            assert(next.last() == byte);
        }
        if byte < 0x20 || byte >= 0x7F || byte == 0x20 || byte == 0x22 || byte == 0x3C || byte
            == 0x3E || byte == 0x60 {
            let piece = chars_of(percent_byte_text(byte));
            extend_chars(&mut out, &piece);
        } else {
            out.push(byte as char);
            assert(out@ =~= percent_encoded(bytes@.subrange(0, i as int)) + seq![byte as char]);
        }
        i += 1;
    }
    assert(bytes@.subrange(0, bytes.len() as int) =~= bytes@);
    string_of(&out)
}

/// The name that `kind` has in the envelope.
pub fn event_name(kind: EventKind) -> (name: &'static str)
    ensures
        name@ == kind_name(kind),
{
    match kind {
        EventKind::Media => "media",
        EventKind::Video => "video",
        EventKind::Song => "song",
        EventKind::RawUrl => "raw_url",
    }
}

/// The envelope around a kind and an address that are quoted already.
pub fn frame_envelope(quoted_kind: &str, quoted_url: &str) -> (json: String)
    ensures
        json@ == envelope(quoted_kind@, quoted_url@),
{
    let mut out: Vec<char> = Vec::new();
    extend_chars(&mut out, &chars_of("{\"event\":"));
    extend_chars(&mut out, &chars_of(quoted_kind));
    extend_chars(&mut out, &chars_of(",\"url\":"));
    extend_chars(&mut out, &chars_of(quoted_url));
    extend_chars(&mut out, &chars_of("}"));
    assert(out@ =~= envelope(quoted_kind@, quoted_url@));
    string_of(&out)
}

/// The JSON text that carries `event` to a viewer.
pub fn event_json(event: &Event) -> (json: String)
    ensures
        json@ == event_envelope(event@),
{
    let kind = json_string(event_name(event.kind));
    let url = json_string(event.url.as_str());
    frame_envelope(kind.as_str(), url.as_str())
}

/// A hub for the viewers' connections, without subscribers.
pub fn create_ws_state() -> (clients: Hub)
    ensures
        clients@ == HubView::empty(HUB_CAPACITY as nat),
        clients@.well_formed(),
{
    Hub::new(HUB_CAPACITY)
}

/// Tells every viewer that the media slot has new content.
pub fn broadcast_new_media(clients: &mut Hub)
    ensures
        final(clients)@ == old(clients)@.publish(media_event()),
        final(clients)@.well_formed(),
{
    let event = Event { kind: EventKind::Media, url: "/?ws=true".to_owned() };
    clients.publish(&event);
}

/// Tells every viewer that the sound stored under `uri` was uploaded.
pub fn broadcast_new_song(clients: &mut Hub, uri: String)
    ensures
        final(clients)@ == old(clients)@.publish(song_event(uri@)),
        final(clients)@.well_formed(),
{
    let encoded = encode_fragment(uri.as_str());
    let event = Event {
        kind: EventKind::Song,
        url: joined("/sounds/", encoded.as_str(), "?ws=true"),
    };
    clients.publish(&event);
}

/// Hands every viewer the address `url` as it is.
pub fn broadcast_new_browser_raw(clients: &mut Hub, url: String)
    ensures
        final(clients)@ == old(clients)@.publish(raw_event(url@)),
        final(clients)@.well_formed(),
{
    let event = Event { kind: EventKind::RawUrl, url };
    clients.publish(&event);
}

/// Tells every viewer that the video stored under `filename` is ready.
pub fn broadcast_video_event(clients: &mut Hub, filename: String)
    ensures
        final(clients)@ == old(clients)@.publish(video_event(filename@)),
        final(clients)@.well_formed(),
{
    let event = Event { kind: EventKind::Video, url: joined("/uploads/", filename.as_str(), "") };
    assert(event@.url =~= "/uploads/"@ + filename@) by {
        reveal_strlit("");
    }
    clients.publish(&event);
}

} // verus!

//! The slot store: one current media item, one current sound, and the ledger
//! of who has seen what.

use crate::ledger::{ClientAddr, ViewLedger};
use crate::text::same_text;
use crate::time::{older_than, Span, Timestamp};
use vstd::prelude::*;

verus! {

/// What a media item is shown as.
#[derive(Clone, Copy, Debug, PartialEq, Eq, Structural)]
pub enum MediaType {
    Image,
    Video,
}

/// The item in the media slot.
#[derive(Clone, Debug)]
pub struct MediaInfo {
    pub filename: String,
    pub media_type: MediaType,
    pub upload_time: Timestamp,
    pub marked_for_deletion: bool,
    pub duration_secs: u64,
    pub caption: String,
}

/// The item in the sound slot.
#[derive(Clone, Debug)]
pub struct SoundInfo {
    pub filename: String,
    pub upload_time: Timestamp,
    pub marked_for_deletion: bool,
}

/// A media item as a mathematical value.
pub struct MediaInfoView {
    pub filename: Seq<char>,
    pub media_type: MediaType,
    pub upload_time: Timestamp,
    pub marked_for_deletion: bool,
    pub duration_secs: u64,
    pub caption: Seq<char>,
}

/// A sound item as a mathematical value.
pub struct SoundInfoView {
    pub filename: Seq<char>,
    pub upload_time: Timestamp,
    pub marked_for_deletion: bool,
}

impl View for MediaInfo {
    type V = MediaInfoView;

    open spec fn view(&self) -> MediaInfoView {
        MediaInfoView {
            filename: self.filename@,
            media_type: self.media_type,
            upload_time: self.upload_time,
            marked_for_deletion: self.marked_for_deletion,
            duration_secs: self.duration_secs,
            caption: self.caption@,
        }
    }
}

impl View for SoundInfo {
    type V = SoundInfoView;

    open spec fn view(&self) -> SoundInfoView {
        SoundInfoView {
            filename: self.filename@,
            upload_time: self.upload_time,
            marked_for_deletion: self.marked_for_deletion,
        }
    }
}

impl MediaInfo {
    /// A copy of the item.
    pub fn duplicate(&self) -> (copy: MediaInfo)
        ensures
            copy@ == self@,
    {
        MediaInfo {
            filename: self.filename.clone(),
            media_type: self.media_type,
            upload_time: self.upload_time,
            marked_for_deletion: self.marked_for_deletion,
            duration_secs: self.duration_secs,
            caption: self.caption.clone(),
        }
    }
}

/// The store as a mathematical value: the two slots and the set of
/// (filename, viewer) pairs that the ledger holds.
pub struct StoreView {
    pub media: Option<MediaInfoView>,
    pub sound: Option<SoundInfoView>,
    pub viewed: Set<(Seq<char>, ClientAddr)>,
}

impl StoreView {
    /// The store at start: both slots empty, nothing viewed.
    pub open spec fn empty() -> StoreView {
        StoreView { media: None, sound: None, viewed: Set::empty() }
    }

    /// Whether `filename` names the item in the media slot.
    pub open spec fn tracks_media(self, filename: Seq<char>) -> bool {
        self.media is Some && self.media->0.filename == filename
    }

    /// Whether `filename` names the item in the sound slot.
    pub open spec fn tracks_sound(self, filename: Seq<char>) -> bool {
        self.sound is Some && self.sound->0.filename == filename
    }

    /// The media slot replaced, whatever it held.
    pub open spec fn set_media(self, media: MediaInfoView) -> StoreView {
        StoreView { media: Some(media), ..self }
    }

    /// The sound slot replaced, whatever it held.
    pub open spec fn set_sound(self, sound: SoundInfoView) -> StoreView {
        StoreView { sound: Some(sound), ..self }
    }

    /// Whether `viewer` has consumed `filename`.
    pub open spec fn has_viewed(self, filename: Seq<char>, viewer: ClientAddr) -> bool {
        self.viewed.contains((filename, viewer))
    }

    /// What `viewer` is shown: the media item, unless it is quarantined or the
    /// viewer has consumed it already.
    pub open spec fn served_to(self, viewer: ClientAddr) -> Option<MediaInfoView> {
        if self.media is Some && !self.media->0.marked_for_deletion && !self.has_viewed(
            self.media->0.filename,
            viewer,
        ) {
            self.media
        } else {
            None
        }
    }

    /// Whether marking `filename` as viewed by `viewer` records a first view:
    /// the name must still be the media slot's, and the pair new.
    pub open spec fn newly_viewed(self, filename: Seq<char>, viewer: ClientAddr) -> bool {
        self.tracks_media(filename) && !self.has_viewed(filename, viewer)
    }

    /// The store after `viewer` is marked as having consumed `filename`: a
    /// name that the media slot no longer holds changes nothing.
    pub open spec fn mark_viewed(self, filename: Seq<char>, viewer: ClientAddr) -> StoreView {
        if self.tracks_media(filename) {
            StoreView { viewed: self.viewed.insert((filename, viewer)), ..self }
        } else {
            self
        }
    }

    /// The store after `filename` is quarantined: a name that the media slot
    /// no longer holds changes nothing.
    pub open spec fn mark_for_deletion(self, filename: Seq<char>) -> StoreView {
        if self.tracks_media(filename) {
            StoreView {
                media: Some(MediaInfoView { marked_for_deletion: true, ..self.media->0 }),
                ..self
            }
        } else {
            self
        }
    }

    /// The store after `filename` is removed: each slot that holds the name is
    /// cleared and the name's views are forgotten; a name that neither slot
    /// holds changes nothing.
    pub open spec fn remove_file(self, filename: Seq<char>) -> StoreView {
        if self.tracks_media(filename) || self.tracks_sound(filename) {
            StoreView {
                media: if self.tracks_media(filename) {
                    None
                } else {
                    self.media
                },
                sound: if self.tracks_sound(filename) {
                    None
                } else {
                    self.sound
                },
                viewed: self.viewed.filter(|pair: (Seq<char>, ClientAddr)| pair.0 != filename),
            }
        } else {
            self
        }
    }

    /// Whether the media item is due for eviction at `now`: it is not
    /// quarantined and strictly older than `threshold`.
    pub open spec fn media_is_stale(self, now: Timestamp, threshold: Span) -> bool {
        self.media is Some && !self.media->0.marked_for_deletion && older_than(
            now,
            self.media->0.upload_time,
            threshold,
        )
    }

    /// The files due for eviction at `now`, each with its kind.
    pub open spec fn stale_candidates(self, now: Timestamp, threshold: Span) -> Seq<
        (Seq<char>, MediaType),
    > {
        if self.media_is_stale(now, threshold) {
            seq![(self.media->0.filename, self.media->0.media_type)]
        } else {
            seq![]
        }
    }

    /// Whether `filename` is the media item and servable.
    pub open spec fn file_exists(self, filename: Seq<char>) -> bool {
        self.tracks_media(filename) && !self.media->0.marked_for_deletion
    }
}

/// A list of eviction candidates as a mathematical value.
pub open spec fn candidates_view(list: Seq<(String, MediaType)>) -> Seq<(Seq<char>, MediaType)> {
    list.map_values(|entry: (String, MediaType)| (entry.0@, entry.1))
}

/// The slot store.
pub struct MediaViewState {
    last_media: Option<MediaInfo>,
    last_sound: Option<SoundInfo>,
    viewed_by: ViewLedger,
}

impl View for MediaViewState {
    type V = StoreView;

    closed spec fn view(&self) -> StoreView {
        StoreView {
            media: match self.last_media {
                Some(media) => Some(media@),
                None => None,
            },
            sound: match self.last_sound {
                Some(sound) => Some(sound@),
                None => None,
            },
            viewed: self.viewed_by@,
        }
    }
}

impl MediaViewState {
    /// An empty store.
    pub fn new() -> (state: MediaViewState)
        ensures
            state@ == StoreView::empty(),
    {
        MediaViewState { last_media: None, last_sound: None, viewed_by: ViewLedger::new() }
    }

    /// Puts `media` in the media slot. What the slot held is dropped from
    /// tracking; the ledger keeps its views.
    pub fn set_last_media(&mut self, media: MediaInfo)
        ensures
            final(self)@ == old(self)@.set_media(media@),
    {
        self.last_media = Some(media);
    }

    /// Records that `ip` has consumed `filename`, if that name is still the
    /// media slot's. Returns whether this was the first view of the pair.
    pub fn mark_viewed(&mut self, filename: &str, ip: ClientAddr) -> (fresh: bool)
        ensures
            fresh == old(self)@.newly_viewed(filename@, ip),
            final(self)@ == old(self)@.mark_viewed(filename@, ip),
    {
        if !self.tracks(filename) {
            return false;
        }
        self.viewed_by.insert(filename, ip)
    }

    /// The media slot's item.
    pub fn get_last_media(&self) -> (media: Option<&MediaInfo>)
        ensures
            media is Some == self@.media is Some,
            media is Some ==> media->0@ == self@.media->0,
    {
        self.last_media.as_ref()
    }

    /// Whether `ip` has consumed `filename`.
    pub fn has_been_viewed(&self, filename: &str, ip: ClientAddr) -> (viewed: bool)
        ensures
            viewed == self@.has_viewed(filename@, ip),
    {
        self.viewed_by.contains(filename, ip)
    }

    /// The item to show to `ip`: the media slot's item, unless it is
    /// quarantined or `ip` has consumed it. Changes nothing.
    pub fn get_last_media_for_ip(&self, ip: ClientAddr) -> (media: Option<&MediaInfo>)
        ensures
            media is Some == self@.served_to(ip) is Some,
            media is Some ==> media->0@ == self@.served_to(ip)->0,
    {
        match &self.last_media {
            Some(media) => {
                if !self.has_been_viewed(media.filename.as_str(), ip)
                    && !media.marked_for_deletion {
                    Some(media)
                } else {
                    None
                }
            },
            None => None,
        }
    }

    /// Quarantines `filename`, if that name is still the media slot's.
    pub fn mark_for_deletion(&mut self, filename: &str)
        ensures
            final(self)@ == old(self)@.mark_for_deletion(filename@),
    {
        if self.tracks(filename) {
            let mut slot: Option<MediaInfo> = None;
            std::mem::swap(&mut self.last_media, &mut slot);
            match slot {
                Some(mut media) => {
                    media.marked_for_deletion = true;
                    self.last_media = Some(media);
                },
                None => {},
            }
        }
    }

    /// The files due for eviction at `now`: the media item, if it is strictly
    /// older than `threshold` and not quarantined.
    pub fn stale_candidates_at(&self, now: Timestamp, threshold: Span) -> (files: Vec<
        (String, MediaType),
    >)
        ensures
            candidates_view(files@) == self@.stale_candidates(now, threshold),
    {
        let mut files: Vec<(String, MediaType)> = Vec::new();
        match &self.last_media {
            Some(media) => {
                if now.is_older_than(&media.upload_time, &threshold)
                    && !media.marked_for_deletion {
                    files.push((media.filename.clone(), media.media_type));
                }
            },
            None => {},
        }
        assert(candidates_view(files@) =~= self@.stale_candidates(now, threshold));
        files
    }

    /// The files due for eviction at the clock's present reading.
    pub fn get_files_to_delete(&self, threshold: Span) -> (files: Vec<(String, MediaType)>)
        ensures
            exists|now: Timestamp|
                candidates_view(files@) == #[trigger] self@.stale_candidates(now, threshold),
    {
        let now = Timestamp::now();
        self.stale_candidates_at(now, threshold)
    }

    /// Whether `filename` is the media slot's item and not quarantined.
    pub fn file_exists(&self, filename: &str) -> (exists: bool)
        ensures
            exists == self@.file_exists(filename@),
    {
        match &self.last_media {
            Some(media) => same_text(media.filename.as_str(), filename)
                && !media.marked_for_deletion,
            None => false,
        }
    }

    /// Puts `sound` in the sound slot.
    pub fn set_last_sound(&mut self, sound: SoundInfo)
        ensures
            final(self)@ == old(self)@.set_sound(sound@),
    {
        self.last_sound = Some(sound);
    }

    /// The sound slot's item.
    pub fn get_last_sound(&self) -> (sound: Option<&SoundInfo>)
        ensures
            sound is Some == self@.sound is Some,
            sound is Some ==> sound->0@ == self@.sound->0,
    {
        self.last_sound.as_ref()
    }

    /// Removes `filename` from every slot that holds it, with its views. A
    /// name that no slot holds changes nothing.
    pub fn remove_file_from_state(&mut self, filename: &str)
        ensures
            final(self)@ == old(self)@.remove_file(filename@),
    {
        let in_media = self.tracks(filename);
        let in_sound = match &self.last_sound {
            Some(sound) => same_text(sound.filename.as_str(), filename),
            None => false,
        };
        if in_media {
            self.last_media = None;
        }
        if in_sound {
            self.last_sound = None;
        }
        if in_media || in_sound {
            self.viewed_by.remove_file(filename);
        }
    }

    /// Whether `filename` names the media slot's item.
    fn tracks(&self, filename: &str) -> (held: bool)
        ensures
            held == self@.tracks_media(filename@),
    {
        match &self.last_media {
            Some(media) => same_text(media.filename.as_str(), filename),
            None => false,
        }
    }
}

} // verus!

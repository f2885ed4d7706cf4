//! What an upload is taken for: its kind by its name's ending, and whether
//! its first bytes are those of the format that the name claims.

use crate::hub::{Hub, HubView};
use crate::state::{MediaInfo, MediaType, MediaViewState};
use crate::text::{
    chars_of, extend_chars, find_after_last_dot, has_prefix, last_segment, lowercase, lowercased,
    parse_u64, parsed_u64, same_text, slice_chars, string_of, text_from_utf8, trim, trimmed,
};
use crate::video_processing::{decimal, push_decimal};
use crate::utils::{path_file_name, sanitize_filename, sanitized, validate_file_path, validated};
use crate::time::Timestamp;
use crate::websocket::{broadcast_new_media, broadcast_video_event, media_event, video_event};
use vstd::prelude::*;

verus! {

/// The display duration that stands for "play the whole video".
pub const FULL_VIDEO_DURATION: u64 = 999999;

/// The most bytes that an uploaded image or video may have.
pub const MAX_MEDIA_BYTES: u64 = 100 * 1024 * 1024;

/// The most bytes that an uploaded sound may have.
pub const MAX_SOUND_BYTES: usize = 50 * 1024 * 1024;

/// Seconds that an image is shown where the form asks for nothing else.
pub const DEFAULT_DURATION_SECS: u64 = 5;

/// The shortest time that an image is shown.
pub const MIN_DURATION_SECS: u64 = 1;

/// The longest time that an image is shown.
pub const MAX_DURATION_SECS: u64 = 60;

/// The longest video that is fetched, in seconds.
pub const MAX_VIDEO_SECS: u64 = 600;

/// Why an upload is turned away.
#[derive(Clone, Copy, Debug, PartialEq, Eq, Structural)]
pub enum UploadError {
    /// The name has no usable final component.
    InvalidFilename,
    /// The name leads out of the directory for uploads.
    InvalidPath,
    /// The first bytes are not those of the format that the name claims.
    ContentMismatch,
    /// A text field of the form is not valid UTF-8.
    Multipart,
}

/// An upload that may be written: the name it is stored under, and where.
#[derive(Clone, Debug)]
pub struct AcceptedUpload {
    pub filename: String,
    pub path: String,
}

/// What a form has given so far.
#[derive(Clone, Debug)]
pub struct FormDataParsed {
    pub filename: String,
    pub file_data: Vec<u8>,
    pub duration_secs: u64,
    pub caption: String,
}

/// A form as a mathematical value.
pub struct FormView {
    pub filename: Seq<char>,
    pub file_data: Seq<u8>,
    pub duration_secs: u64,
    pub caption: Seq<char>,
}

impl View for FormDataParsed {
    type V = FormView;

    open spec fn view(&self) -> FormView {
        FormView {
            filename: self.filename@,
            file_data: self.file_data@,
            duration_secs: self.duration_secs,
            caption: self.caption@,
        }
    }
}

/// `seconds` brought into the range of display durations.
pub open spec fn clamped_duration(seconds: u64) -> u64 {
    if seconds < MIN_DURATION_SECS {
        MIN_DURATION_SECS
    } else if seconds > MAX_DURATION_SECS {
        MAX_DURATION_SECS
    } else {
        seconds
    }
}

/// The display duration after a duration field that reads `field`: the
/// number in it, brought into range; `current` where it holds no number.
pub open spec fn duration_after(field: Seq<char>, current: u64) -> u64 {
    match parsed_u64(trimmed(field)) {
        Some(seconds) => clamped_duration(seconds),
        None => current,
    }
}

/// The form after a field `name` with the content `data` came in, or why the
/// field is refused. The file's field takes the name that the client gave,
/// `unnamed` where it gave none, and adds `data` to the file; the duration's
/// and the caption's are read as text; any other field is passed over.
pub open spec fn form_after(
    form: FormView,
    name: Seq<char>,
    client_filename: Option<Seq<char>>,
    data: Seq<u8>,
) -> Result<FormView, UploadError> {
    if name == "image"@ {
        Ok(
            FormView {
                filename: match client_filename {
                    Some(given) => given,
                    None => "unnamed"@,
                },
                file_data: form.file_data + data,
                ..form
            },
        )
    } else if name == "duration"@ {
        if vstd::utf8::valid_utf8(data) {
            Ok(
                FormView {
                    duration_secs: duration_after(
                        vstd::utf8::decode_utf8(data),
                        form.duration_secs,
                    ),
                    ..form
                },
            )
        } else {
            Err(UploadError::Multipart)
        }
    } else if name == "caption"@ {
        if vstd::utf8::valid_utf8(data) {
            Ok(FormView { caption: trimmed(vstd::utf8::decode_utf8(data)), ..form })
        } else {
            Err(UploadError::Multipart)
        }
    } else {
        Ok(form)
    }
}

/// The verdict on an upload named `filename` with the content `data`, for
/// the directory `base_dir`: the name it is stored under and its path, or why
/// it is turned away. `fits` says whether the content fits the stored name.
pub open spec fn upload_checked(
    base_dir: Seq<char>,
    filename: Seq<char>,
    fits: spec_fn(Seq<char>) -> bool,
) -> Result<(Seq<char>, Seq<char>), UploadError> {
    match sanitized(path_file_name(filename)) {
        None => Err(UploadError::InvalidFilename),
        Some(name) => match validated(base_dir, name) {
            None => Err(UploadError::InvalidPath),
            Some(path) => if fits(name) {
                Ok((name, path))
            } else {
                Err(UploadError::ContentMismatch)
            },
        },
    }
}

/// An accepted upload as a pair of name and path.
pub open spec fn accepted_view(verdict: Result<AcceptedUpload, UploadError>) -> Result<
    (Seq<char>, Seq<char>),
    UploadError,
> {
    match verdict {
        Ok(upload) => Ok((upload.filename@, upload.path@)),
        Err(reason) => Err(reason),
    }
}

/// What is done with a form that may hold an image or a video.
#[derive(Clone, Debug)]
pub enum MediaUploadPlan {
    /// The form names no file.
    NoFile,
    /// The file's name does not end as an image or a video does.
    InvalidType,
    /// The file is turned away before it is written.
    Refused(UploadError),
    /// The file is written and then turned away for its size.
    TooLarge(AcceptedUpload),
    /// The file is written and becomes the current item.
    Accept(AcceptedMedia),
}

/// An image or a video that becomes the current item.
#[derive(Clone, Debug)]
pub struct AcceptedMedia {
    /// Where the file is written.
    pub upload: AcceptedUpload,
    /// The name that the item goes by.
    pub filename: String,
    pub media_type: MediaType,
    pub duration_secs: u64,
    /// Whether the caption is to be drawn into the file.
    pub embed_caption: bool,
    /// The caption as the form gave it.
    pub caption: String,
}

/// A plan for an image or a video as a mathematical value.
pub enum MediaPlanView {
    NoFile,
    InvalidType,
    Refused(UploadError),
    TooLarge { stored_as: Seq<char>, path: Seq<char> },
    Accept {
        stored_as: Seq<char>,
        path: Seq<char>,
        filename: Seq<char>,
        media_type: MediaType,
        duration_secs: u64,
        embed_caption: bool,
        caption: Seq<char>,
    },
}

impl View for MediaUploadPlan {
    type V = MediaPlanView;

    open spec fn view(&self) -> MediaPlanView {
        match self {
            MediaUploadPlan::NoFile => MediaPlanView::NoFile,
            MediaUploadPlan::InvalidType => MediaPlanView::InvalidType,
            MediaUploadPlan::Refused(reason) => MediaPlanView::Refused(*reason),
            MediaUploadPlan::TooLarge(upload) => MediaPlanView::TooLarge {
                stored_as: upload.filename@,
                path: upload.path@,
            },
            MediaUploadPlan::Accept(media) => MediaPlanView::Accept {
                stored_as: media.upload.filename@,
                path: media.upload.path@,
                filename: media.filename@,
                media_type: media.media_type,
                duration_secs: media.duration_secs,
                embed_caption: media.embed_caption,
                caption: media.caption@,
            },
        }
    }
}

/// What is done with a form that may hold a sound.
#[derive(Clone, Debug)]
pub enum SoundUploadPlan {
    /// The form names no file.
    NoFile,
    /// The file's name does not end as a sound does.
    InvalidType,
    /// The file is too large.
    TooLarge,
    /// The file is turned away.
    Refused(UploadError),
    /// The file is written and becomes the current sound.
    Accept(AcceptedUpload),
}

/// A plan for a sound as a mathematical value.
pub enum SoundPlanView {
    NoFile,
    InvalidType,
    TooLarge,
    Refused(UploadError),
    Accept { stored_as: Seq<char>, path: Seq<char> },
}

impl View for SoundUploadPlan {
    type V = SoundPlanView;

    open spec fn view(&self) -> SoundPlanView {
        match self {
            SoundUploadPlan::NoFile => SoundPlanView::NoFile,
            SoundUploadPlan::InvalidType => SoundPlanView::InvalidType,
            SoundUploadPlan::TooLarge => SoundPlanView::TooLarge,
            SoundUploadPlan::Refused(reason) => SoundPlanView::Refused(*reason),
            SoundUploadPlan::Accept(upload) => SoundPlanView::Accept {
                stored_as: upload.filename@,
                path: upload.path@,
            },
        }
    }
}

/// The kind of upload that a name stands for.
pub open spec fn media_type_of(filename: Seq<char>) -> MediaType {
    if is_video_extension(extension_of(filename)) {
        MediaType::Video
    } else {
        MediaType::Image
    }
}

/// The plan for a form that may hold an image or a video. The checks come
/// in this order: a file is named; its name ends as an image or a video does;
/// its name and content pass; it is not too large. The item goes by the name
/// that the client gave; a video plays in full, and a caption is drawn into
/// a video.
pub open spec fn media_plan(form: FormView) -> MediaPlanView {
    if form.filename.len() == 0 {
        MediaPlanView::NoFile
    } else if !(is_image_extension(extension_of(form.filename)) || is_video_extension(
        extension_of(form.filename),
    )) {
        MediaPlanView::InvalidType
    } else {
        match upload_checked(
            "uploads"@,
            form.filename,
            |name: Seq<char>| media_content_matches(extension_of(name), form.file_data),
        ) {
            Err(reason) => MediaPlanView::Refused(reason),
            Ok((stored_as, path)) => if form.file_data.len() > MAX_MEDIA_BYTES {
                MediaPlanView::TooLarge { stored_as, path }
            } else {
                MediaPlanView::Accept {
                    stored_as,
                    path,
                    filename: form.filename,
                    media_type: media_type_of(form.filename),
                    duration_secs: match media_type_of(form.filename) {
                        MediaType::Video => FULL_VIDEO_DURATION,
                        MediaType::Image => form.duration_secs,
                    },
                    embed_caption: media_type_of(form.filename) == MediaType::Video
                        && form.caption.len() > 0,
                    caption: form.caption,
                }
            },
        }
    }
}

/// The plan for a sound named `filename` with the content `data`. The checks
/// come in this order: a file is named; its name ends as a sound does; it is
/// not too large; its name and content pass.
pub open spec fn sound_plan(filename: Seq<char>, data: Seq<u8>) -> SoundPlanView {
    if filename.len() == 0 {
        SoundPlanView::NoFile
    } else if !is_sound_extension(extension_of(filename)) {
        SoundPlanView::InvalidType
    } else if data.len() > MAX_SOUND_BYTES {
        SoundPlanView::TooLarge
    } else {
        match upload_checked(
            "sounds"@,
            filename,
            |name: Seq<char>| sound_content_matches(extension_of(name), data),
        ) {
            Err(reason) => SoundPlanView::Refused(reason),
            Ok((stored_as, path)) => SoundPlanView::Accept { stored_as, path },
        }
    }
}

/// What the client is told after an upload became the current item.
pub open spec fn success_reply(
    filename: Seq<char>,
    media_type: MediaType,
    duration_secs: u64,
    caption: Seq<char>,
) -> Seq<char> {
    "<p>Uploaded "@ + filename + " successfully! Display duration: "@ + (if duration_secs
        == FULL_VIDEO_DURATION {
        "Full video"@
    } else {
        decimal(duration_secs as nat)
    }) + " seconds"@ + (if media_type == MediaType::Video && caption.len() > 0 {
        "<br/>Caption embedded in video"@
    } else if caption.len() > 0 {
        "<br/>Caption: "@ + caption
    } else {
        Seq::<char>::empty()
    }) + "</p>"@
}

/// The ending of a file name: what comes behind its last `.`, in lowercase;
/// the whole name where it has no `.`.
pub open spec fn extension_of(filename: Seq<char>) -> Seq<char> {
    lowercased(last_segment(filename))
}

/// Whether `extension` is the ending of a video file.
pub open spec fn is_video_extension(extension: Seq<char>) -> bool {
    extension == "mp4"@ || extension == "mov"@ || extension == "avi"@ || extension == "webm"@
        || extension == "ogg"@ || extension == "mkv"@ || extension == "wmv"@ || extension == "flv"@
        || extension == "m4v"@
}

/// Whether `extension` is the ending of an image file.
pub open spec fn is_image_extension(extension: Seq<char>) -> bool {
    extension == "jpg"@ || extension == "jpeg"@ || extension == "png"@ || extension == "gif"@
        || extension == "webp"@ || extension == "bmp"@ || extension == "tiff"@
        || extension == "svg"@
}

/// Whether `extension` is the ending of a sound file.
pub open spec fn is_sound_extension(extension: Seq<char>) -> bool {
    extension == "mp3"@ || extension == "wav"@ || extension == "ogg"@ || extension == "flac"@
        || extension == "m4a"@
}

/// The byte patterns by which file formats are known.
#[derive(Clone, Copy, Debug, PartialEq, Eq, Structural)]
pub enum Signature {
    /// The start of a JPEG image.
    Jpeg,
    /// The PNG signature.
    Png,
    /// `GIF87a`
    Gif87a,
    /// `GIF89a`
    Gif89a,
    /// `RIFF`, the start of WebP, AVI and WAV files.
    Riff,
    /// `WEBP`, the form type of a WebP file.
    Webp,
    /// `BM`
    Bmp,
    /// `<?xml`
    Xml,
    /// `<svg`
    Svg,
    /// A box of 24 bytes, `ftypmp42`.
    Mp42Short,
    /// A box of 32 bytes, `ftypmp42`.
    Mp42Long,
    /// A box of 24 bytes, `ftypmp41`.
    Mp41,
    /// A box of 24 bytes, `ftypiso5`.
    Iso5,
    /// A box of 20 bytes, `ftypqt`.
    QuickTime,
    /// A box of 32 bytes, `ftypM4V`.
    M4v,
    /// `AVI ` with its space, the form type of an AVI file.
    Avi,
    /// The EBML header of WebM and Matroska files.
    Matroska,
    /// `OggS`
    Ogg,
    /// The first half of the ASF header identifier.
    Asf,
    /// `FLV` and version 1.
    Flv,
    /// An MPEG audio frame, `FF FB`.
    Mp3Fb,
    /// `ID3`
    Id3,
    /// An MPEG audio frame, `FF F3`.
    Mp3F3,
    /// An MPEG audio frame, `FF F2`.
    Mp3F2,
    /// `WAVE`, the form type of a WAV file.
    Wave,
    /// `fLaC`
    Flac,
    /// A box of 32 bytes, `ftypM4A`.
    M4aLong,
    /// A box of 24 bytes, `ftypM4A ` with its space.
    M4aShort,
}

/// The bytes of a signature.
pub open spec fn signature_bytes(kind: Signature) -> Seq<u8> {
    match kind {
        Signature::Jpeg => seq![0xFFu8, 0xD8, 0xFF],
        Signature::Png => seq![0x89u8, 0x50, 0x4E, 0x47, 0x0D, 0x0A, 0x1A, 0x0A],
        Signature::Gif87a => seq![0x47u8, 0x49, 0x46, 0x38, 0x37, 0x61],
        Signature::Gif89a => seq![0x47u8, 0x49, 0x46, 0x38, 0x39, 0x61],
        Signature::Riff => seq![0x52u8, 0x49, 0x46, 0x46],
        Signature::Webp => seq![0x57u8, 0x45, 0x42, 0x50],
        Signature::Bmp => seq![0x42u8, 0x4D],
        Signature::Xml => seq![0x3Cu8, 0x3F, 0x78, 0x6D, 0x6C],
        Signature::Svg => seq![0x3Cu8, 0x73, 0x76, 0x67],
        Signature::Mp42Short => seq![0x00u8, 0x00, 0x00, 0x18, 0x66, 0x74, 0x79, 0x70, 0x6D, 0x70, 0x34, 0x32],
        Signature::Mp42Long => seq![0x00u8, 0x00, 0x00, 0x20, 0x66, 0x74, 0x79, 0x70, 0x6D, 0x70, 0x34, 0x32],
        Signature::Mp41 => seq![0x00u8, 0x00, 0x00, 0x18, 0x66, 0x74, 0x79, 0x70, 0x6D, 0x70, 0x34, 0x31],
        Signature::Iso5 => seq![0x00u8, 0x00, 0x00, 0x18, 0x66, 0x74, 0x79, 0x70, 0x69, 0x73, 0x6F, 0x35],
        Signature::QuickTime => seq![0x00u8, 0x00, 0x00, 0x14, 0x66, 0x74, 0x79, 0x70, 0x71, 0x74],
        Signature::M4v => seq![0x00u8, 0x00, 0x00, 0x20, 0x66, 0x74, 0x79, 0x70, 0x4D, 0x34, 0x56],
        Signature::Avi => seq![0x41u8, 0x56, 0x49, 0x20],
        Signature::Matroska => seq![0x1Au8, 0x45, 0xDF, 0xA3],
        Signature::Ogg => seq![0x4Fu8, 0x67, 0x67, 0x53],
        Signature::Asf => seq![0x30u8, 0x26, 0xB2, 0x75, 0x8E, 0x66, 0xCF, 0x11],
        Signature::Flv => seq![0x46u8, 0x4C, 0x56, 0x01],
        Signature::Mp3Fb => seq![0xFFu8, 0xFB],
        Signature::Id3 => seq![0x49u8, 0x44, 0x33],
        Signature::Mp3F3 => seq![0xFFu8, 0xF3],
        Signature::Mp3F2 => seq![0xFFu8, 0xF2],
        Signature::Wave => seq![0x57u8, 0x41, 0x56, 0x45],
        Signature::Flac => seq![0x66u8, 0x4C, 0x61, 0x43],
        Signature::M4aLong => seq![0x00u8, 0x00, 0x00, 0x20, 0x66, 0x74, 0x79, 0x70, 0x4D, 0x34, 0x41],
        Signature::M4aShort => seq![0x00u8, 0x00, 0x00, 0x18, 0x66, 0x74, 0x79, 0x70, 0x4D, 0x34, 0x41, 0x20],
    }
}

/// Whether `data` holds `signature` from position `at` on.
pub open spec fn holds_at(data: Seq<u8>, at: int, signature: Seq<u8>) -> bool {
    at + signature.len() <= data.len() && data.subrange(at, at + signature.len()) == signature
}

/// Whether `data` begins with the signature `kind`.
pub open spec fn starts_as(data: Seq<u8>, kind: Signature) -> bool {
    has_prefix(data, signature_bytes(kind))
}

/// Whether `data` holds the signature `kind` as its form type, behind the
/// eight bytes of a RIFF header.
pub open spec fn form_type_is(data: Seq<u8>, kind: Signature) -> bool {
    holds_at(data, 8, signature_bytes(kind))
}

/// Whether `data` begins as a media file with the ending `extension` must.
/// An ending without a known signature accepts any content.
pub open spec fn media_content_matches(extension: Seq<char>, data: Seq<u8>) -> bool {
    if extension == "jpg"@ || extension == "jpeg"@ {
        starts_as(data, Signature::Jpeg)
    } else if extension == "png"@ {
        starts_as(data, Signature::Png)
    } else if extension == "gif"@ {
        starts_as(data, Signature::Gif87a) || starts_as(data, Signature::Gif89a)
    } else if extension == "webp"@ {
        starts_as(data, Signature::Riff) && data.len() > 12 && form_type_is(data, Signature::Webp)
    } else if extension == "bmp"@ {
        starts_as(data, Signature::Bmp)
    } else if extension == "svg"@ {
        starts_as(data, Signature::Xml) || starts_as(data, Signature::Svg)
    } else if extension == "mp4"@ {
        starts_as(data, Signature::Mp42Short) || starts_as(data, Signature::Mp42Long)
            || starts_as(data, Signature::Mp41) || starts_as(data, Signature::Iso5)
    } else if extension == "mov"@ || extension == "m4v"@ {
        starts_as(data, Signature::QuickTime) || starts_as(data, Signature::M4v)
    } else if extension == "avi"@ {
        starts_as(data, Signature::Riff) && form_type_is(data, Signature::Avi)
    } else if extension == "webm"@ {
        starts_as(data, Signature::Matroska)
    } else if extension == "mkv"@ {
        starts_as(data, Signature::Matroska)
    } else if extension == "ogg"@ {
        starts_as(data, Signature::Ogg)
    } else if extension == "wmv"@ {
        starts_as(data, Signature::Asf)
    } else if extension == "flv"@ {
        starts_as(data, Signature::Flv)
    } else {
        true
    }
}

/// Whether `data` begins as a sound file with the ending `extension` must.
/// An ending without a known signature accepts any content.
pub open spec fn sound_content_matches(extension: Seq<char>, data: Seq<u8>) -> bool {
    if extension == "mp3"@ {
        starts_as(data, Signature::Mp3Fb) || starts_as(data, Signature::Id3)
            || starts_as(data, Signature::Mp3F3) || starts_as(data, Signature::Mp3F2)
    } else if extension == "wav"@ {
        starts_as(data, Signature::Riff) && form_type_is(data, Signature::Wave)
    } else if extension == "ogg"@ {
        starts_as(data, Signature::Ogg)
    } else if extension == "flac"@ {
        starts_as(data, Signature::Flac)
    } else if extension == "m4a"@ {
        starts_as(data, Signature::M4aLong) || starts_as(data, Signature::Mp42Short)
            || starts_as(data, Signature::M4aShort)
    } else {
        true
    }
}

/// The bytes of a signature.
pub fn signature(kind: Signature) -> (bytes: Vec<u8>)
    ensures
        bytes@ == signature_bytes(kind),
{
    match kind {
        Signature::Jpeg => vec![0xFFu8, 0xD8, 0xFF],
        Signature::Png => vec![0x89u8, 0x50, 0x4E, 0x47, 0x0D, 0x0A, 0x1A, 0x0A],
        Signature::Gif87a => vec![0x47u8, 0x49, 0x46, 0x38, 0x37, 0x61],
        Signature::Gif89a => vec![0x47u8, 0x49, 0x46, 0x38, 0x39, 0x61],
        Signature::Riff => vec![0x52u8, 0x49, 0x46, 0x46],
        Signature::Webp => vec![0x57u8, 0x45, 0x42, 0x50],
        Signature::Bmp => vec![0x42u8, 0x4D],
        Signature::Xml => vec![0x3Cu8, 0x3F, 0x78, 0x6D, 0x6C],
        Signature::Svg => vec![0x3Cu8, 0x73, 0x76, 0x67],
        Signature::Mp42Short => vec![0x00u8, 0x00, 0x00, 0x18, 0x66, 0x74, 0x79, 0x70, 0x6D, 0x70, 0x34, 0x32],
        Signature::Mp42Long => vec![0x00u8, 0x00, 0x00, 0x20, 0x66, 0x74, 0x79, 0x70, 0x6D, 0x70, 0x34, 0x32],
        Signature::Mp41 => vec![0x00u8, 0x00, 0x00, 0x18, 0x66, 0x74, 0x79, 0x70, 0x6D, 0x70, 0x34, 0x31],
        Signature::Iso5 => vec![0x00u8, 0x00, 0x00, 0x18, 0x66, 0x74, 0x79, 0x70, 0x69, 0x73, 0x6F, 0x35],
        Signature::QuickTime => vec![0x00u8, 0x00, 0x00, 0x14, 0x66, 0x74, 0x79, 0x70, 0x71, 0x74],
        Signature::M4v => vec![0x00u8, 0x00, 0x00, 0x20, 0x66, 0x74, 0x79, 0x70, 0x4D, 0x34, 0x56],
        Signature::Avi => vec![0x41u8, 0x56, 0x49, 0x20],
        Signature::Matroska => vec![0x1Au8, 0x45, 0xDF, 0xA3],
        Signature::Ogg => vec![0x4Fu8, 0x67, 0x67, 0x53],
        Signature::Asf => vec![0x30u8, 0x26, 0xB2, 0x75, 0x8E, 0x66, 0xCF, 0x11],
        Signature::Flv => vec![0x46u8, 0x4C, 0x56, 0x01],
        Signature::Mp3Fb => vec![0xFFu8, 0xFB],
        Signature::Id3 => vec![0x49u8, 0x44, 0x33],
        Signature::Mp3F3 => vec![0xFFu8, 0xF3],
        Signature::Mp3F2 => vec![0xFFu8, 0xF2],
        Signature::Wave => vec![0x57u8, 0x41, 0x56, 0x45],
        Signature::Flac => vec![0x66u8, 0x4C, 0x61, 0x43],
        Signature::M4aLong => vec![0x00u8, 0x00, 0x00, 0x20, 0x66, 0x74, 0x79, 0x70, 0x4D, 0x34, 0x41],
        Signature::M4aShort => vec![0x00u8, 0x00, 0x00, 0x18, 0x66, 0x74, 0x79, 0x70, 0x4D, 0x34, 0x41, 0x20],
    }
}

/// Whether `data` holds the signature `kind` from position `at` on.
fn holds(data: &[u8], at: usize, kind: Signature) -> (found: bool)
    ensures
        found == holds_at(data@, at as int, signature_bytes(kind)),
{
    let wanted = signature(kind);
    if wanted.len() > data.len() || at > data.len() - wanted.len() {
        return false;
    }
    let mut k: usize = 0;
    while k < wanted.len()
        invariant
            k <= wanted.len(),
            wanted@ == signature_bytes(kind),
            at + wanted.len() <= data.len(),
            forall|j: int| 0 <= j < k ==> data@[at + j] == wanted@[j],
        decreases wanted.len() - k,
    {
        if data[at + k] != wanted[k] {
            assert(data@.subrange(at as int, at + wanted.len())[k as int] != wanted@[k as int]);
            return false;
        }
        k += 1;
    }
    assert(data@.subrange(at as int, at + wanted.len()) =~= wanted@);
    true
}

/// Whether `data` begins with the signature `kind`.
fn begins_with(data: &[u8], kind: Signature) -> (found: bool)
    ensures
        found == starts_as(data@, kind),
{
    holds(data, 0, kind)
}

/// The ending of `filename`, in lowercase.
pub fn file_extension(filename: &str) -> (extension: String)
    ensures
        extension@ == extension_of(filename@),
{
    let chars = chars_of(filename);
    let from: usize = find_after_last_dot(&chars);
    let ending = slice_chars(&chars, from, chars.len());
    let ending = string_of(&ending);
    lowercase(ending.as_str())
}

/// The kind of an ending, given the ending in lowercase: a video ending
/// makes a video, every other an image.
pub fn media_type_of_extension(ext: &str) -> (kind: MediaType)
    ensures
        kind == (if is_video_extension(ext@) {
            MediaType::Video
        } else {
            MediaType::Image
        }),
{
    if same_text(ext, "mp4") || same_text(ext, "mov") || same_text(ext, "avi")
        || same_text(ext, "webm") || same_text(ext, "ogg") || same_text(ext, "mkv")
        || same_text(ext, "wmv") || same_text(ext, "flv") || same_text(ext, "m4v") {
        MediaType::Video
    } else {
        MediaType::Image
    }
}

/// Whether the ending, given in lowercase, is one of an accepted image or
/// video.
pub fn is_media_extension(ext: &str) -> (accepted: bool)
    ensures
        accepted == (is_image_extension(ext@) || is_video_extension(ext@)),
{
    same_text(ext, "jpg") || same_text(ext, "jpeg") || same_text(ext, "png")
        || same_text(ext, "gif") || same_text(ext, "webp") || same_text(ext, "bmp")
        || same_text(ext, "tiff") || same_text(ext, "svg") || same_text(ext, "mp4")
        || same_text(ext, "mov") || same_text(ext, "avi") || same_text(ext, "webm")
        || same_text(ext, "ogg") || same_text(ext, "mkv") || same_text(ext, "wmv")
        || same_text(ext, "flv") || same_text(ext, "m4v")
}

/// Whether the ending, given in lowercase, is one of an accepted sound.
pub fn is_sound_extension_text(ext: &str) -> (accepted: bool)
    ensures
        accepted == is_sound_extension(ext@),
{
    same_text(ext, "mp3") || same_text(ext, "wav") || same_text(ext, "ogg")
        || same_text(ext, "flac") || same_text(ext, "m4a")
}

/// Whether `data` begins as a media file with the ending `ext` must.
pub fn media_content_fits(ext: &str, data: &[u8]) -> (fits: bool)
    ensures
        fits == media_content_matches(ext@, data@),
{
    if same_text(ext, "jpg") || same_text(ext, "jpeg") {
        begins_with(data, Signature::Jpeg)
    } else if same_text(ext, "png") {
        begins_with(data, Signature::Png)
    } else if same_text(ext, "gif") {
        begins_with(data, Signature::Gif87a) || begins_with(data, Signature::Gif89a)
    } else if same_text(ext, "webp") {
        begins_with(data, Signature::Riff) && data.len() > 12 && holds(data, 8, Signature::Webp)
    } else if same_text(ext, "bmp") {
        begins_with(data, Signature::Bmp)
    } else if same_text(ext, "svg") {
        begins_with(data, Signature::Xml) || begins_with(data, Signature::Svg)
    } else if same_text(ext, "mp4") {
        begins_with(data, Signature::Mp42Short) || begins_with(data, Signature::Mp42Long)
            || begins_with(data, Signature::Mp41) || begins_with(data, Signature::Iso5)
    } else if same_text(ext, "mov") || same_text(ext, "m4v") {
        begins_with(data, Signature::QuickTime) || begins_with(data, Signature::M4v)
    } else if same_text(ext, "avi") {
        begins_with(data, Signature::Riff) && holds(data, 8, Signature::Avi)
    } else if same_text(ext, "webm") {
        begins_with(data, Signature::Matroska)
    } else if same_text(ext, "mkv") {
        begins_with(data, Signature::Matroska)
    } else if same_text(ext, "ogg") {
        begins_with(data, Signature::Ogg)
    } else if same_text(ext, "wmv") {
        begins_with(data, Signature::Asf)
    } else if same_text(ext, "flv") {
        begins_with(data, Signature::Flv)
    } else {
        true
    }
}

/// Whether `data` begins as a sound file with the ending `ext` must.
pub fn sound_content_fits(ext: &str, data: &[u8]) -> (fits: bool)
    ensures
        fits == sound_content_matches(ext@, data@),
{
    if same_text(ext, "mp3") {
        begins_with(data, Signature::Mp3Fb) || begins_with(data, Signature::Id3)
            || begins_with(data, Signature::Mp3F3) || begins_with(data, Signature::Mp3F2)
    } else if same_text(ext, "wav") {
        begins_with(data, Signature::Riff) && holds(data, 8, Signature::Wave)
    } else if same_text(ext, "ogg") {
        begins_with(data, Signature::Ogg)
    } else if same_text(ext, "flac") {
        begins_with(data, Signature::Flac)
    } else if same_text(ext, "m4a") {
        begins_with(data, Signature::M4aLong) || begins_with(data, Signature::Mp42Short)
            || begins_with(data, Signature::M4aShort)
    } else {
        true
    }
}

/// The kind of upload that `filename` names: a video by its ending, else an
/// image.
pub fn detect_media_type(filename: &str) -> (kind: MediaType)
    ensures
        kind == (if is_video_extension(extension_of(filename@)) {
            MediaType::Video
        } else {
            MediaType::Image
        }),
{
    let ext = file_extension(filename);
    media_type_of_extension(ext.as_str())
}

/// Whether `filename` has the ending of an accepted image or video.
pub fn is_valid_media_type(filename: &str) -> (accepted: bool)
    ensures
        accepted == (is_image_extension(extension_of(filename@)) || is_video_extension(
            extension_of(filename@),
        )),
{
    let ext = file_extension(filename);
    is_media_extension(ext.as_str())
}

/// Whether `filename` has the ending of an accepted sound.
pub fn is_valid_sound_type(filename: &str) -> (accepted: bool)
    ensures
        accepted == is_sound_extension(extension_of(filename@)),
{
    let ext = file_extension(filename);
    is_sound_extension_text(ext.as_str())
}

/// Whether the first bytes of `data` are those of the format that the ending
/// of `filename` claims.
pub fn is_valid_file_content(filename: &str, data: &[u8]) -> (fits: bool)
    ensures
        fits == media_content_matches(extension_of(filename@), data@),
{
    let ext = file_extension(filename);
    media_content_fits(ext.as_str(), data)
}

/// Whether the first bytes of `data` are those of the sound format that the
/// ending of `filename` claims.
pub fn is_valid_sound_content(filename: &str, data: &[u8]) -> (fits: bool)
    ensures
        fits == sound_content_matches(extension_of(filename@), data@),
{
    let ext = file_extension(filename);
    sound_content_fits(ext.as_str(), data)
}

/// A fresh media item, uploaded at `upload_time` and not quarantined.
pub fn media_info_at(
    filename: String,
    media_type: MediaType,
    duration_secs: u64,
    caption: String,
    upload_time: Timestamp,
) -> (info: MediaInfo)
    ensures
        info.filename == filename,
        info.media_type == media_type,
        info.upload_time == upload_time,
        !info.marked_for_deletion,
        info.duration_secs == duration_secs,
        info.caption == caption,
{
    MediaInfo {
        filename,
        media_type,
        upload_time,
        marked_for_deletion: false,
        duration_secs,
        caption,
    }
}

/// A fresh media item, stamped with the clock's present reading and not
/// quarantined.
pub fn create_media_info(
    filename: String,
    media_type: MediaType,
    duration_secs: u64,
    caption: String,
) -> (info: MediaInfo)
    ensures
        info.filename == filename,
        info.media_type == media_type,
        !info.marked_for_deletion,
        info.duration_secs == duration_secs,
        info.caption == caption,
{
    media_info_at(filename, media_type, duration_secs, caption, Timestamp::now())
}

impl UploadError {
    /// The reason in words.
    pub fn message(&self) -> (text: String)
        ensures
            text@ == (match *self {
                UploadError::InvalidFilename => "Invalid filename"@,
                UploadError::InvalidPath => "Invalid file path"@,
                UploadError::ContentMismatch => "File content does not match file extension"@,
                UploadError::Multipart => "Multipart error"@,
            }),
    {
        match self {
            UploadError::InvalidFilename => "Invalid filename".to_owned(),
            UploadError::InvalidPath => "Invalid file path".to_owned(),
            UploadError::ContentMismatch => "File content does not match file extension".to_owned(),
            UploadError::Multipart => "Multipart error".to_owned(),
        }
    }
}

impl FormDataParsed {
    /// A form before its first field: no file, the default duration, no
    /// caption.
    pub fn new() -> (form: FormDataParsed)
        ensures
            form@ == (FormView {
                filename: Seq::empty(),
                file_data: Seq::empty(),
                duration_secs: DEFAULT_DURATION_SECS,
                caption: Seq::empty(),
            }),
    {
        FormDataParsed {
            filename: String::new(),
            file_data: Vec::new(),
            duration_secs: DEFAULT_DURATION_SECS,
            caption: String::new(),
        }
    }

    /// Takes in the field `name` with the content `data`. Where the field is
    /// refused the form is left as it was.
    pub fn take_field(
        &mut self,
        name: &str,
        client_filename: Option<&str>,
        data: Vec<u8>,
    ) -> (taken: Result<(), UploadError>)
        ensures
            taken is Ok == form_after(
                old(self)@,
                name@,
                match client_filename {
                    Some(given) => Some(given@),
                    None => None,
                },
                data@,
            ) is Ok,
            taken is Ok ==> final(self)@ == form_after(
                old(self)@,
                name@,
                match client_filename {
                    Some(given) => Some(given@),
                    None => None,
                },
                data@,
            )->Ok_0,
            taken is Err ==> taken->Err_0 == UploadError::Multipart && final(self)@ == old(self)@,
    {
        if same_text(name, "image") {
            self.filename = match client_filename {
                Some(given) => given.to_owned(),
                None => "unnamed".to_owned(),
            };
            let mut data = data;
            self.file_data.append(&mut data);
            Ok(())
        } else if same_text(name, "duration") {
            match text_from_utf8(data) {
                Some(field) => {
                    self.duration_secs = duration_from_field(field.as_str(), self.duration_secs);
                    Ok(())
                },
                None => Err(UploadError::Multipart),
            }
        } else if same_text(name, "caption") {
            match text_from_utf8(data) {
                Some(field) => {
                    self.caption = trim(field.as_str()).to_owned();
                    Ok(())
                },
                None => Err(UploadError::Multipart),
            }
        } else {
            Ok(())
        }
    }
}

/// `seconds` brought into the range of display durations.
pub fn clamp_duration(seconds: u64) -> (clamped: u64)
    ensures
        clamped == clamped_duration(seconds),
{
    if seconds < MIN_DURATION_SECS {
        MIN_DURATION_SECS
    } else if seconds > MAX_DURATION_SECS {
        MAX_DURATION_SECS
    } else {
        seconds
    }
}

/// The display duration that a parsed duration field asks for: the number,
/// brought into range; `current` where the field held none.
pub fn duration_from_number(number: Option<u64>, current: u64) -> (seconds: u64)
    ensures
        seconds == (match number {
            Some(asked) => clamped_duration(asked),
            None => current,
        }),
{
    match number {
        Some(asked) => clamp_duration(asked),
        None => current,
    }
}

/// The display duration after a duration field that reads `field`.
pub fn duration_from_field(field: &str, current: u64) -> (seconds: u64)
    ensures
        seconds == duration_after(field@, current),
{
    duration_from_number(parse_u64(trim(field)), current)
}

/// The display duration of an upload: a video plays in full, an image is
/// shown for as long as was asked.
pub fn display_duration(media_type: MediaType, requested: u64) -> (seconds: u64)
    ensures
        seconds == (match media_type {
            MediaType::Video => FULL_VIDEO_DURATION,
            MediaType::Image => requested,
        }),
{
    match media_type {
        MediaType::Video => FULL_VIDEO_DURATION,
        MediaType::Image => requested,
    }
}

/// Whether the caption is drawn into the file itself: for a video with a
/// caption.
pub fn embeds_caption(media_type: MediaType, caption: &str) -> (embeds: bool)
    ensures
        embeds == (media_type == MediaType::Video && caption@.len() > 0),
{
    match media_type {
        MediaType::Video => !caption.is_empty(),
        MediaType::Image => false,
    }
}

/// The caption that is shown beside the item: none where it is drawn into
/// the file.
pub fn shown_caption(media_type: MediaType, caption: String) -> (shown: String)
    ensures
        shown@ == (if media_type == MediaType::Video && caption@.len() > 0 {
            Seq::<char>::empty()
        } else {
            caption@
        }),
{
    if embeds_caption(media_type, caption.as_str()) {
        String::new()
    } else {
        caption
    }
}

/// Whether an image or video of `size` bytes is too large.
pub fn exceeds_media_limit(size: u64) -> (too_large: bool)
    ensures
        too_large == (size > MAX_MEDIA_BYTES),
{
    size > MAX_MEDIA_BYTES
}

/// Whether a sound of `size` bytes is too large.
pub fn exceeds_sound_limit(size: usize) -> (too_large: bool)
    ensures
        too_large == (size > MAX_SOUND_BYTES),
{
    size > MAX_SOUND_BYTES
}

/// Whether a video of `duration` seconds is too long to fetch.
pub fn video_too_long(duration: u64) -> (too_long: bool)
    ensures
        too_long == (duration > MAX_VIDEO_SECS),
{
    duration > MAX_VIDEO_SECS
}

/// The address that a form asks to fetch a video from: its `video_url`,
/// else its `youtube_url`, else nothing.
pub fn requested_video_url(video_url: Option<String>, youtube_url: Option<String>) -> (url: String)
    ensures
        url@ == (match (video_url, youtube_url) {
            (Some(first), _) => first@,
            (None, Some(second)) => second@,
            (None, None) => Seq::<char>::empty(),
        }),
{
    match video_url {
        Some(first) => first,
        None => match youtube_url {
            Some(second) => second,
            None => String::new(),
        },
    }
}

/// Whether an image or video named `filename` with the content `data` may be
/// written, and under which name and path below `uploads`.
pub fn check_media_upload(filename: &str, data: &[u8]) -> (verdict: Result<
    AcceptedUpload,
    UploadError,
>)
    ensures
        accepted_view(verdict) == upload_checked(
            "uploads"@,
            filename@,
            |name: Seq<char>| media_content_matches(extension_of(name), data@),
        ),
{
    match sanitize_filename(filename) {
        None => Err(UploadError::InvalidFilename),
        Some(name) => match validate_file_path("uploads", name.as_str()) {
            None => Err(UploadError::InvalidPath),
            Some(path) => if is_valid_file_content(name.as_str(), data) {
                Ok(AcceptedUpload { filename: name, path })
            } else {
                Err(UploadError::ContentMismatch)
            },
        },
    }
}

/// Whether a sound named `filename` with the content `data` may be written,
/// and under which name and path below `sounds`.
pub fn check_sound_upload(filename: &str, data: &[u8]) -> (verdict: Result<
    AcceptedUpload,
    UploadError,
>)
    ensures
        accepted_view(verdict) == upload_checked(
            "sounds"@,
            filename@,
            |name: Seq<char>| sound_content_matches(extension_of(name), data@),
        ),
{
    match sanitize_filename(filename) {
        None => Err(UploadError::InvalidFilename),
        Some(name) => match validate_file_path("sounds", name.as_str()) {
            None => Err(UploadError::InvalidPath),
            Some(path) => if is_valid_sound_content(name.as_str(), data) {
                Ok(AcceptedUpload { filename: name, path })
            } else {
                Err(UploadError::ContentMismatch)
            },
        },
    }
}

/// The plan for a form that may hold an image or a video.
pub fn plan_media_upload(form: &FormDataParsed) -> (plan: MediaUploadPlan)
    ensures
        plan@ == media_plan(form@),
{
    if form.filename.as_str().is_empty() {
        return MediaUploadPlan::NoFile;
    }
    if !is_valid_media_type(form.filename.as_str()) {
        return MediaUploadPlan::InvalidType;
    }
    match check_media_upload(form.filename.as_str(), form.file_data.as_slice()) {
        Err(reason) => MediaUploadPlan::Refused(reason),
        Ok(upload) => {
            if form.file_data.len() > 100 * 1024 * 1024 {
                MediaUploadPlan::TooLarge(upload)
            } else {
                let media_type = detect_media_type(form.filename.as_str());
                MediaUploadPlan::Accept(
                    AcceptedMedia {
                        upload,
                        filename: form.filename.clone(),
                        media_type,
                        duration_secs: display_duration(media_type, form.duration_secs),
                        embed_caption: embeds_caption(media_type, form.caption.as_str()),
                        caption: form.caption.clone(),
                    },
                )
            }
        },
    }
}

/// The plan for a sound named `filename` with the content `data`.
pub fn plan_sound_upload(filename: &str, data: &[u8]) -> (plan: SoundUploadPlan)
    ensures
        plan@ == sound_plan(filename@, data@),
{
    if filename.is_empty() {
        SoundUploadPlan::NoFile
    } else if !is_valid_sound_type(filename) {
        SoundUploadPlan::InvalidType
    } else if exceeds_sound_limit(data.len()) {
        SoundUploadPlan::TooLarge
    } else {
        match check_sound_upload(filename, data) {
            Err(reason) => SoundUploadPlan::Refused(reason),
            Ok(upload) => SoundUploadPlan::Accept(upload),
        }
    }
}

/// What the client is told after the upload `filename` became the current
/// item.
pub fn upload_success_reply(
    filename: &str,
    media_type: MediaType,
    duration_secs: u64,
    caption: &str,
) -> (reply: String)
    ensures
        reply@ == success_reply(filename@, media_type, duration_secs, caption@),
{
    let mut out = chars_of("<p>Uploaded ");
    extend_chars(&mut out, &chars_of(filename));
    extend_chars(&mut out, &chars_of(" successfully! Display duration: "));
    if duration_secs == FULL_VIDEO_DURATION {
        extend_chars(&mut out, &chars_of("Full video"));
    } else {
        push_decimal(&mut out, duration_secs);
    }
    extend_chars(&mut out, &chars_of(" seconds"));
    if embeds_caption(media_type, caption) {
        extend_chars(&mut out, &chars_of("<br/>Caption embedded in video"));
    } else if !caption.is_empty() {
        extend_chars(&mut out, &chars_of("<br/>Caption: "));
        extend_chars(&mut out, &chars_of(caption));
    } else {
        assert(out@ + Seq::<char>::empty() =~= out@);
    }
    extend_chars(&mut out, &chars_of("</p>"));
    assert(out@ =~= success_reply(filename@, media_type, duration_secs, caption@));
    string_of(&out)
}

/// What the hub holds after an upload of kind `media_type` under `filename`
/// was announced: every upload is announced as new content, and a video by
/// an event of its own on top of that.
pub open spec fn announced(hub: HubView, media_type: MediaType, filename: Seq<char>) -> HubView {
    match media_type {
        MediaType::Image => hub.publish(media_event()),
        MediaType::Video => hub.publish(media_event()).publish(video_event(filename)),
    }
}

/// Puts `media_info` in the media slot and announces it to every viewer:
/// first as new content, then, for a video, as a video to play.
pub fn update_state_and_broadcast(
    state: &mut MediaViewState,
    media_info: MediaInfo,
    ws_clients: &mut Hub,
)
    ensures
        final(state)@ == old(state)@.set_media(media_info@),
        final(ws_clients)@ == announced(
            old(ws_clients)@,
            media_info.media_type,
            media_info.filename@,
        ),
        final(ws_clients)@.well_formed(),
{
    let filename = media_info.filename.clone();
    let media_type = media_info.media_type;
    state.set_last_media(media_info);
    broadcast_new_media(ws_clients);
    match media_type {
        MediaType::Video => {
            broadcast_video_event(ws_clients, filename);
        },
        MediaType::Image => {},
    }
}

} // verus!

//! The text work around video captions and downloads: which addresses are
//! supported, what to tell the user when a download fails, how a caption is
//! escaped and wrapped, and how a processed file is named.

use crate::text::{
    after_last_dot, chars_of, contains, contains_text, extend_chars, find_after_last_dot, joined,
    slice_chars, string_of, trim, trimmed,
};
use crate::json::{
    json_array_len, json_array_len_at, json_text, json_text_at, json_u64, json_u64_at, json_valid,
};
use crate::text::same_text;
use crate::time::Timestamp;
use vstd::prelude::*;
use vstd::utf8::encode_utf8;

verus! {

/// The home of the video helpers.
pub struct VideoProcessor;

/// The platforms that videos are fetched from.
#[derive(Debug, Clone, Copy, PartialEq, Eq, Structural)]
pub enum VideoPlatform {
    YouTube,
    TikTok,
}

/// What is known of a video before it is fetched.
#[derive(Debug, Clone)]
pub struct VideoMetadata {
    pub title: String,
    pub duration: u64,
    pub uploader: String,
    pub platform: VideoPlatform,
}

/// The picture size of a video.
#[derive(Debug, Clone, Copy, PartialEq, Eq, Structural)]
pub struct VideoInfo {
    pub width: u32,
    pub height: u32,
}

/// Why a video's description cannot be read.
#[derive(Debug, Clone, Copy, PartialEq, Eq, Structural)]
pub enum ProbeError {
    /// The description is no JSON document.
    Malformed,
    /// The description lists no streams.
    NoStreams,
}

/// Why a video cannot be fetched at all.
#[derive(Debug, Clone, Copy, PartialEq, Eq, Structural)]
pub enum FetchError {
    /// The address is on no supported platform.
    UnsupportedUrl,
    /// The tool that downloads is not installed.
    NoDownloader,
    /// The tool that converts is not installed.
    NoTranscoder,
}

/// Whether the video at `url` can be fetched with the tools at hand, and if
/// not, why: the address is looked at first, then the downloader, then the
/// converter where it is needed.
pub open spec fn fetchable(
    url: Seq<char>,
    downloader: bool,
    transcoder: bool,
    needs_transcoder: bool,
) -> Result<(), FetchError> {
    if !supported_video_url(url) {
        Err(FetchError::UnsupportedUrl)
    } else if !downloader {
        Err(FetchError::NoDownloader)
    } else if needs_transcoder && !transcoder {
        Err(FetchError::NoTranscoder)
    } else {
        Ok(())
    }
}

/// Video metadata as a mathematical value.
pub struct VideoMetadataView {
    pub title: Seq<char>,
    pub duration: u64,
    pub uploader: Seq<char>,
    pub platform: VideoPlatform,
}

impl View for VideoMetadata {
    type V = VideoMetadataView;

    open spec fn view(&self) -> VideoMetadataView {
        VideoMetadataView {
            title: self.title@,
            duration: self.duration,
            uploader: self.uploader@,
            platform: self.platform,
        }
    }
}

/// The metadata that the description `document` of the video at `url` gives:
/// a missing title or uploader reads `Unknown`, a missing duration 0. `None`
/// where the description is no JSON document.
pub open spec fn metadata_of(document: Seq<char>, url: Seq<char>) -> Option<VideoMetadataView> {
    if json_valid(document) {
        Some(
            VideoMetadataView {
                title: match json_text_at(document, "/title"@) {
                    Some(title) => title,
                    None => "Unknown"@,
                },
                duration: match json_u64_at(document, "/duration"@) {
                    Some(seconds) => seconds,
                    None => 0,
                },
                uploader: match json_text_at(document, "/uploader"@) {
                    Some(uploader) => uploader,
                    None => "Unknown"@,
                },
                platform: platform_of(url),
            },
        )
    } else {
        None
    }
}

/// The pointer to `field` of the stream at `index`.
pub open spec fn stream_pointer(index: nat, field: Seq<char>) -> Seq<char> {
    "/streams/"@ + decimal(index) + "/"@ + field
}

/// Whether the stream at `index` carries pictures.
pub open spec fn is_video_stream(document: Seq<char>, index: nat) -> bool {
    json_text_at(document, stream_pointer(index, "codec_type"@)) == Some("video"@)
}

/// A picture dimension of the stream at `index`, cut to 32 bits; `fallback`
/// where the stream does not state it.
pub open spec fn dimension(document: Seq<char>, index: nat, field: Seq<char>, fallback: u32) -> u32 {
    match json_u64_at(document, stream_pointer(index, field)) {
        Some(pixels) => (pixels % 0x1_0000_0000) as u32,
        None => fallback,
    }
}

/// The first stream from `from` on, below `count`, that carries pictures.
pub open spec fn first_video_stream(document: Seq<char>, from: nat, count: nat) -> Option<nat>
    decreases count - from,
{
    if from >= count {
        None
    } else if is_video_stream(document, from) {
        Some(from)
    } else {
        first_video_stream(document, from + 1, count)
    }
}

/// The picture size that the description `document` gives: that of its first
/// video stream, 1920 by 1080 for what it leaves open.
pub open spec fn probed(document: Seq<char>) -> Result<VideoInfo, ProbeError> {
    if !json_valid(document) {
        Err(ProbeError::Malformed)
    } else {
        match json_array_len_at(document, "/streams"@) {
            None => Err(ProbeError::NoStreams),
            Some(count) => match first_video_stream(document, 0, count) {
                Some(index) => Ok(
                    VideoInfo {
                        width: dimension(document, index, "width"@, 1920),
                        height: dimension(document, index, "height"@, 1080),
                    },
                ),
                None => Ok(VideoInfo { width: 1920, height: 1080 }),
            },
        }
    }
}

/// Whether `url` names a video on a supported platform.
pub open spec fn supported_video_url(url: Seq<char>) -> bool {
    ||| contains_text(url, "youtube.com/watch"@)
    ||| contains_text(url, "youtu.be/"@)
    ||| contains_text(url, "youtube.com/shorts/"@)
    ||| contains_text(url, "m.youtube.com/watch"@)
    ||| contains_text(url, "tiktok.com/@"@)
    ||| contains_text(url, "vm.tiktok.com/"@)
    ||| contains_text(url, "vt.tiktok.com/"@)
    ||| contains_text(url, "tiktok.com/t/"@)
    ||| contains_text(url, "m.tiktok.com/"@)
}

/// The platform that `url` belongs to; YouTube where it names neither.
pub open spec fn platform_of(url: Seq<char>) -> VideoPlatform {
    if contains_text(url, "youtube.com"@) || contains_text(url, "youtu.be"@) {
        VideoPlatform::YouTube
    } else if contains_text(url, "tiktok.com"@) {
        VideoPlatform::TikTok
    } else {
        VideoPlatform::YouTube
    }
}

/// What the user is told when fetching `url` failed with `error_msg`.
pub open spec fn friendly_error(error_msg: Seq<char>, url: Seq<char>) -> Seq<char> {
    if contains_text(error_msg, "Log in for access"@) || contains_text(error_msg, "cookies"@) {
        match platform_of(url) {
            VideoPlatform::TikTok => "This TikTok video requires login to view (age-restricted or sensitive content). Please try a different public TikTok video."@,
            VideoPlatform::YouTube => "This YouTube video requires authentication. Please try a different public video."@,
        }
    } else if contains_text(error_msg, "not comfortable for some audiences"@) {
        "This video is age-restricted and cannot be downloaded. Please try a different video."@
    } else if contains_text(error_msg, "Private video"@) || contains_text(
        error_msg,
        "Video unavailable"@,
    ) {
        "This video is private or unavailable. Please check the URL and try again."@
    } else if contains_text(error_msg, "Video too long"@) {
        "Video is too long (maximum 10 minutes allowed)."@
    } else {
        match platform_of(url) {
            VideoPlatform::TikTok => "Failed to download TikTok video. Make sure it's a public, non-restricted video and try again."@,
            VideoPlatform::YouTube => "Failed to download YouTube video. Please check the URL and try again."@,
        }
    }
}

/// What a failed fetch is reported as, given what the fetching tool wrote to
/// its error stream: a known cause in words of its own, anything else as
/// `what`, a colon and the tool's own words.
pub open spec fn download_failure(stderr: Seq<char>, what: Seq<char>) -> Seq<char> {
    if contains_text(stderr, "Log in for access"@) || contains_text(stderr, "cookies"@) {
        "TikTok video requires authentication. This video may be age-restricted or private. Try a different public TikTok video."@
    } else if contains_text(stderr, "not comfortable for some audiences"@) {
        "TikTok video is age-restricted and cannot be downloaded without authentication. Please try a different video."@
    } else if contains_text(stderr, "Private video"@) || contains_text(
        stderr,
        "Video unavailable"@,
    ) {
        "Video is private or unavailable. Please check the URL and try again."@
    } else {
        what + ": "@ + stderr
    }
}

/// Whether a caption is given and holds more than white space.
pub open spec fn caption_given(caption: Option<Seq<char>>) -> bool {
    caption is Some && trimmed(caption->0).len() > 0
}

/// The name that a video fetched at `timestamp` is stored under.
pub open spec fn fetched_name(timestamp: u64, captioned: bool) -> Seq<char> {
    "video_"@ + decimal(timestamp as nat) + (if captioned {
        "_captioned.mp4"@
    } else {
        ".mp4"@
    })
}

/// The name of the captioned copy of a video fetched at `timestamp`.
pub open spec fn processed_name(timestamp: u64) -> Seq<char> {
    "video_"@ + decimal(timestamp as nat) + "_captioned_final.mp4"@
}

/// The name that a video fetched at `timestamp` has while it is fetched.
pub open spec fn temporary_name(timestamp: u64) -> Seq<char> {
    "temp_video_"@ + decimal(timestamp as nat) + ".mp4"@
}

/// How the caption is drawn.
#[derive(Debug, Clone, Copy, PartialEq, Eq, Structural)]
pub enum HwAccel {
    /// On an NVIDIA GPU.
    Cuda,
    /// Through VAAPI.
    Vaapi,
    /// On the CPU.
    Software,
}

/// What goes before the drawing filter.
pub open spec fn filter_prefix(accel: HwAccel) -> Seq<char> {
    match accel {
        HwAccel::Cuda => "hwupload_cuda,"@,
        HwAccel::Vaapi => "hwupload,"@,
        HwAccel::Software => ""@,
    }
}

/// What goes behind the drawing filter.
pub open spec fn filter_suffix(accel: HwAccel) -> Seq<char> {
    match accel {
        HwAccel::Cuda => ",hwdownload"@,
        HwAccel::Vaapi => ""@,
        HwAccel::Software => ""@,
    }
}

/// The encoder that goes with `accel`.
pub open spec fn codec_name(accel: HwAccel) -> Seq<char> {
    match accel {
        HwAccel::Cuda => "h264_nvenc"@,
        HwAccel::Vaapi => "h264_vaapi"@,
        HwAccel::Software => "libx264"@,
    }
}

/// The arguments that switch the decoder to `accel`.
pub open spec fn accel_args(accel: HwAccel) -> Seq<Seq<char>> {
    match accel {
        HwAccel::Cuda => seq!["-hwaccel"@, "cuda"@, "-hwaccel_output_format"@, "cuda"@],
        HwAccel::Vaapi => seq![
            "-vaapi_device"@,
            "/dev/dri/renderD128"@,
            "-hwaccel"@,
            "vaapi"@,
            "-hwaccel_output_format"@,
            "vaapi"@,
        ],
        HwAccel::Software => seq![],
    }
}

/// The arguments of the run that draws a caption: the input, the switches
/// for `accel`, the filter, the sound copied as it is, the encoder, and the
/// output, which is overwritten.
pub open spec fn overlay_args(
    accel: HwAccel,
    input: Seq<char>,
    filter: Seq<char>,
    output: Seq<char>,
) -> Seq<Seq<char>> {
    seq!["-i"@, input] + accel_args(accel) + seq![
        "-vf"@,
        filter,
        "-c:a"@,
        "copy"@,
        "-c:v"@,
        codec_name(accel),
        "-preset"@,
        "fast"@,
        "-y"@,
        output,
    ]
}

/// The arguments of the run that fetches the video at `url` to `output`: as
/// MP4 of at most 720 lines where there is one, a single video, with the
/// browser's cookies.
pub open spec fn download_args(output: Seq<char>, url: Seq<char>) -> Seq<Seq<char>> {
    seq![
        "--cookies-from-browser"@,
        "firefox"@,
        "--format"@,
        "mp4[height<=720]/mp4/best[height<=720]/best"@,
        "--output"@,
        output,
        "--no-playlist"@,
        url,
    ]
}

/// The arguments of the run that describes the video at `url`.
pub open spec fn describe_args(url: Seq<char>) -> Seq<Seq<char>> {
    seq!["--cookies-from-browser"@, "firefox"@, "--dump-json"@, "--no-playlist"@, url]
}

/// The arguments of the run that describes the streams of the file `input`.
pub open spec fn probe_args(input: Seq<char>) -> Seq<Seq<char>> {
    seq!["-v"@, "quiet"@, "-print_format"@, "json"@, "-show_format"@, "-show_streams"@, input]
}

/// The filter that draws `caption`, centred above the lower edge, white with
/// a black shadow. `font` is the part that names a font file, or empty.
pub open spec fn drawtext(
    caption: Seq<char>,
    font: Seq<char>,
    font_size: u32,
    bottom_margin: u32,
    shadow_offset: u32,
) -> Seq<char> {
    "drawtext=text='"@ + caption + "'"@ + font + ":fontsize="@ + decimal(font_size as nat)
        + ":fontcolor=white:x=(w-text_w)/2:y=h-text_h-"@ + decimal(bottom_margin as nat)
        + ":shadowcolor=black:shadowx="@ + decimal(shadow_offset as nat) + ":shadowy="@ + decimal(
        shadow_offset as nat,
    ) + ":line_spacing=5"@
}

/// The whole filter for `accel`.
pub open spec fn caption_filter(
    accel: HwAccel,
    caption: Seq<char>,
    font_size: u32,
    bottom_margin: u32,
    shadow_offset: u32,
) -> Seq<char> {
    filter_prefix(accel) + drawtext(
        caption,
        ":fontfile=/usr/share/fonts/truetype/wintc/impact.ttf"@,
        font_size,
        bottom_margin,
        shadow_offset,
    ) + filter_suffix(accel)
}

/// The decimal digit for `digit`, which is below 10.
pub open spec fn digit_char(digit: nat) -> char {
    if digit == 0 {
        '0'
    } else if digit == 1 {
        '1'
    } else if digit == 2 {
        '2'
    } else if digit == 3 {
        '3'
    } else if digit == 4 {
        '4'
    } else if digit == 5 {
        '5'
    } else if digit == 6 {
        '6'
    } else if digit == 7 {
        '7'
    } else if digit == 8 {
        '8'
    } else {
        '9'
    }
}

/// `number` in decimal, without leading zeros.
pub open spec fn decimal(number: nat) -> Seq<char>
    decreases number,
{
    if number < 10 {
        seq![digit_char(number)]
    } else {
        decimal(number / 10).push(digit_char(number % 10))
    }
}

/// The name of the captioned copy of `original`, made at `timestamp`: the
/// marker and the timestamp go before the last `.` of the name, or at its end
/// where it has none.
pub open spec fn captioned_name(original: Seq<char>, timestamp: u64) -> Seq<char> {
    let dot = after_last_dot(original) - 1;
    if dot >= 0 {
        original.subrange(0, dot) + "_captioned_"@ + decimal(timestamp as nat) + original.subrange(
            dot,
            original.len() as int,
        )
    } else {
        original + "_captioned_"@ + decimal(timestamp as nat)
    }
}

/// Whether the caption filter reads `c` as syntax, so that it needs a `\`
/// before it.
pub open spec fn needs_escape(c: char) -> bool {
    c == '\\' || c == '\'' || c == ':' || c == '[' || c == ']' || c == ',' || c == ';'
}

/// `text` with a `\` before every character that needs one.
pub open spec fn escaped(text: Seq<char>) -> Seq<char>
    decreases text.len(),
{
    if text.len() == 0 {
        seq![]
    } else if needs_escape(text.last()) {
        escaped(text.drop_last()).push('\\').push(text.last())
    } else {
        escaped(text.drop_last()).push(text.last())
    }
}

/// The words of a text: its runs of characters between white space.
pub uninterp spec fn whitespace_words(text: Seq<char>) -> Seq<Seq<char>>;

/// `str::split_whitespace`, collected: the words of `text`, first to last.
/// Here the list is only given its name. Not proved here.
#[verifier::external_body]
fn words_of(text: &str) -> (words: Vec<String>)
    ensures
        texts_of(words@) == whitespace_words(text@),
{
    text.split_whitespace().map(|word| word.to_owned()).collect()
}

/// The texts of a list of strings.
pub open spec fn texts_of(list: Seq<String>) -> Seq<Seq<char>> {
    list.map_values(|text: String| text@)
}

/// The number of bytes that `text` takes in UTF-8.
pub open spec fn utf8_len(text: Seq<char>) -> nat {
    encode_utf8(text).len()
}

/// The state of line filling after `words`: the lines that are full, and the
/// line that is being filled. A word joins the current line, after a space,
/// while the line stays within `max_len` bytes; else the line is closed and
/// the word begins the next.
pub open spec fn filled(words: Seq<Seq<char>>, max_len: nat) -> (Seq<Seq<char>>, Seq<char>)
    decreases words.len(),
{
    if words.len() == 0 {
        (seq![], seq![])
    } else {
        let (lines, current) = filled(words.drop_last(), max_len);
        let word = words.last();
        let candidate = if current.len() == 0 {
            word
        } else {
            current + " "@ + word
        };
        if utf8_len(candidate) <= max_len {
            (lines, candidate)
        } else if current.len() > 0 {
            (lines.push(current), word)
        } else {
            (lines, word)
        }
    }
}

/// All lines that `words` fill.
pub open spec fn wrapped_lines(words: Seq<Seq<char>>, max_len: nat) -> Seq<Seq<char>> {
    let (lines, current) = filled(words, max_len);
    if current.len() > 0 {
        lines.push(current)
    } else {
        lines
    }
}

/// `lines` with a line feed between each two.
pub open spec fn joined_lines(lines: Seq<Seq<char>>) -> Seq<char>
    decreases lines.len(),
{
    if lines.len() == 0 {
        seq![]
    } else if lines.len() == 1 {
        lines[0]
    } else {
        joined_lines(lines.drop_last()) + "\n"@ + lines.last()
    }
}

/// `text`, whose words are `words`, wrapped to lines of at most `max_len`
/// bytes: unchanged where it fits in one line or `max_len` is 0.
pub open spec fn wrapped(text: Seq<char>, words: Seq<Seq<char>>, max_len: nat) -> Seq<char> {
    if max_len == 0 || utf8_len(text) <= max_len {
        text
    } else {
        joined_lines(wrapped_lines(words, max_len))
    }
}

fn digit_of(digit: u64) -> (c: char)
    requires
        digit < 10,
    ensures
        c == digit_char(digit as nat),
{
    if digit == 0 {
        '0'
    } else if digit == 1 {
        '1'
    } else if digit == 2 {
        '2'
    } else if digit == 3 {
        '3'
    } else if digit == 4 {
        '4'
    } else if digit == 5 {
        '5'
    } else if digit == 6 {
        '6'
    } else if digit == 7 {
        '7'
    } else if digit == 8 {
        '8'
    } else {
        '9'
    }
}

/// Appends `number` in decimal to `out`.
pub fn push_decimal(out: &mut Vec<char>, number: u64)
    ensures
        final(out)@ == old(out)@ + decimal(number as nat),
    decreases number,
{
    if number < 10 {
        out.push(digit_of(number));
        assert(out@ =~= old(out)@ + decimal(number as nat));
    } else {
        push_decimal(out, number / 10);
        out.push(digit_of(number % 10));
        assert(out@ =~= old(out)@ + decimal(number as nat));
    }
}

impl VideoProcessor {
    /// Whether `url` names a video on YouTube or TikTok.
    pub fn is_supported_video_url(url: &str) -> (supported: bool)
        ensures
            supported == supported_video_url(url@),
    {
        contains(url, "youtube.com/watch") || contains(url, "youtu.be/") || contains(
            url,
            "youtube.com/shorts/",
        ) || contains(url, "m.youtube.com/watch") || contains(url, "tiktok.com/@") || contains(
            url,
            "vm.tiktok.com/",
        ) || contains(url, "vt.tiktok.com/") || contains(url, "tiktok.com/t/") || contains(
            url,
            "m.tiktok.com/",
        )
    }

    /// The platform that `url` belongs to; YouTube where it names neither.
    pub fn detect_platform(url: &str) -> (platform: VideoPlatform)
        ensures
            platform == platform_of(url@),
    {
        if contains(url, "youtube.com") || contains(url, "youtu.be") {
            VideoPlatform::YouTube
        } else if contains(url, "tiktok.com") {
            VideoPlatform::TikTok
        } else {
            VideoPlatform::YouTube
        }
    }

    /// What to tell the user when fetching `url` failed with `error_msg`.
    pub fn get_user_friendly_error(error_msg: &str, url: &str) -> (message: String)
        ensures
            message@ == friendly_error(error_msg@, url@),
    {
        let platform = Self::detect_platform(url);
        if contains(error_msg, "Log in for access") || contains(error_msg, "cookies") {
            match platform {
                VideoPlatform::TikTok => "This TikTok video requires login to view (age-restricted or sensitive content). Please try a different public TikTok video.".to_owned(),
                VideoPlatform::YouTube => "This YouTube video requires authentication. Please try a different public video.".to_owned(),
            }
        } else if contains(error_msg, "not comfortable for some audiences") {
            "This video is age-restricted and cannot be downloaded. Please try a different video.".to_owned()
        } else if contains(error_msg, "Private video") || contains(error_msg, "Video unavailable") {
            "This video is private or unavailable. Please check the URL and try again.".to_owned()
        } else if contains(error_msg, "Video too long") {
            "Video is too long (maximum 10 minutes allowed).".to_owned()
        } else {
            match platform {
                VideoPlatform::TikTok => "Failed to download TikTok video. Make sure it's a public, non-restricted video and try again.".to_owned(),
                VideoPlatform::YouTube => "Failed to download YouTube video. Please check the URL and try again.".to_owned(),
            }
        }
    }

    /// `words` filled into lines of at most `max_chars_per_line` bytes, with
    /// a line feed between each two lines.
    pub fn wrap_words(words: &Vec<String>, max_chars_per_line: usize) -> (lines: String)
        ensures
            lines@ == joined_lines(wrapped_lines(texts_of(words@), max_chars_per_line as nat)),
    {
        let ghost max_len = max_chars_per_line as nat;
        let mut lines: Vec<String> = Vec::new();
        let mut current = String::new();
        let mut i: usize = 0;
        while i < words.len()
            invariant
                i <= words.len(),
                max_len == max_chars_per_line as nat,
                (texts_of(lines@), current@) == filled(
                    texts_of(words@).subrange(0, i as int),
                    max_len,
                ),
            decreases words.len() - i,
        {
            proof {
                let next = texts_of(words@).subrange(0, i + 1);
                assert(next.drop_last() =~= texts_of(words@).subrange(0, i as int));
                assert(next.last() == words@[i as int]@);
            }
            let word = words[i].as_str();
            let candidate = if current.as_str().is_empty() {
                word.to_owned()
            } else {
                joined(current.as_str(), " ", word)
            };
            if candidate.as_str().as_bytes().len() <= max_chars_per_line {
                current = candidate;
            } else {
                if !current.as_str().is_empty() {
                    let ghost before = texts_of(lines@);
                    lines.push(current);
                    assert(texts_of(lines@) =~= before.push(current@));
                }
                current = word.to_owned();
            }
            i += 1;
        }
        assert(texts_of(words@).subrange(0, words.len() as int) =~= texts_of(words@));
        if !current.as_str().is_empty() {
            let ghost before = texts_of(lines@);
            lines.push(current);
            assert(texts_of(lines@) =~= before.push(current@));
        }
        let mut out = String::new();
        let mut k: usize = 0;
        while k < lines.len()
            invariant
                k <= lines.len(),
                out@ == joined_lines(texts_of(lines@).subrange(0, k as int)),
            decreases lines.len() - k,
        {
            proof {
                let next = texts_of(lines@).subrange(0, k + 1);
                assert(next.drop_last() =~= texts_of(lines@).subrange(0, k as int));
                assert(next.last() == lines@[k as int]@);
                if k == 0 {
                    assert(next[0] == lines@[0]@);
                }
            }
            if k == 0 {
                out = lines[k].clone();
            } else {
                out = joined(out.as_str(), "\n", lines[k].as_str());
            }
            k += 1;
        }
        assert(texts_of(lines@).subrange(0, lines.len() as int) =~= texts_of(lines@));
        out
    }

    /// `text` wrapped to lines of at most `max_chars_per_line` bytes, broken
    /// only between words. A text that fits in one line, or a limit of 0,
    /// gives the text back unchanged.
    pub fn wrap_text(text: &str, max_chars_per_line: usize) -> (lines: String)
        ensures
            lines@ == wrapped(text@, whitespace_words(text@), max_chars_per_line as nat),
    {
        if max_chars_per_line == 0 || text.as_bytes().len() <= max_chars_per_line {
            return text.to_owned();
        }
        let words = words_of(text);
        Self::wrap_words(&words, max_chars_per_line)
    }

    /// Whether the video at `url` can be fetched with the tools at hand.
    pub fn check_fetchable(
        url: &str,
        downloader: bool,
        transcoder: bool,
        needs_transcoder: bool,
    ) -> (verdict: Result<(), FetchError>)
        ensures
            verdict == fetchable(url@, downloader, transcoder, needs_transcoder),
    {
        if !Self::is_supported_video_url(url) {
            Err(FetchError::UnsupportedUrl)
        } else if !downloader {
            Err(FetchError::NoDownloader)
        } else if needs_transcoder && !transcoder {
            Err(FetchError::NoTranscoder)
        } else {
            Ok(())
        }
    }

    /// How the caption is drawn: on an NVIDIA GPU where there is one, else
    /// through VAAPI where that works, else on the CPU.
    pub fn choose_accel(cuda: bool, vaapi: bool) -> (accel: HwAccel)
        ensures
            accel == (if cuda {
                HwAccel::Cuda
            } else if vaapi {
                HwAccel::Vaapi
            } else {
                HwAccel::Software
            }),
    {
        if cuda {
            HwAccel::Cuda
        } else if vaapi {
            HwAccel::Vaapi
        } else {
            HwAccel::Software
        }
    }

    /// The metadata in the description `document` of the video at `url`.
    pub fn metadata_from_json(document: &str, url: &str) -> (metadata: Option<VideoMetadata>)
        ensures
            metadata is Some == metadata_of(document@, url@) is Some,
            metadata is Some ==> metadata->0@ == metadata_of(document@, url@)->0,
    {
        let title = match json_text(document, "/title") {
            Some(found) => match found {
                Some(title) => title,
                None => "Unknown".to_owned(),
            },
            None => {
                return None;
            },
        };
        let duration: u64 = match json_u64(document, "/duration") {
            Some(found) => match found {
                Some(seconds) => seconds,
                None => 0,
            },
            None => {
                return None;
            },
        };
        let uploader = match json_text(document, "/uploader") {
            Some(found) => match found {
                Some(uploader) => uploader,
                None => "Unknown".to_owned(),
            },
            None => {
                return None;
            },
        };
        Some(VideoMetadata { title, duration, uploader, platform: Self::detect_platform(url) })
    }

    /// The picture size in the description `document`.
    pub fn video_info_from_json(document: &str) -> (info: Result<VideoInfo, ProbeError>)
        ensures
            info == probed(document@),
    {
        let count: usize = match json_array_len(document, "/streams") {
            None => {
                return Err(ProbeError::Malformed);
            },
            Some(found) => match found {
                None => {
                    return Err(ProbeError::NoStreams);
                },
                Some(count) => count,
            },
        };
        let mut i: usize = 0;
        while i < count
            invariant
                i <= count,
                json_valid(document@),
                json_array_len_at(document@, "/streams"@) == Some(count as nat),
                first_video_stream(document@, 0, count as nat) == first_video_stream(
                    document@,
                    i as nat,
                    count as nat,
                ),
            decreases count - i,
        {
            let codec_at = stream_field(i, "codec_type");
            let is_video = match json_text(document, codec_at.as_str()) {
                Some(found) => match found {
                    Some(codec) => same_text(codec.as_str(), "video"),
                    None => false,
                },
                None => false,
            };
            if is_video {
                let width_at = stream_field(i, "width");
                let height_at = stream_field(i, "height");
                let width = cut_to_u32(json_u64(document, width_at.as_str()), 1920);
                let height = cut_to_u32(json_u64(document, height_at.as_str()), 1080);
                return Ok(VideoInfo { width, height });
            }
            i += 1;
        }
        Ok(VideoInfo { width: 1920, height: 1080 })
    }

    /// What a failed fetch is reported as, given the tool's error stream.
    pub fn describe_download_failure(stderr: &str, what: &str) -> (message: String)
        ensures
            message@ == download_failure(stderr@, what@),
    {
        if contains(stderr, "Log in for access") || contains(stderr, "cookies") {
            "TikTok video requires authentication. This video may be age-restricted or private. Try a different public TikTok video.".to_owned()
        } else if contains(stderr, "not comfortable for some audiences") {
            "TikTok video is age-restricted and cannot be downloaded without authentication. Please try a different video.".to_owned()
        } else if contains(stderr, "Private video") || contains(stderr, "Video unavailable") {
            "Video is private or unavailable. Please check the URL and try again.".to_owned()
        } else {
            joined(what, ": ", stderr)
        }
    }

    /// Whether a caption is given and holds more than white space.
    pub fn has_caption(caption: Option<&str>) -> (given: bool)
        ensures
            given == caption_given(
                match caption {
                    Some(text) => Some(text@),
                    None => None,
                },
            ),
    {
        match caption {
            Some(text) => !trim(text).is_empty(),
            None => false,
        }
    }

    /// The name that a video fetched at `timestamp` is stored under.
    pub fn fetched_filename(timestamp: u64, captioned: bool) -> (name: String)
        ensures
            name@ == fetched_name(timestamp, captioned),
    {
        let ending = if captioned {
            "_captioned.mp4"
        } else {
            ".mp4"
        };
        stamped("video_", timestamp, ending)
    }

    /// The name of the captioned copy of a video fetched at `timestamp`.
    pub fn processed_filename(timestamp: u64) -> (name: String)
        ensures
            name@ == processed_name(timestamp),
    {
        stamped("video_", timestamp, "_captioned_final.mp4")
    }

    /// The name that a video fetched at `timestamp` has while it is fetched.
    pub fn temporary_filename(timestamp: u64) -> (name: String)
        ensures
            name@ == temporary_name(timestamp),
    {
        stamped("temp_video_", timestamp, ".mp4")
    }

    /// The distance of the caption from the lower edge: the font size and a
    /// padding of 20.
    pub fn bottom_margin(font_size: u32) -> (margin: u32)
        requires
            font_size <= u32::MAX - 20,
        ensures
            margin == font_size + 20,
    {
        font_size + 20
    }

    /// The encoder that goes with `accel`.
    pub fn video_codec(accel: HwAccel) -> (codec: &'static str)
        ensures
            codec@ == codec_name(accel),
    {
        match accel {
            HwAccel::Cuda => "h264_nvenc",
            HwAccel::Vaapi => "h264_vaapi",
            HwAccel::Software => "libx264",
        }
    }

    /// The arguments of the run that draws a caption.
    pub fn overlay_arguments(accel: HwAccel, input: &str, filter: &str, output: &str) -> (args: Vec<
        String,
    >)
        ensures
            texts_of(args@) == overlay_args(accel, input@, filter@, output@),
    {
        let mut args: Vec<String> = Vec::new();
        assert(texts_of(args@) =~= Seq::<Seq<char>>::empty());
        push_text(&mut args, "-i");
        push_text(&mut args, input);
        match accel {
            HwAccel::Cuda => {
                push_text(&mut args, "-hwaccel");
                push_text(&mut args, "cuda");
                push_text(&mut args, "-hwaccel_output_format");
                push_text(&mut args, "cuda");
            },
            HwAccel::Vaapi => {
                push_text(&mut args, "-vaapi_device");
                push_text(&mut args, "/dev/dri/renderD128");
                push_text(&mut args, "-hwaccel");
                push_text(&mut args, "vaapi");
                push_text(&mut args, "-hwaccel_output_format");
                push_text(&mut args, "vaapi");
            },
            HwAccel::Software => {},
        }
        push_text(&mut args, "-vf");
        push_text(&mut args, filter);
        push_text(&mut args, "-c:a");
        push_text(&mut args, "copy");
        push_text(&mut args, "-c:v");
        push_text(&mut args, Self::video_codec(accel));
        push_text(&mut args, "-preset");
        push_text(&mut args, "fast");
        push_text(&mut args, "-y");
        push_text(&mut args, output);
        assert(texts_of(args@) =~= overlay_args(accel, input@, filter@, output@));
        args
    }

    /// The arguments of the run that fetches the video at `url` to `output`.
    pub fn download_arguments(output: &str, url: &str) -> (args: Vec<String>)
        ensures
            texts_of(args@) == download_args(output@, url@),
    {
        let mut args: Vec<String> = Vec::new();
        assert(texts_of(args@) =~= Seq::<Seq<char>>::empty());
        push_text(&mut args, "--cookies-from-browser");
        push_text(&mut args, "firefox");
        push_text(&mut args, "--format");
        push_text(&mut args, "mp4[height<=720]/mp4/best[height<=720]/best");
        push_text(&mut args, "--output");
        push_text(&mut args, output);
        push_text(&mut args, "--no-playlist");
        push_text(&mut args, url);
        assert(texts_of(args@) =~= download_args(output@, url@));
        args
    }

    /// The arguments of the run that describes the video at `url`.
    pub fn describe_arguments(url: &str) -> (args: Vec<String>)
        ensures
            texts_of(args@) == describe_args(url@),
    {
        let mut args: Vec<String> = Vec::new();
        assert(texts_of(args@) =~= Seq::<Seq<char>>::empty());
        push_text(&mut args, "--cookies-from-browser");
        push_text(&mut args, "firefox");
        push_text(&mut args, "--dump-json");
        push_text(&mut args, "--no-playlist");
        push_text(&mut args, url);
        assert(texts_of(args@) =~= describe_args(url@));
        args
    }

    /// The arguments of the run that describes the streams of `input`.
    pub fn probe_arguments(input: &str) -> (args: Vec<String>)
        ensures
            texts_of(args@) == probe_args(input@),
    {
        let mut args: Vec<String> = Vec::new();
        assert(texts_of(args@) =~= Seq::<Seq<char>>::empty());
        push_text(&mut args, "-v");
        push_text(&mut args, "quiet");
        push_text(&mut args, "-print_format");
        push_text(&mut args, "json");
        push_text(&mut args, "-show_format");
        push_text(&mut args, "-show_streams");
        push_text(&mut args, input);
        assert(texts_of(args@) =~= probe_args(input@));
        args
    }

    /// The filter that draws `caption` with the preferred font, for `accel`.
    pub fn caption_filter_for(
        accel: HwAccel,
        caption: &str,
        font_size: u32,
        bottom_margin: u32,
        shadow_offset: u32,
    ) -> (filter: String)
        ensures
            filter@ == caption_filter(accel, caption@, font_size, bottom_margin, shadow_offset),
    {
        let (prefix, suffix) = match accel {
            HwAccel::Cuda => ("hwupload_cuda,", ",hwdownload"),
            HwAccel::Vaapi => ("hwupload,", ""),
            HwAccel::Software => ("", ""),
        };
        let drawn = draw_caption(
            caption,
            ":fontfile=/usr/share/fonts/truetype/wintc/impact.ttf",
            font_size,
            bottom_margin,
            shadow_offset,
        );
        joined(prefix, drawn.as_str(), suffix)
    }

    /// The filter that draws `caption` with whatever font the system has, on
    /// the CPU: what is tried where the preferred filter fails.
    pub fn fallback_filter(
        caption: &str,
        font_size: u32,
        bottom_margin: u32,
        shadow_offset: u32,
    ) -> (filter: String)
        ensures
            filter@ == drawtext(caption@, ""@, font_size, bottom_margin, shadow_offset),
    {
        draw_caption(caption, "", font_size, bottom_margin, shadow_offset)
    }

    /// The name of the captioned copy of `original_filename`, made `timestamp`
    /// seconds after the epoch.
    pub fn output_filename_at(original_filename: &str, timestamp: u64) -> (name: String)
        ensures
            name@ == captioned_name(original_filename@, timestamp),
    {
        let original = chars_of(original_filename);
        let marker = chars_of("_captioned_");
        let after_dot: usize = find_after_last_dot(&original);
        let mut name: Vec<char> = Vec::new();
        if after_dot > 0 {
            let stem = slice_chars(&original, 0, after_dot - 1);
            let ending = slice_chars(&original, after_dot - 1, original.len());
            extend_chars(&mut name, &stem);
            extend_chars(&mut name, &marker);
            push_decimal(&mut name, timestamp);
            extend_chars(&mut name, &ending);
        } else {
            extend_chars(&mut name, &original);
            extend_chars(&mut name, &marker);
            push_decimal(&mut name, timestamp);
        }
        assert(name@ =~= captioned_name(original_filename@, timestamp));
        string_of(&name)
    }

    /// A name for the captioned copy of `original_filename`, stamped with the
    /// clock's present reading in whole seconds.
    pub fn generate_output_filename(original_filename: &str) -> (name: String)
        ensures
            exists|timestamp: u64| name@ == #[trigger] captioned_name(original_filename@, timestamp),
    {
        let now = Timestamp::now();
        Self::output_filename_at(original_filename, now.secs)
    }
}

/// The pointer to `field` of the stream at `index`.
fn stream_field(index: usize, field: &str) -> (pointer: String)
    ensures
        pointer@ == stream_pointer(index as nat, field@),
{
    let mut out = chars_of("/streams/");
    push_decimal(&mut out, index as u64);
    extend_chars(&mut out, &chars_of("/"));
    extend_chars(&mut out, &chars_of(field));
    string_of(&out)
}

/// A number that was looked up, cut to 32 bits; `fallback` where none was
/// found.
fn cut_to_u32(found: Option<Option<u64>>, fallback: u32) -> (cut: u32)
    ensures
        cut == (match found {
            Some(Some(number)) => (number % 0x1_0000_0000) as u32,
            _ => fallback,
        }),
{
    match found {
        Some(inner) => match inner {
            Some(number) => (number % 0x1_0000_0000) as u32,
            None => fallback,
        },
        None => fallback,
    }
}

/// Appends `text` to `list`.
fn push_text(list: &mut Vec<String>, text: &str)
    ensures
        texts_of(final(list)@) == texts_of(old(list)@).push(text@),
{
    list.push(text.to_owned());
    assert(texts_of(list@) =~= texts_of(old(list)@).push(text@));
}

/// `prefix`, `number` in decimal and `suffix` in a row.
fn stamped(prefix: &str, number: u64, suffix: &str) -> (name: String)
    ensures
        name@ == prefix@ + decimal(number as nat) + suffix@,
{
    let mut out = chars_of(prefix);
    push_decimal(&mut out, number);
    extend_chars(&mut out, &chars_of(suffix));
    string_of(&out)
}

/// The drawing filter for `caption`; `font` names a font file, or is empty.
fn draw_caption(
    caption: &str,
    font: &str,
    font_size: u32,
    bottom_margin: u32,
    shadow_offset: u32,
) -> (filter: String)
    ensures
        filter@ == drawtext(caption@, font@, font_size, bottom_margin, shadow_offset),
{
    let mut out = chars_of("drawtext=text='");
    extend_chars(&mut out, &chars_of(caption));
    extend_chars(&mut out, &chars_of("'"));
    extend_chars(&mut out, &chars_of(font));
    extend_chars(&mut out, &chars_of(":fontsize="));
    push_decimal(&mut out, font_size as u64);
    extend_chars(&mut out, &chars_of(":fontcolor=white:x=(w-text_w)/2:y=h-text_h-"));
    push_decimal(&mut out, bottom_margin as u64);
    extend_chars(&mut out, &chars_of(":shadowcolor=black:shadowx="));
    push_decimal(&mut out, shadow_offset as u64);
    extend_chars(&mut out, &chars_of(":shadowy="));
    push_decimal(&mut out, shadow_offset as u64);
    extend_chars(&mut out, &chars_of(":line_spacing=5"));
    string_of(&out)
}

impl FetchError {
    /// The reason in words.
    pub fn message(&self) -> (text: String)
        ensures
            text@ == (match *self {
                FetchError::UnsupportedUrl => "Invalid video URL. Supported platforms: YouTube, TikTok"@,
                FetchError::NoDownloader => "yt-dlp is not available on the system"@,
                FetchError::NoTranscoder => "ffmpeg is not available on the system"@,
            }),
    {
        match self {
            FetchError::UnsupportedUrl => "Invalid video URL. Supported platforms: YouTube, TikTok".to_owned(),
            FetchError::NoDownloader => "yt-dlp is not available on the system".to_owned(),
            FetchError::NoTranscoder => "ffmpeg is not available on the system".to_owned(),
        }
    }
}

impl ProbeError {
    /// The reason in words.
    pub fn message(&self) -> (text: String)
        ensures
            text@ == (match *self {
                ProbeError::Malformed => "Failed to parse video information"@,
                ProbeError::NoStreams => "No streams found in video"@,
            }),
    {
        match self {
            ProbeError::Malformed => "Failed to parse video information".to_owned(),
            ProbeError::NoStreams => "No streams found in video".to_owned(),
        }
    }
}

/// `text` made safe for the caption filter: a `\` goes before each `\`, `'`,
/// `:`, `[`, `]`, `,` and `;`.
pub fn escape_ffmpeg_text(text: &str) -> (safe: String)
    ensures
        safe@ == escaped(text@),
{
    let chars = chars_of(text);
    let mut out: Vec<char> = Vec::new();
    let mut i: usize = 0;
    while i < chars.len()
        invariant
            i <= chars.len(),
            out@ == escaped(chars@.subrange(0, i as int)),
        decreases chars.len() - i,
    {
        let c: char = chars[i];
        proof {
            let next = chars@.subrange(0, i + 1);
            assert(next.drop_last() =~= chars@.subrange(0, i as int));
            assert(next.last() == c);
        }
        if c == '\\' || c == '\'' || c == ':' || c == '[' || c == ']' || c == ',' || c == ';' {
            out.push('\\');
        }
        out.push(c);
        i += 1;
    }
    assert(chars@.subrange(0, chars.len() as int) =~= chars@);
    string_of(&out)
}

} // verus!

use shared_display::video_processing::{
    escape_ffmpeg_text, FetchError, HwAccel, ProbeError, VideoInfo, VideoPlatform, VideoProcessor,
};

fn max_chars_per_line(video_width: u32, font_size: u32) -> usize {
    let char_width = (font_size as f32 * 0.6) as u32;
    ((video_width as f32 * 0.9) / char_width as f32) as usize
}

#[test]
fn test_escape_ffmpeg_text() {
    assert_eq!(escape_ffmpeg_text("Hello World"), "Hello World");
    assert_eq!(escape_ffmpeg_text("Hello: World"), "Hello\\: World");
    assert_eq!(escape_ffmpeg_text("Hello [World]"), "Hello \\[World\\]");
    assert_eq!(escape_ffmpeg_text("Hello, World; Test"), "Hello\\, World\\; Test");
}

#[test]
fn test_generate_output_filename() {
    let result = VideoProcessor::generate_output_filename("test.mp4");
    assert!(result.starts_with("test_captioned_"));
    assert!(result.ends_with(".mp4"));

    let result = VideoProcessor::generate_output_filename("video");
    assert!(result.starts_with("video_captioned_"));
}

#[test]
fn test_wrap_text() {
    // Short text should not be wrapped
    let result = VideoProcessor::wrap_text("Hello World", max_chars_per_line(1920, 50));
    assert_eq!(result, "Hello World");

    // Long text should be wrapped
    let long_text = "This is a very long caption that should be wrapped into multiple lines";
    let result = VideoProcessor::wrap_text(long_text, max_chars_per_line(360, 30));
    assert!(result.contains("\n"));

    // Empty text
    let result = VideoProcessor::wrap_text("", max_chars_per_line(1920, 50));
    assert_eq!(result, "");
}

#[test]
fn test_is_supported_video_url() {
    // YouTube URLs
    assert!(VideoProcessor::is_supported_video_url("https://www.youtube.com/watch?v=dQw4w9WgXcQ"));
    assert!(VideoProcessor::is_supported_video_url("https://youtu.be/dQw4w9WgXcQ"));
    assert!(VideoProcessor::is_supported_video_url("https://www.youtube.com/shorts/abc123"));
    assert!(VideoProcessor::is_supported_video_url("https://m.youtube.com/watch?v=dQw4w9WgXcQ"));

    // TikTok URLs
    assert!(VideoProcessor::is_supported_video_url("https://www.tiktok.com/@user/video/1234567890"));
    assert!(VideoProcessor::is_supported_video_url("https://vm.tiktok.com/abc123"));
    assert!(VideoProcessor::is_supported_video_url("https://vt.tiktok.com/abc123"));
    assert!(VideoProcessor::is_supported_video_url("https://tiktok.com/t/abc123"));
    assert!(VideoProcessor::is_supported_video_url("https://m.tiktok.com/@user/video/1234567890"));

    // Invalid URLs
    assert!(!VideoProcessor::is_supported_video_url("https://www.example.com"));
    assert!(!VideoProcessor::is_supported_video_url("https://www.instagram.com/p/abc123"));
    assert!(!VideoProcessor::is_supported_video_url(""));
}

#[test]
fn test_detect_platform() {
    // YouTube
    assert_eq!(
        VideoProcessor::detect_platform("https://www.youtube.com/watch?v=abc"),
        VideoPlatform::YouTube
    );
    assert_eq!(VideoProcessor::detect_platform("https://youtu.be/abc"), VideoPlatform::YouTube);

    // TikTok
    assert_eq!(
        VideoProcessor::detect_platform("https://www.tiktok.com/@user/video/123"),
        VideoPlatform::TikTok
    );
    assert_eq!(VideoProcessor::detect_platform("https://vm.tiktok.com/abc"), VideoPlatform::TikTok);

    // Default fallback
    assert_eq!(VideoProcessor::detect_platform("https://example.com"), VideoPlatform::YouTube);
}

#[test]
fn test_get_user_friendly_error() {
    let tiktok_url = "https://www.tiktok.com/@user/video/123";
    let youtube_url = "https://www.youtube.com/watch?v=abc";

    // Test TikTok authentication error
    let auth_error = "Log in for access. Use --cookies-from-browser";
    let result = VideoProcessor::get_user_friendly_error(auth_error, tiktok_url);
    assert!(result.contains("TikTok video requires login"));
    assert!(result.contains("age-restricted"));

    // Test age-restricted content
    let age_error = "not comfortable for some audiences";
    let result = VideoProcessor::get_user_friendly_error(age_error, tiktok_url);
    assert!(result.contains("age-restricted"));

    // Test private video
    let private_error = "Private video";
    let result = VideoProcessor::get_user_friendly_error(private_error, youtube_url);
    assert!(result.contains("private or unavailable"));

    // Test generic TikTok error
    let generic_error = "Some other error";
    let result = VideoProcessor::get_user_friendly_error(generic_error, tiktok_url);
    assert!(result.contains("TikTok video"));
    assert!(result.contains("public, non-restricted"));
}

#[test]
fn friendly_error_for_each_cause() {
    let youtube_url = "https://youtu.be/abc";
    assert_eq!(
        VideoProcessor::get_user_friendly_error("needs cookies", youtube_url),
        "This YouTube video requires authentication. Please try a different public video."
    );
    assert_eq!(
        VideoProcessor::get_user_friendly_error("Video unavailable", youtube_url),
        "This video is private or unavailable. Please check the URL and try again."
    );
    assert_eq!(
        VideoProcessor::get_user_friendly_error("Video too long", youtube_url),
        "Video is too long (maximum 10 minutes allowed)."
    );
    assert_eq!(
        VideoProcessor::get_user_friendly_error("boom", youtube_url),
        "Failed to download YouTube video. Please check the URL and try again."
    );
}

#[test]
fn output_filename_puts_the_stamp_before_the_last_dot() {
    assert_eq!(VideoProcessor::output_filename_at("test.mp4", 1700000000), "test_captioned_1700000000.mp4");
    assert_eq!(VideoProcessor::output_filename_at("a.b.mov", 7), "a.b_captioned_7.mov");
    assert_eq!(VideoProcessor::output_filename_at("video", 0), "video_captioned_0");
    assert_eq!(VideoProcessor::output_filename_at(".hidden", 42), "_captioned_42.hidden");
    assert_eq!(
        VideoProcessor::output_filename_at("x.", u64::MAX),
        "x_captioned_18446744073709551615."
    );
}

#[test]
fn escape_doubles_backslashes_and_escapes_quotes() {
    assert_eq!(escape_ffmpeg_text("a\\b"), "a\\\\b");
    assert_eq!(escape_ffmpeg_text("it's"), "it\\'s");
    assert_eq!(escape_ffmpeg_text("\\:"), "\\\\\\:");
    assert_eq!(escape_ffmpeg_text(""), "");
}

#[test]
fn wrap_fills_lines_greedily() {
    let text = "This is a very long caption that should be wrapped into multiple lines";
    assert_eq!(max_chars_per_line(360, 30), 18);
    assert_eq!(
        VideoProcessor::wrap_text(text, 18),
        "This is a very\nlong caption that\nshould be wrapped\ninto multiple\nlines"
    );
}

#[test]
fn wrap_leaves_a_long_word_on_a_line_of_its_own() {
    assert_eq!(VideoProcessor::wrap_text("aa bbbbbbbbbb cc", 4), "aa\nbbbbbbbbbb\ncc");
    assert_eq!(VideoProcessor::wrap_text("bbbbbbbbbb", 4), "bbbbbbbbbb");
}

#[test]
fn wrap_with_no_limit_or_enough_room_changes_nothing() {
    assert_eq!(VideoProcessor::wrap_text("a  b   c", 0), "a  b   c");
    assert_eq!(VideoProcessor::wrap_text("a  b   c", 8), "a  b   c");
    assert_eq!(VideoProcessor::wrap_text("a  b   c", 7), "a b c");
}

#[test]
fn wrap_words_joins_with_single_spaces() {
    let words = vec!["one".to_string(), "two".to_string(), "three".to_string()];
    assert_eq!(VideoProcessor::wrap_words(&words, 7), "one two\nthree");
    assert_eq!(VideoProcessor::wrap_words(&Vec::new(), 7), "");
}

#[test]
fn wrap_counts_bytes_not_characters() {
    assert_eq!(VideoProcessor::wrap_text("éé éé", 8), "éé\néé");
    assert_eq!(VideoProcessor::wrap_text("éé éé", 9), "éé éé");
}

#[test]
fn download_failures_in_words() {
    assert_eq!(
        VideoProcessor::describe_download_failure("ERROR: Log in for access", "Video download failed"),
        "TikTok video requires authentication. This video may be age-restricted or private. Try a different public TikTok video."
    );
    assert_eq!(
        VideoProcessor::describe_download_failure("use cookies", "x"),
        "TikTok video requires authentication. This video may be age-restricted or private. Try a different public TikTok video."
    );
    assert_eq!(
        VideoProcessor::describe_download_failure("not comfortable for some audiences", "x"),
        "TikTok video is age-restricted and cannot be downloaded without authentication. Please try a different video."
    );
    assert_eq!(
        VideoProcessor::describe_download_failure("Private video", "x"),
        "Video is private or unavailable. Please check the URL and try again."
    );
    assert_eq!(
        VideoProcessor::describe_download_failure("Video unavailable", "x"),
        "Video is private or unavailable. Please check the URL and try again."
    );
    assert_eq!(
        VideoProcessor::describe_download_failure("disk full", "Video download failed"),
        "Video download failed: disk full"
    );
    assert_eq!(
        VideoProcessor::describe_download_failure("", "Video info extraction failed"),
        "Video info extraction failed: "
    );
}

#[test]
fn fetched_files_are_named_by_their_timestamp() {
    assert_eq!(VideoProcessor::fetched_filename(17, false), "video_17.mp4");
    assert_eq!(VideoProcessor::fetched_filename(17, true), "video_17_captioned.mp4");
    assert_eq!(VideoProcessor::processed_filename(1700000000), "video_1700000000_captioned_final.mp4");
    assert_eq!(VideoProcessor::temporary_filename(0), "temp_video_0.mp4");
}

#[test]
fn a_caption_of_white_space_is_no_caption() {
    assert!(VideoProcessor::has_caption(Some("hi")));
    assert!(VideoProcessor::has_caption(Some("  hi  ")));
    assert!(!VideoProcessor::has_caption(Some("  \n\t ")));
    assert!(!VideoProcessor::has_caption(Some("")));
    assert!(!VideoProcessor::has_caption(None));
}

#[test]
fn caption_filters() {
    assert_eq!(VideoProcessor::bottom_margin(75), 95);
    assert_eq!(
        VideoProcessor::caption_filter_for(HwAccel::Software, "Hi", 75, 95, 3),
        "drawtext=text='Hi':fontfile=/usr/share/fonts/truetype/wintc/impact.ttf:fontsize=75:fontcolor=white:x=(w-text_w)/2:y=h-text_h-95:shadowcolor=black:shadowx=3:shadowy=3:line_spacing=5"
    );
    assert_eq!(
        VideoProcessor::caption_filter_for(HwAccel::Cuda, "Hi", 16, 36, 1),
        "hwupload_cuda,drawtext=text='Hi':fontfile=/usr/share/fonts/truetype/wintc/impact.ttf:fontsize=16:fontcolor=white:x=(w-text_w)/2:y=h-text_h-36:shadowcolor=black:shadowx=1:shadowy=1:line_spacing=5,hwdownload"
    );
    assert_eq!(
        VideoProcessor::caption_filter_for(HwAccel::Vaapi, "", 120, 140, 4),
        "hwupload,drawtext=text='':fontfile=/usr/share/fonts/truetype/wintc/impact.ttf:fontsize=120:fontcolor=white:x=(w-text_w)/2:y=h-text_h-140:shadowcolor=black:shadowx=4:shadowy=4:line_spacing=5"
    );
    assert_eq!(
        VideoProcessor::fallback_filter("Hi", 75, 95, 3),
        "drawtext=text='Hi':fontsize=75:fontcolor=white:x=(w-text_w)/2:y=h-text_h-95:shadowcolor=black:shadowx=3:shadowy=3:line_spacing=5"
    );
    assert_eq!(VideoProcessor::video_codec(HwAccel::Cuda), "h264_nvenc");
    assert_eq!(VideoProcessor::video_codec(HwAccel::Vaapi), "h264_vaapi");
    assert_eq!(VideoProcessor::video_codec(HwAccel::Software), "libx264");
}

#[test]
fn command_arguments() {
    assert_eq!(
        VideoProcessor::overlay_arguments(HwAccel::Software, "in.mp4", "F", "out.mp4"),
        vec!["-i", "in.mp4", "-vf", "F", "-c:a", "copy", "-c:v", "libx264", "-preset", "fast", "-y", "out.mp4"]
    );
    assert_eq!(
        VideoProcessor::overlay_arguments(HwAccel::Cuda, "in.mp4", "F", "out.mp4"),
        vec![
            "-i", "in.mp4", "-hwaccel", "cuda", "-hwaccel_output_format", "cuda", "-vf", "F",
            "-c:a", "copy", "-c:v", "h264_nvenc", "-preset", "fast", "-y", "out.mp4"
        ]
    );
    assert_eq!(
        VideoProcessor::overlay_arguments(HwAccel::Vaapi, "in.mp4", "F", "out.mp4"),
        vec![
            "-i", "in.mp4", "-vaapi_device", "/dev/dri/renderD128", "-hwaccel", "vaapi",
            "-hwaccel_output_format", "vaapi", "-vf", "F", "-c:a", "copy", "-c:v", "h264_vaapi",
            "-preset", "fast", "-y", "out.mp4"
        ]
    );
    assert_eq!(
        VideoProcessor::download_arguments("uploads/video_1.mp4", "https://youtu.be/x"),
        vec![
            "--cookies-from-browser", "firefox", "--format",
            "mp4[height<=720]/mp4/best[height<=720]/best", "--output", "uploads/video_1.mp4",
            "--no-playlist", "https://youtu.be/x"
        ]
    );
    assert_eq!(
        VideoProcessor::describe_arguments("https://youtu.be/x"),
        vec!["--cookies-from-browser", "firefox", "--dump-json", "--no-playlist", "https://youtu.be/x"]
    );
    assert_eq!(
        VideoProcessor::probe_arguments("in.mp4"),
        vec!["-v", "quiet", "-print_format", "json", "-show_format", "-show_streams", "in.mp4"]
    );
}

#[test]
fn metadata_is_read_from_the_description() {
    let document = "{\"title\":\"Cats\",\"duration\":42,\"uploader\":\"me\",\"x\":[1]}";
    let metadata = VideoProcessor::metadata_from_json(document, "https://vm.tiktok.com/a").unwrap();
    assert_eq!(metadata.title, "Cats");
    assert_eq!(metadata.duration, 42);
    assert_eq!(metadata.uploader, "me");
    assert_eq!(metadata.platform, VideoPlatform::TikTok);
}

#[test]
fn missing_metadata_gets_defaults() {
    let metadata = VideoProcessor::metadata_from_json("{\"duration\":12.5,\"title\":7}", "https://youtu.be/a").unwrap();
    assert_eq!(metadata.title, "Unknown");
    assert_eq!(metadata.duration, 0);
    assert_eq!(metadata.uploader, "Unknown");
    assert_eq!(metadata.platform, VideoPlatform::YouTube);
    let metadata = VideoProcessor::metadata_from_json("[]", "").unwrap();
    assert_eq!(metadata.title, "Unknown");
    assert!(VideoProcessor::metadata_from_json("{not json", "").is_none());
    assert!(VideoProcessor::metadata_from_json("", "").is_none());
}

#[test]
fn picture_size_is_that_of_the_first_video_stream() {
    let document = "{\"streams\":[{\"codec_type\":\"audio\",\"width\":1},{\"codec_type\":\"video\",\"width\":640,\"height\":360},{\"codec_type\":\"video\",\"width\":1,\"height\":2}]}";
    assert_eq!(VideoProcessor::video_info_from_json(document), Ok(VideoInfo { width: 640, height: 360 }));
    let partial = "{\"streams\":[{\"codec_type\":\"video\",\"height\":4294967297}]}";
    assert_eq!(VideoProcessor::video_info_from_json(partial), Ok(VideoInfo { width: 1920, height: 1 }));
    let no_video = "{\"streams\":[{\"codec_type\":\"audio\"}]}";
    assert_eq!(VideoProcessor::video_info_from_json(no_video), Ok(VideoInfo { width: 1920, height: 1080 }));
    assert_eq!(VideoProcessor::video_info_from_json("{\"streams\":[]}"), Ok(VideoInfo { width: 1920, height: 1080 }));
    assert_eq!(VideoProcessor::video_info_from_json("{\"streams\":{}}"), Err(ProbeError::NoStreams));
    assert_eq!(VideoProcessor::video_info_from_json("{}"), Err(ProbeError::NoStreams));
    assert_eq!(VideoProcessor::video_info_from_json("nope"), Err(ProbeError::Malformed));
}

#[test]
fn a_fetch_is_refused_for_the_first_thing_that_is_missing() {
    let url = "https://youtu.be/x";
    assert_eq!(VideoProcessor::check_fetchable(url, true, true, true), Ok(()));
    assert_eq!(VideoProcessor::check_fetchable(url, true, false, false), Ok(()));
    assert_eq!(
        VideoProcessor::check_fetchable("https://example.com", false, false, true),
        Err(FetchError::UnsupportedUrl)
    );
    assert_eq!(
        VideoProcessor::check_fetchable(url, false, false, true),
        Err(FetchError::NoDownloader)
    );
    assert_eq!(
        VideoProcessor::check_fetchable(url, true, false, true),
        Err(FetchError::NoTranscoder)
    );
    assert_eq!(
        FetchError::UnsupportedUrl.message(),
        "Invalid video URL. Supported platforms: YouTube, TikTok"
    );
    assert_eq!(FetchError::NoDownloader.message(), "yt-dlp is not available on the system");
    assert_eq!(FetchError::NoTranscoder.message(), "ffmpeg is not available on the system");
    assert_eq!(ProbeError::Malformed.message(), "Failed to parse video information");
    assert_eq!(ProbeError::NoStreams.message(), "No streams found in video");
}

#[test]
fn the_gpu_is_preferred_for_drawing() {
    assert_eq!(VideoProcessor::choose_accel(true, true), HwAccel::Cuda);
    assert_eq!(VideoProcessor::choose_accel(true, false), HwAccel::Cuda);
    assert_eq!(VideoProcessor::choose_accel(false, true), HwAccel::Vaapi);
    assert_eq!(VideoProcessor::choose_accel(false, false), HwAccel::Software);
}

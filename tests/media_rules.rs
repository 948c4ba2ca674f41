use obsidian_ai_agent::media::{
    detect_mime, mime_matches_media_type, sanitize_file_name, size_within_limit, MAX_FILE_BYTES,
};
use obsidian_ai_agent::infer_media_type;

const PNG_HEADER: [u8; 8] = [0x89, 0x50, 0x4E, 0x47, 0x0D, 0x0A, 0x1A, 0x0A];
const MP3_HEADER: [u8; 10] = [0x49, 0x44, 0x33, 0x04, 0x00, 0x00, 0x00, 0x00, 0x00, 0x00];

#[test]
fn media_type_follows_extension() {
    assert_eq!(infer_media_type("/a/song.mp3"), "audio");
    assert_eq!(infer_media_type("/a/voice.WAV"), "audio");
    assert_eq!(infer_media_type("memo.m4a"), "audio");
    assert_eq!(infer_media_type("clip.Mp4"), "video");
    assert_eq!(infer_media_type("photo.jpg"), "image");
    assert_eq!(infer_media_type("photo.JPEG"), "image");
    assert_eq!(infer_media_type("shot.png"), "image");
    assert_eq!(infer_media_type("shot.heif"), "image");
    assert_eq!(infer_media_type("notes.txt"), "unknown");
    assert_eq!(infer_media_type("mp3"), "unknown");
    assert_eq!(infer_media_type(""), "unknown");
}

#[test]
fn mime_check_accepts_generic_and_matching_family() {
    assert!(mime_matches_media_type("image", "application/octet-stream"));
    assert!(mime_matches_media_type("unknown", "application/octet-stream"));
    assert!(mime_matches_media_type("audio", "audio/mpeg"));
    assert!(mime_matches_media_type("video", "video/mp4"));
    assert!(mime_matches_media_type("image", "image/png"));
    assert!(!mime_matches_media_type("image", "audio/mpeg"));
    assert!(!mime_matches_media_type("audio", "video/mp4"));
    assert!(!mime_matches_media_type("unknown", "image/png"));
    assert!(!mime_matches_media_type("image", "imagex/png"));
}

#[test]
fn sniffing_reads_signatures() {
    assert_eq!(detect_mime(&PNG_HEADER), "image/png");
    assert_eq!(detect_mime(&MP3_HEADER), "audio/mpeg");
    assert_eq!(detect_mime(&[0xFF, 0xD8, 0xFF, 0xE0]), "image/jpeg");
}

#[test]
fn sniffing_without_signature_is_generic() {
    assert_eq!(detect_mime(b"plain words, no magic"), "application/octet-stream");
    assert_eq!(detect_mime(&[]), "application/octet-stream");
}

#[test]
fn file_names_are_sanitized() {
    assert_eq!(sanitize_file_name("My Photo (1).jpg"), "My_Photo__1_.jpg");
    assert_eq!(sanitize_file_name("a-b_c.d"), "a-b_c.d");
    assert_eq!(sanitize_file_name("été.png"), "_t_.png");
    assert_eq!(sanitize_file_name(""), "");
}

#[test]
fn size_limit_boundary() {
    assert_eq!(MAX_FILE_BYTES, 2 * 1024 * 1024 * 1024);
    assert!(size_within_limit(0));
    assert!(size_within_limit(2 * 1024 * 1024 * 1024));
    assert!(!size_within_limit(2 * 1024 * 1024 * 1024 + 1));
}

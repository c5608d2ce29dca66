use subtitle_renamer::utils::{classify, get_extension, is_subtitle_file, is_video_file, FileKind};

#[test]
fn extension_is_lower_cased() {
    assert_eq!(get_extension("A.MKV"), "mkv");
    assert_eq!(get_extension("a.mkv"), "mkv");
    assert_eq!(get_extension("Show.S01E05.Srt"), "srt");
}

#[test]
fn extension_is_what_follows_the_last_dot() {
    assert_eq!(get_extension("archive.tar.gz"), "gz");
    assert_eq!(get_extension("noext"), "");
    assert_eq!(get_extension("trailing."), "");
    assert_eq!(get_extension(""), "");
    assert_eq!(get_extension(".mkv"), "mkv");
}

#[test]
fn extension_beyond_ascii_is_lower_cased_too() {
    assert_eq!(get_extension("x.\u{c4}B"), "\u{e4}b");
}

#[test]
fn case_does_not_change_the_kind() {
    assert_eq!(classify("A.MKV"), FileKind::Video);
    assert_eq!(classify("a.mkv"), FileKind::Video);
    assert_eq!(classify("A.Srt"), classify("a.srt"));
}

#[test]
fn every_video_extension_is_a_video() {
    for ext in [
        "mp4", "mkv", "avi", "mov", "wmv", "flv", "webm", "m4v", "mpeg", "mpg", "ts", "mts",
        "m2ts",
    ] {
        let name = format!("episode.{}", ext);
        assert!(is_video_file(&name));
        assert!(!is_subtitle_file(&name));
        assert_eq!(classify(&name), FileKind::Video);
    }
}

#[test]
fn every_subtitle_extension_is_a_subtitle() {
    for ext in ["srt", "ass", "ssa", "sub", "idx", "vtt", "txt"] {
        let name = format!("episode.{}", ext);
        assert!(is_subtitle_file(&name));
        assert!(!is_video_file(&name));
        assert_eq!(classify(&name), FileKind::Subtitle);
    }
}

#[test]
fn picker_only_extensions_are_other() {
    for name in ["a.rmvb", "a.3gp", "a.smi", "a.sbv", "a.dfxp", "a.png", "a", ""] {
        assert_eq!(classify(name), FileKind::Other);
        assert!(!is_video_file(name));
        assert!(!is_subtitle_file(name));
    }
}

use subtitle_renamer::executor::{start, RenameAction};
use subtitle_renamer::files::{directory_result, media_info, media_infos, video_info, video_infos};
use subtitle_renamer::json::parse_json;
use subtitle_renamer::settings::{
    choose_source, decode_settings, default_settings, parse_settings, SettingsSource,
};
use subtitle_renamer::types::{FileInfo, RenameRequest, Settings};

#[test]
fn defaults() {
    let s = default_settings();
    assert_eq!(s.episode_regex, "\\[(\\d{2})\\]");
    assert_eq!(s.model_url, "http://localhost:11434/v1/chat/completions");
    assert_eq!(s.model_name, "qwen/qwen3-vl-8b");
}

#[test]
fn canonical_file_comes_first() {
    assert_eq!(choose_source(true, true), SettingsSource::Canonical);
    assert_eq!(choose_source(true, false), SettingsSource::Canonical);
    assert_eq!(choose_source(false, true), SettingsSource::Legacy);
    assert_eq!(choose_source(false, false), SettingsSource::Defaults);
}

#[test]
fn settings_are_read_from_json() {
    let text = "{\n  \"episode_regex\": \"E(\\\\d+)\",\n  \"model_url\": \"http://x\",\n  \"model_name\": \"m\",\n  \"extra\": 1\n}";
    assert_eq!(
        parse_settings(text),
        Some(Settings {
            episode_regex: "E(\\d+)".to_string(),
            model_url: "http://x".to_string(),
            model_name: "m".to_string(),
        })
    );
    assert_eq!(parse_settings("{\"episode_regex\": \"a\", \"model_url\": \"b\"}"), None);
    assert_eq!(parse_settings("{\"episode_regex\": 1, \"model_url\": \"b\", \"model_name\": \"c\"}"), None);
    assert_eq!(parse_settings("not json"), None);
    assert_eq!(decode_settings(&parse_json("[]").unwrap()), None);
}

fn found(names: &[&str]) -> Vec<(String, String)> {
    names.iter().map(|n| (n.to_string(), format!("/d/{}", n))).collect()
}

#[test]
fn media_are_videos_and_subtitles() {
    assert_eq!(
        media_info("a.MKV", "/d/a.MKV"),
        Some(FileInfo { name: "a.MKV".to_string(), path: "/d/a.MKV".to_string(), is_video: true })
    );
    assert_eq!(
        media_info("a.srt", "a.srt"),
        Some(FileInfo { name: "a.srt".to_string(), path: "a.srt".to_string(), is_video: false })
    );
    assert_eq!(media_info("a.png", "/d/a.png"), None);
    assert_eq!(video_info("a.srt", "/d/a.srt"), None);
    assert_eq!(
        video_info("a.ts", "/d/a.ts"),
        Some(FileInfo { name: "a.ts".to_string(), path: "/d/a.ts".to_string(), is_video: true })
    );
}

#[test]
fn records_keep_the_order_in_which_files_were_found() {
    let all = found(&["b.srt", "x.png", "a.mkv", "c", "d.Ass", "e.webm"]);
    let media = media_infos(&all);
    let names: Vec<&str> = media.iter().map(|f| f.name.as_str()).collect();
    assert_eq!(names, vec!["b.srt", "a.mkv", "d.Ass", "e.webm"]);
    let flags: Vec<bool> = media.iter().map(|f| f.is_video).collect();
    assert_eq!(flags, vec![false, true, false, true]);
    assert_eq!(media[1].path, "/d/a.mkv");
    let videos = video_infos(&all);
    let names: Vec<&str> = videos.iter().map(|f| f.name.as_str()).collect();
    assert_eq!(names, vec!["a.mkv", "e.webm"]);
    assert!(media_infos(&vec![]).is_empty());
}

#[test]
fn a_directory_gives_its_videos_or_was_not_picked() {
    let picked = directory_result(Some(found(&["a.mkv", "a.srt"])));
    assert!(!picked.canceled);
    assert_eq!(picked.files.len(), 1);
    assert_eq!(picked.files[0].name, "a.mkv");
    let none = directory_result(None);
    assert!(none.canceled);
    assert!(none.files.is_empty());
    let empty = directory_result(Some(vec![]));
    assert!(!empty.canceled);
    assert!(empty.files.is_empty());
}

fn file(name: &str, path: &str, is_video: bool) -> FileInfo {
    FileInfo { name: name.to_string(), path: path.to_string(), is_video }
}

#[test]
fn a_request_is_planned_before_it_is_carried_out() {
    let request = RenameRequest {
        video_files: vec![file("Anime.S01E05.mkv", "/v/Anime.S01E05.mkv", true)],
        subtitle_files: vec![file("Anime_ep5_cn.srt", "/tmp/Anime_ep5_cn.srt", false)],
        suffix: "chs".to_string(),
    };
    let state = start(&request, &vec![true]).unwrap();
    assert_eq!(
        state.pending(),
        RenameAction::Probe {
            source: "/tmp/Anime_ep5_cn.srt".to_string(),
            target_name: "Anime.S01E05.chs.srt".to_string(),
        }
    );
    let refused = start(&request, &vec![false]).err().unwrap();
    assert!(!refused.success);
    assert_eq!(refused.message, "字幕文件不存在: Anime_ep5_cn.srt");
    assert!(refused.renamed_files.is_empty());
}

#[test]
fn a_request_with_unequal_counts_is_refused() {
    let request = RenameRequest {
        video_files: vec![],
        subtitle_files: vec![file("a.srt", "/tmp/a.srt", false)],
        suffix: "".to_string(),
    };
    let refused = start(&request, &vec![]).err().unwrap();
    assert!(!refused.success);
    assert_eq!(refused.message, "视频文件数量(0)与字幕文件数量(1)不匹配");
    assert!(refused.renamed_files.is_empty());
}

//! The records that cross the crate's boundary.

use vstd::prelude::*;

verus! {

/// A file that was offered for pairing.
#[derive(Clone, Debug, PartialEq, Eq)]
pub struct FileInfo {
    /// The file's name, without any directory.
    pub name: String,
    /// Where the file lies. A bare name here marks a preview entry.
    pub path: String,
    /// Whether the name's extension is that of a video.
    pub is_video: bool,
}

/// Videos and subtitles to pair by position, and the suffix to put between
/// a video's stem and the subtitle's extension.
#[derive(Clone, Debug, PartialEq, Eq)]
pub struct RenameRequest {
    pub video_files: Vec<FileInfo>,
    pub subtitle_files: Vec<FileInfo>,
    pub suffix: String,
}

/// How a rename request ended.
#[derive(Clone, Debug, PartialEq, Eq)]
pub struct RenameResponse {
    pub success: bool,
    pub message: String,
    /// The new names of the subtitles handled so far, in plan order.
    pub renamed_files: Vec<String>,
}

/// One file name to analyse, and the model to ask.
#[derive(Clone, Debug, PartialEq, Eq)]
pub struct LLMRequest {
    pub filename: String,
    pub model_url: String,
    pub model_name: String,
}

/// The bit pattern of the float `1.0` in IEEE 754 binary64.
pub const CONFIDENCE_ONE: u64 = 0x3FF0_0000_0000_0000;

/// What a file name says about an episode.
#[derive(Clone, Debug, PartialEq, Eq)]
pub struct AnimeInfo {
    pub title: String,
    pub season: u32,
    pub episode: u32,
    pub special_type: Option<String>,
    pub resolution: String,
    pub codec: String,
    pub group: String,
    pub language_tags: Vec<String>,
    /// A float between `0.0` and `1.0`, held as its IEEE 754 binary64 bit
    /// pattern. On floats that are not negative the order of the patterns is
    /// the order of the floats, so the range is `0 ..= CONFIDENCE_ONE`.
    pub confidence: u64,
}

impl AnimeInfo {
    /// The confidence lies between `0.0` and `1.0`.
    pub open spec fn well_formed(&self) -> bool {
        self.confidence <= CONFIDENCE_ONE
    }
}

/// The answer to an analysis request.
#[derive(Clone, Debug, PartialEq, Eq)]
pub struct LLMResponse {
    pub success: bool,
    pub data: Option<AnimeInfo>,
    pub error: Option<String>,
}

/// One hit of a subject search.
#[derive(Clone, Debug, PartialEq, Eq)]
pub struct BangumiSubject {
    pub id: i64,
    pub name: String,
    pub name_cn: Option<String>,
    pub subject_type: Option<i32>,
    pub date: Option<String>,
}

/// The details of one subject.
#[derive(Clone, Debug, PartialEq, Eq)]
pub struct BangumiSubjectDetail {
    pub id: i64,
    pub name: String,
    pub name_cn: Option<String>,
    pub cover_url: Option<String>,
    pub episodes: Option<i32>,
    pub year: Option<i32>,
}

/// What the user configured.
#[derive(Clone, Debug, PartialEq, Eq)]
pub struct Settings {
    pub episode_regex: String,
    pub model_url: String,
    pub model_name: String,
}

/// The videos found in a directory that the user picked, or that the user
/// picked none.
#[derive(Clone, Debug, PartialEq, Eq)]
pub struct DirectoryPickResult {
    pub files: Vec<FileInfo>,
    pub canceled: bool,
}

} // verus!

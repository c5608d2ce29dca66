//! Pairing subtitles with videos by position, and renaming the subtitles.
//!
//! The planner is a function of its arguments. The executor decides what to
//! do next and what each answer of the file system means; the caller touches
//! the disk.

use vstd::prelude::*;
use crate::text::{
    append_chars, contains_char, find_last, has_char, last_index_of, slice_chars, to_chars,
    to_text,
};
use crate::types::FileInfo;
use crate::utils::{extension_of, get_extension};

verus! {

/// Whether `path` names a place on disk: it holds a separator. A path
/// without one is a bare name, and its entry is only previewed.
pub open spec fn is_full_path(path: Seq<char>) -> bool {
    has_char(path, '/') || has_char(path, '\\')
}

/// `name` without its last extension. A name without a `.`, or with its only
/// `.` in front, is its own stem.
pub open spec fn stem_of(name: Seq<char>) -> Seq<char> {
    match last_index_of(name, '.') {
        Some(dot) => if dot > 0 {
            name.take(dot)
        } else {
            name
        },
        None => name,
    }
}

/// The name that a subtitle gets: the video's stem, then `.` and the suffix
/// where there is one, then `.` and the subtitle's extension.
pub open spec fn target_name_of(video: Seq<char>, suffix: Seq<char>, subtitle: Seq<char>) -> Seq<
    char,
> {
    if suffix.len() == 0 {
        stem_of(video) + seq!['.'] + extension_of(subtitle)
    } else {
        stem_of(video) + seq!['.'] + suffix + seq!['.'] + extension_of(subtitle)
    }
}

/// Whether `path` names a place on disk.
pub fn has_separator(path: &str) -> (r: bool)
    ensures
        r == is_full_path(path@),
{
    let chars = to_chars(path);
    contains_char(chars.as_slice(), '/') || contains_char(chars.as_slice(), '\\')
}

/// `name` without its last extension.
pub fn file_stem(name: &str) -> (stem: String)
    ensures
        stem@ == stem_of(name@),
{
    let chars = to_chars(name);
    match find_last(chars.as_slice(), '.') {
        Some(dot) => {
            if dot > 0 {
                let front = slice_chars(chars.as_slice(), 0, dot);
                assert(front@ =~= name@.take(dot as int));
                to_text(front.as_slice())
            } else {
                to_text(chars.as_slice())
            }
        },
        None => to_text(chars.as_slice()),
    }
}

/// The name that the subtitle called `subtitle` gets beside the video called
/// `video`.
pub fn target_name(video: &str, suffix: &str, subtitle: &str) -> (name: String)
    ensures
        name@ == target_name_of(video@, suffix@, subtitle@),
{
    let stem = file_stem(video);
    let mut out = to_chars(stem.as_str());
    let tail = to_chars(suffix);
    if tail.len() > 0 {
        out.push('.');
        append_chars(&mut out, tail.as_slice());
    }
    out.push('.');
    let ext = get_extension(subtitle);
    let ext_chars = to_chars(ext.as_str());
    append_chars(&mut out, ext_chars.as_slice());
    assert(out@ =~= target_name_of(video@, suffix@, subtitle@));
    to_text(out.as_slice())
}

/// Why a rename request was turned down or broken off.
#[derive(Clone, Debug, PartialEq, Eq)]
pub enum PlanError {
    /// The numbers of videos and of subtitles, which differ.
    CountMismatch(usize, usize),
    /// The name of a subtitle whose path leads nowhere.
    SourceMissing(String),
    /// The new name of a subtitle, which some file already bears.
    TargetExists(String),
    /// The name of a subtitle that could not be renamed, and why.
    FilesystemError(String, String),
}

/// One subtitle, the video it goes with, and the name it is to get.
#[derive(Clone, Debug, PartialEq, Eq)]
pub struct RenamePlanEntry {
    pub video: FileInfo,
    pub subtitle: FileInfo,
    pub target_name: String,
}

/// Whether subtitle `i` has a full path at which nothing was found. An
/// answer that `on_disk` lacks counts as nothing found; for a bare name no
/// answer is read.
pub open spec fn missing_at(subtitles: Seq<FileInfo>, on_disk: Seq<bool>, i: int) -> bool {
    is_full_path(subtitles[i].path@) && !(i < on_disk.len() && on_disk[i])
}

/// The first subtitle at or behind `from` that is missing.
pub open spec fn first_missing(subtitles: Seq<FileInfo>, on_disk: Seq<bool>, from: int) -> Option<
    int,
>
    decreases subtitles.len() - from,
{
    if from < 0 || from >= subtitles.len() {
        None
    } else if missing_at(subtitles, on_disk, from) {
        Some(from)
    } else {
        first_missing(subtitles, on_disk, from + 1)
    }
}

/// Whether `entry` pairs `video` with `subtitle` under the name that
/// `suffix` gives.
pub open spec fn pairs(
    entry: RenamePlanEntry,
    video: FileInfo,
    subtitle: FileInfo,
    suffix: Seq<char>,
) -> bool {
    &&& entry.video == video
    &&& entry.subtitle == subtitle
    &&& entry.target_name@ == target_name_of(video.name@, suffix, subtitle.name@)
}

/// A copy of `file`.
pub fn duplicate(file: &FileInfo) -> (copy: FileInfo)
    ensures
        copy == *file,
{
    FileInfo { name: file.name.clone(), path: file.path.clone(), is_video: file.is_video }
}

/// Pairs video `i` with subtitle `i` and names each subtitle after its video.
///
/// `on_disk[i]` says whether something was found at the path of subtitle
/// `i`. The counts are compared before any answer is read, and a plan comes
/// back whole or not at all.
pub fn plan(
    videos: &Vec<FileInfo>,
    subtitles: &Vec<FileInfo>,
    suffix: &str,
    on_disk: &Vec<bool>,
) -> (r: Result<Vec<RenamePlanEntry>, PlanError>)
    ensures
        match r {
            Ok(entries) => {
                &&& videos.len() == subtitles.len()
                &&& first_missing(subtitles@, on_disk@, 0) is None
                &&& entries.len() == videos.len()
                &&& forall|i: int|
                    0 <= i < entries.len() ==> pairs(
                        #[trigger] entries[i],
                        videos[i],
                        subtitles[i],
                        suffix@,
                    )
            },
            Err(PlanError::CountMismatch(v, s)) => {
                &&& videos.len() != subtitles.len()
                &&& v == videos.len()
                &&& s == subtitles.len()
            },
            Err(PlanError::SourceMissing(name)) => {
                &&& videos.len() == subtitles.len()
                &&& first_missing(subtitles@, on_disk@, 0) matches Some(i)
                &&& name == subtitles[i].name
            },
            Err(_) => false,
        },
{
    if videos.len() != subtitles.len() {
        return Err(PlanError::CountMismatch(videos.len(), subtitles.len()));
    }
    let mut i: usize = 0;
    while i < subtitles.len()
        invariant
            i <= subtitles.len(),
            videos.len() == subtitles.len(),
            first_missing(subtitles@, on_disk@, 0) == first_missing(subtitles@, on_disk@, i as int),
        decreases subtitles.len() - i,
    {
        let found = i < on_disk.len() && on_disk[i];
        if has_separator(subtitles[i].path.as_str()) && !found {
            return Err(PlanError::SourceMissing(subtitles[i].name.clone()));
        }
        i += 1;
    }
    let mut entries: Vec<RenamePlanEntry> = Vec::new();
    let mut k: usize = 0;
    while k < subtitles.len()
        invariant
            k <= subtitles.len(),
            videos.len() == subtitles.len(),
            entries.len() == k,
            forall|i: int|
                0 <= i < k ==> pairs(#[trigger] entries[i], videos[i], subtitles[i], suffix@),
        decreases subtitles.len() - k,
    {
        let name = target_name(
            videos[k].name.as_str(),
            suffix,
            subtitles[k].name.as_str(),
        );
        entries.push(
            RenamePlanEntry {
                video: duplicate(&videos[k]),
                subtitle: duplicate(&subtitles[k]),
                target_name: name,
            },
        );
        k += 1;
    }
    Ok(entries)
}

} // verus!

//! Making file records of the names that a picker, a drop or a directory
//! scan came up with.

use vstd::prelude::*;
use crate::types::{DirectoryPickResult, FileInfo};
use crate::utils::{
    extension_of, is_subtitle_extension, is_subtitle_file, is_video_extension, is_video_file,
};

verus! {

/// Whether a file called `name` is offered for pairing: it is a video or a
/// subtitle.
pub open spec fn is_media(name: Seq<char>) -> bool {
    is_video_extension(extension_of(name)) || is_subtitle_extension(extension_of(name))
}

/// Whether `info` is the record of the file called `name` at `path`.
pub open spec fn describes(info: FileInfo, name: Seq<char>, path: Seq<char>) -> bool {
    &&& info.name@ == name
    &&& info.path@ == path
    &&& info.is_video == is_video_extension(extension_of(name))
}

/// The record of the file called `name` at `path`, where it is a video or
/// a subtitle.
pub fn media_info(name: &str, path: &str) -> (r: Option<FileInfo>)
    ensures
        match r {
            Some(info) => is_media(name@) && describes(info, name@, path@),
            None => !is_media(name@),
        },
{
    let is_video = is_video_file(name);
    let is_sub = is_subtitle_file(name);
    if is_video || is_sub {
        Some(FileInfo { name: name.to_owned(), path: path.to_owned(), is_video })
    } else {
        None
    }
}

/// The record of the file called `name` at `path`, where it is a video.
pub fn video_info(name: &str, path: &str) -> (r: Option<FileInfo>)
    ensures
        match r {
            Some(info) => is_video_extension(extension_of(name@)) && describes(
                info,
                name@,
                path@,
            ) && info.is_video,
            None => !is_video_extension(extension_of(name@)),
        },
{
    if is_video_file(name) {
        Some(FileInfo { name: name.to_owned(), path: path.to_owned(), is_video: true })
    } else {
        None
    }
}

/// The indices, from `from` on and in order, of the files whose names
/// `wanted` accepts. Each file is a name and a path.
pub open spec fn kept_from(
    found: Seq<(String, String)>,
    wanted: spec_fn(Seq<char>) -> bool,
    from: int,
) -> Seq<int>
    decreases found.len() - from,
{
    if from < 0 || from >= found.len() {
        Seq::empty()
    } else if wanted(found[from].0@) {
        seq![from] + kept_from(found, wanted, from + 1)
    } else {
        kept_from(found, wanted, from + 1)
    }
}

/// Whether `infos` holds the records of the files at the indices `kept`, in
/// that order.
pub open spec fn records_of(
    infos: Seq<FileInfo>,
    found: Seq<(String, String)>,
    kept: Seq<int>,
) -> bool {
    &&& infos.len() == kept.len()
    &&& forall|k: int|
        0 <= k < kept.len() ==> 0 <= #[trigger] kept[k] < found.len() && describes(
            infos[k],
            found[kept[k]].0@,
            found[kept[k]].1@,
        )
}

/// The records of the videos and subtitles among `found`, in the order in
/// which they were found. Each file is a name and a path.
pub fn media_infos(found: &Vec<(String, String)>) -> (infos: Vec<FileInfo>)
    ensures
        records_of(infos@, found@, kept_from(found@, |name: Seq<char>| is_media(name), 0)),
{
    let ghost wanted = |name: Seq<char>| is_media(name);
    let mut infos: Vec<FileInfo> = Vec::new();
    let ghost mut kept: Seq<int> = Seq::empty();
    let mut i: usize = 0;
    while i < found.len()
        invariant
            i <= found.len(),
            wanted == |name: Seq<char>| is_media(name),
            records_of(infos@, found@, kept),
            forall|k: int| 0 <= k < kept.len() ==> kept[k] < i,
            kept_from(found@, wanted, 0) == kept + kept_from(found@, wanted, i as int),
        decreases found.len() - i,
    {
        match media_info(found[i].0.as_str(), found[i].1.as_str()) {
            Some(info) => {
                infos.push(info);
                proof {
                    let rest = kept_from(found@, wanted, i + 1);
                    assert(kept + (seq![i as int] + rest) =~= kept.push(i as int) + rest);
                    kept = kept.push(i as int);
                }
            },
            None => {},
        }
        i += 1;
    }
    assert(kept + Seq::<int>::empty() =~= kept);
    infos
}

/// The records of the videos among `found`, in the order in which they
/// were found. Subtitles are left out.
pub fn video_infos(found: &Vec<(String, String)>) -> (infos: Vec<FileInfo>)
    ensures
        records_of(
            infos@,
            found@,
            kept_from(found@, |name: Seq<char>| is_video_extension(extension_of(name)), 0),
        ),
{
    let ghost wanted = |name: Seq<char>| is_video_extension(extension_of(name));
    let mut infos: Vec<FileInfo> = Vec::new();
    let ghost mut kept: Seq<int> = Seq::empty();
    let mut i: usize = 0;
    while i < found.len()
        invariant
            i <= found.len(),
            wanted == |name: Seq<char>| is_video_extension(extension_of(name)),
            records_of(infos@, found@, kept),
            forall|k: int| 0 <= k < kept.len() ==> kept[k] < i,
            kept_from(found@, wanted, 0) == kept + kept_from(found@, wanted, i as int),
        decreases found.len() - i,
    {
        match video_info(found[i].0.as_str(), found[i].1.as_str()) {
            Some(info) => {
                infos.push(info);
                proof {
                    let rest = kept_from(found@, wanted, i + 1);
                    assert(kept + (seq![i as int] + rest) =~= kept.push(i as int) + rest);
                    kept = kept.push(i as int);
                }
            },
            None => {},
        }
        i += 1;
    }
    assert(kept + Seq::<int>::empty() =~= kept);
    infos
}

/// What picking a directory came to: the videos found in it, or the news
/// that the user picked none.
pub fn directory_result(scanned: Option<Vec<(String, String)>>) -> (result: DirectoryPickResult)
    ensures
        match scanned {
            Some(found) => !result.canceled && records_of(
                result.files@,
                found@,
                kept_from(found@, |name: Seq<char>| is_video_extension(extension_of(name)), 0),
            ),
            None => result.canceled && result.files@.len() == 0,
        },
{
    match scanned {
        Some(found) => DirectoryPickResult { files: video_infos(&found), canceled: false },
        None => DirectoryPickResult { files: Vec::new(), canceled: true },
    }
}

} // verus!

//! Telling videos and subtitles apart by the extension of a file name.

use vstd::prelude::*;
use vstd::utf8::is_ascii_chars;
use crate::text::{
    find_last, last_index_of, lemma_last_index_of, lemma_last_index_of_is, slice_chars, to_chars,
    to_text,
};

verus! {

/// The lower-case form of an ASCII letter; any other character unchanged.
pub open spec fn ascii_lower(c: char) -> char {
    if 'A' <= c <= 'Z' {
        ((c as u32) + 32) as char
    } else {
        c
    }
}

/// `s` with each ASCII upper-case letter replaced by its lower-case form.
pub open spec fn ascii_lowercased(s: Seq<char>) -> Seq<char> {
    Seq::new(s.len(), |i: int| ascii_lower(s[i]))
}

/// The lower-case form that Unicode gives a text which holds characters
/// beyond ASCII.
pub uninterp spec fn unicode_lowercased(s: Seq<char>) -> Seq<char>;

/// The lower-case form of `s`.
pub open spec fn lowercased(s: Seq<char>) -> Seq<char> {
    if is_ascii_chars(s) {
        ascii_lowercased(s)
    } else {
        unicode_lowercased(s)
    }
}

/// `str::to_lowercase` returns the lower-case equivalent of the text, which
/// is a function of the text alone. On ASCII it maps `A` to `Z` onto `a` to
/// `z` and leaves every other character as it is.
pub assume_specification[ str::to_lowercase ](s: &str) -> (r: String)
    ensures
        is_ascii_chars(s@) ==> r@ == ascii_lowercased(s@),
        !is_ascii_chars(s@) ==> r@ == unicode_lowercased(s@),
;

/// What follows the last `.` of `name`; empty where `name` has no `.`.
pub open spec fn raw_extension(name: Seq<char>) -> Seq<char> {
    match last_index_of(name, '.') {
        Some(dot) => name.skip(dot + 1),
        None => Seq::empty(),
    }
}

/// The extension of `name` in lower case.
pub open spec fn extension_of(name: Seq<char>) -> Seq<char> {
    lowercased(raw_extension(name))
}

/// Whether `ext` is one of the extensions of a video.
pub open spec fn is_video_extension(ext: Seq<char>) -> bool {
    ||| ext == "mp4"@
    ||| ext == "mkv"@
    ||| ext == "avi"@
    ||| ext == "mov"@
    ||| ext == "wmv"@
    ||| ext == "flv"@
    ||| ext == "webm"@
    ||| ext == "m4v"@
    ||| ext == "mpeg"@
    ||| ext == "mpg"@
    ||| ext == "ts"@
    ||| ext == "mts"@
    ||| ext == "m2ts"@
}

/// Whether `ext` is one of the extensions of a subtitle.
pub open spec fn is_subtitle_extension(ext: Seq<char>) -> bool {
    ||| ext == "srt"@
    ||| ext == "ass"@
    ||| ext == "ssa"@
    ||| ext == "sub"@
    ||| ext == "idx"@
    ||| ext == "vtt"@
    ||| ext == "txt"@
}

/// What kind of file a name stands for.
#[derive(Clone, Copy, Debug, PartialEq, Eq, Structural)]
pub enum FileKind {
    Video,
    Subtitle,
    Other,
}

/// The kind that goes with a lower-case extension.
pub open spec fn kind_of_extension(ext: Seq<char>) -> FileKind {
    if is_video_extension(ext) {
        FileKind::Video
    } else if is_subtitle_extension(ext) {
        FileKind::Subtitle
    } else {
        FileKind::Other
    }
}

/// The kind of the file called `name`.
pub open spec fn kind_of(name: Seq<char>) -> FileKind {
    kind_of_extension(extension_of(name))
}

/// `name` with its extension put in lower case.
pub open spec fn with_lowered_extension(name: Seq<char>) -> Seq<char> {
    match last_index_of(name, '.') {
        Some(dot) => name.take(dot + 1) + lowercased(name.skip(dot + 1)),
        None => name,
    }
}

/// Putting ASCII text in lower case a second time changes nothing, and
/// brings no `.` into it.
pub proof fn lemma_ascii_lowercased(s: Seq<char>)
    requires
        is_ascii_chars(s),
    ensures
        is_ascii_chars(ascii_lowercased(s)),
        ascii_lowercased(ascii_lowercased(s)) == ascii_lowercased(s),
        forall|i: int| 0 <= i < s.len() && s[i] != '.' ==> ascii_lowercased(s)[i] != '.',
{
    let t = ascii_lowercased(s);
    assert forall|i: int| 0 <= i < s.len() implies '\0' <= #[trigger] t[i] <= '\u{7f}'
        && ascii_lower(t[i]) == t[i] && (s[i] != '.' ==> t[i] != '.') by {
        let c = s[i];
        assert('\0' <= c <= '\u{7f}');
    }
    assert(ascii_lowercased(t) =~= t);
}

/// Two names whose extensions are the same in lower case are of one kind.
pub proof fn lemma_kind_follows_extension(a: Seq<char>, b: Seq<char>)
    requires
        extension_of(a) == extension_of(b),
    ensures
        kind_of(a) == kind_of(b),
{
}

/// Putting the extension of a name in lower case does not change the kind
/// of the file, for every name whose extension is ASCII.
pub proof fn lemma_kind_ignores_case(name: Seq<char>)
    requires
        is_ascii_chars(raw_extension(name)),
    ensures
        extension_of(with_lowered_extension(name)) == extension_of(name),
        kind_of(with_lowered_extension(name)) == kind_of(name),
{
    lemma_last_index_of(name, '.');
    match last_index_of(name, '.') {
        Some(dot) => {
            let ext = name.skip(dot + 1);
            let low = ascii_lowercased(ext);
            let lowered = with_lowered_extension(name);
            lemma_ascii_lowercased(ext);
            assert(lowered == name.take(dot + 1) + low);
            assert forall|j: int| dot < j < lowered.len() implies lowered[j] != '.' by {
                assert(lowered[j] == low[j - dot - 1]);
                assert(ext[j - dot - 1] == name[j]);
            }
            lemma_last_index_of_is(lowered, '.', dot);
            assert(lowered.skip(dot + 1) =~= low);
        },
        None => {},
    }
}

/// Whether `s` and `literal` hold the same characters.
fn text_is(s: &String, literal: &str) -> (r: bool)
    ensures
        r == (s@ == literal@),
{
    let other = literal.to_owned();
    *s == other
}

/// The extension of `filename` in lower case: what follows its last `.`,
/// or the empty string where it has none.
pub fn get_extension(filename: &str) -> (ext: String)
    ensures
        ext@ == extension_of(filename@),
{
    let chars = to_chars(filename);
    let raw = match find_last(chars.as_slice(), '.') {
        Some(dot) => slice_chars(chars.as_slice(), dot + 1, chars.len()),
        None => Vec::new(),
    };
    assert(raw@ =~= raw_extension(filename@));
    let text = to_text(raw.as_slice());
    text.as_str().to_lowercase()
}

/// Whether `filename` has the extension of a video.
pub fn is_video_file(filename: &str) -> (r: bool)
    ensures
        r == is_video_extension(extension_of(filename@)),
        r == (kind_of(filename@) == FileKind::Video),
{
    let ext = get_extension(filename);
    text_is(&ext, "mp4") || text_is(&ext, "mkv") || text_is(&ext, "avi") || text_is(&ext, "mov")
        || text_is(&ext, "wmv") || text_is(&ext, "flv") || text_is(&ext, "webm") || text_is(
        &ext,
        "m4v",
    ) || text_is(&ext, "mpeg") || text_is(&ext, "mpg") || text_is(&ext, "ts") || text_is(
        &ext,
        "mts",
    ) || text_is(&ext, "m2ts")
}

/// Whether `filename` has the extension of a subtitle.
pub fn is_subtitle_file(filename: &str) -> (r: bool)
    ensures
        r == is_subtitle_extension(extension_of(filename@)),
{
    let ext = get_extension(filename);
    text_is(&ext, "srt") || text_is(&ext, "ass") || text_is(&ext, "ssa") || text_is(&ext, "sub")
        || text_is(&ext, "idx") || text_is(&ext, "vtt") || text_is(&ext, "txt")
}

/// The kind of the file called `filename`. Every name has one.
pub fn classify(filename: &str) -> (kind: FileKind)
    ensures
        kind == kind_of(filename@),
{
    if is_video_file(filename) {
        FileKind::Video
    } else if is_subtitle_file(filename) {
        FileKind::Subtitle
    } else {
        FileKind::Other
    }
}

} // verus!

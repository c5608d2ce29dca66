//! Reading a metadata record out of the text that a model answered with.

use vstd::prelude::*;
use crate::json::{parse_json, parsed_json, Json};
use crate::schema::{
    decode_metadata, find_member, member, metadata_of, read_text, required, text_of, Metadata,
};
use crate::text::{
    ends_with, first_occurrence, is_space, lemma_first_occurrence, lemma_first_occurrence_is,
    occurs_at, starts_with, strip_prefixes, strip_suffixes, to_chars, to_text, trim_chars, trimmed,
    trimmed_end, trimmed_start, without_prefixes, without_suffixes,
};
use crate::types::AnimeInfo;

verus! {

/// The marker that opens a reasoning segment.
pub open spec fn open_marker() -> Seq<char> {
    "<seed:think>"@
}

/// The marker that closes a reasoning segment.
pub open spec fn close_marker() -> Seq<char> {
    "</seed:think>"@
}

/// The first reasoning segment of `s`, as the index where it starts and the
/// index just behind its end: it starts at the first opening marker and ends
/// with the first closing marker behind that. Where no closing marker follows
/// the first opening marker, `s` has no segment.
pub open spec fn first_segment(s: Seq<char>) -> Option<(int, int)> {
    match first_occurrence(s, open_marker(), 0) {
        Some(start) => match first_occurrence(s, close_marker(), start + open_marker().len()) {
            Some(close) => Some((start, close + close_marker().len())),
            None => None,
        },
        None => None,
    }
}

/// `s` with every reasoning segment cut out, from left to right.
pub open spec fn without_reasoning(s: Seq<char>) -> Seq<char>
    decreases s.len(),
{
    match first_segment(s) {
        Some((start, end)) => if 0 <= start < end <= s.len() {
            s.take(start) + without_reasoning(s.skip(end))
        } else {
            s
        },
        None => s,
    }
}

/// `Regex::replace_all` with the pattern `(?s)<seed:think>.*?</seed:think>`
/// and an empty replacement: every match is cut out. A match starts at the
/// leftmost opening marker that a closing marker follows, and the lazy `.*?`,
/// which also crosses line ends, makes it stop at the first closing marker.
/// The next match is looked for behind the end of the last one.
#[verifier::external_body]
fn cut_reasoning(text: &str) -> (r: String)
    ensures
        r@ == without_reasoning(text@),
{
    match regex::Regex::new(r"(?s)<seed:think>.*?</seed:think>") {
        Ok(pattern) => pattern.replace_all(text, "").into_owned(),
        Err(_) => text.to_string(),
    }
}

/// Removes every reasoning segment from `text`.
pub fn strip_reasoning(text: &str) -> (r: String)
    ensures
        r@ == without_reasoning(text@),
{
    cut_reasoning(text)
}

/// `s` without the code fence around it: the white space at either end is
/// dropped, then every opening fence with the tag `json` in front, then every
/// bare fence in front, then every fence at the end, and last the white space
/// that this laid bare.
pub open spec fn unfenced(s: Seq<char>) -> Seq<char> {
    trimmed(
        without_suffixes(
            without_prefixes(without_prefixes(trimmed(s), "```json"@), "```"@),
            "```"@,
        ),
    )
}

/// Takes the code fence from around `text`.
pub fn unfence(text: &str) -> (r: String)
    ensures
        r@ == unfenced(text@),
{
    let chars = to_chars(text);
    let tagged = to_chars("```json");
    let bare = to_chars("```");
    let inner = trim_chars(chars.as_slice());
    let inner = strip_prefixes(inner.as_slice(), tagged.as_slice());
    let inner = strip_prefixes(inner.as_slice(), bare.as_slice());
    let inner = strip_suffixes(inner.as_slice(), bare.as_slice());
    let inner = trim_chars(inner.as_slice());
    to_text(inner.as_slice())
}

/// Why no record could be had.
#[derive(Clone, Debug, PartialEq, Eq)]
pub enum ExtractionError {
    /// The backend could not be reached, or did not answer in time or in
    /// its own format.
    NetworkError(String),
    /// The backend answered with a status outside 200 to 299.
    BadStatus(u16),
    /// The answer holds no record; the answer is kept as it came.
    SchemaMismatch(String),
    /// No file name was given.
    EmptyInput,
}

/// The one title that a set of file names is taken to share.
#[derive(Clone, Debug, PartialEq, Eq)]
pub struct BatchMetadataGuess {
    pub title: String,
}

/// The record that `text` holds, where `text` is a JSON document that
/// stands for one.
pub open spec fn record_in(text: Seq<char>) -> Option<Metadata> {
    match parsed_json(text) {
        Some(json) => metadata_of(json),
        None => None,
    }
}

/// The record that an answer holds: that of the answer without its
/// reasoning segments, or else that of the same text without its code fence.
pub open spec fn extraction(raw: Seq<char>) -> Option<Metadata> {
    let stripped = without_reasoning(raw);
    match record_in(stripped) {
        Some(record) => Some(record),
        None => record_in(unfenced(stripped)),
    }
}

/// Reads the record that `text` holds.
pub fn decode_text(text: &str) -> (r: Option<AnimeInfo>)
    ensures
        match r {
            Some(info) => record_in(text@) == Some(info@) && info.well_formed(),
            None => record_in(text@) is None,
        },
{
    match parse_json(text) {
        Some(json) => decode_metadata(&json),
        None => None,
    }
}

/// Reads a record out of the answer of a model.
///
/// Reasoning segments are cut out first. What is left is read as it stands;
/// where that fails, it is read once more without its code fence. Where
/// both fail, the error keeps the answer as it came.
pub fn extract(raw_text: &str) -> (r: Result<AnimeInfo, ExtractionError>)
    ensures
        match r {
            Ok(info) => extraction(raw_text@) == Some(info@) && info.well_formed(),
            Err(ExtractionError::SchemaMismatch(kept)) => extraction(raw_text@) is None && kept@
                == raw_text@,
            Err(_) => false,
        },
{
    let stripped = strip_reasoning(raw_text);
    match decode_text(stripped.as_str()) {
        Some(info) => Ok(info),
        None => {
            let bare = unfence(stripped.as_str());
            match decode_text(bare.as_str()) {
                Some(info) => Ok(info),
                None => Err(ExtractionError::SchemaMismatch(raw_text.to_owned())),
            }
        },
    }
}

/// The title that a JSON document stands for: an object whose member
/// `title` is a string.
pub open spec fn title_of(json: Json) -> Option<Seq<char>> {
    match json {
        Json::Object(members) => required(member(members@, "title"@), |j: Json| text_of(j)),
        _ => None,
    }
}

/// The title that `text` holds.
pub open spec fn title_in(text: Seq<char>) -> Option<Seq<char>> {
    match parsed_json(text) {
        Some(json) => title_of(json),
        None => None,
    }
}

/// The title that an answer holds, read in the same stages as a record.
pub open spec fn title_extraction(raw: Seq<char>) -> Option<Seq<char>> {
    let stripped = without_reasoning(raw);
    match title_in(stripped) {
        Some(title) => Some(title),
        None => title_in(unfenced(stripped)),
    }
}

/// Reads the title that `json` stands for.
pub fn decode_title(json: &Json) -> (r: Option<BatchMetadataGuess>)
    ensures
        match r {
            Some(guess) => title_of(*json) == Some(guess.title@),
            None => title_of(*json) is None,
        },
{
    match json {
        Json::Object(members) => match find_member(members, "title") {
            Some(value) => match read_text(value) {
                Some(title) => Some(BatchMetadataGuess { title }),
                None => None,
            },
            None => None,
        },
        _ => None,
    }
}

/// Reads the title that `text` holds.
fn decode_title_text(text: &str) -> (r: Option<BatchMetadataGuess>)
    ensures
        match r {
            Some(guess) => title_in(text@) == Some(guess.title@),
            None => title_in(text@) is None,
        },
{
    match parse_json(text) {
        Some(json) => decode_title(&json),
        None => None,
    }
}

/// Reads the shared title out of the answer that a model gave for
/// `filenames`.
///
/// Without file names there is nothing to ask about, and the answer is not
/// looked at.
pub fn extract_batch(filenames: &Vec<String>, raw_text: &str) -> (r: Result<
    BatchMetadataGuess,
    ExtractionError,
>)
    ensures
        match r {
            Ok(guess) => filenames.len() > 0 && title_extraction(raw_text@) == Some(
                guess.title@,
            ),
            Err(ExtractionError::EmptyInput) => filenames.len() == 0,
            Err(ExtractionError::SchemaMismatch(kept)) => filenames.len() > 0
                && title_extraction(raw_text@) is None && kept@ == raw_text@,
            Err(_) => false,
        },
{
    if filenames.len() == 0 {
        return Err(ExtractionError::EmptyInput);
    }
    let stripped = strip_reasoning(raw_text);
    match decode_title_text(stripped.as_str()) {
        Some(guess) => Ok(guess),
        None => {
            let bare = unfence(stripped.as_str());
            match decode_title_text(bare.as_str()) {
                Some(guess) => Ok(guess),
                None => Err(ExtractionError::SchemaMismatch(raw_text.to_owned())),
            }
        },
    }
}

/// `rest` behind a reasoning segment that holds `reasoning`.
pub open spec fn reasoned(reasoning: Seq<char>, rest: Seq<char>) -> Seq<char> {
    open_marker() + reasoning + close_marker() + rest
}

/// `document` inside a code fence with the tag `json`, each fence on a line
/// of its own.
pub open spec fn fenced(document: Seq<char>) -> Seq<char> {
    "```json"@ + seq!['\n'] + document + seq!['\n'] + "```"@
}

/// A reasoning segment in front is cut out whole: what is left is what the
/// rest gives. The reasoning must not hold a closing marker before its end.
pub proof fn lemma_reasoning_is_cut(reasoning: Seq<char>, rest: Seq<char>)
    requires
        first_occurrence(reasoning + close_marker(), close_marker(), 0) == Some(
            reasoning.len() as int,
        ),
    ensures
        without_reasoning(reasoned(reasoning, rest)) == without_reasoning(rest),
{
    reveal_strlit("<seed:think>");
    reveal_strlit("</seed:think>");
    let open = open_marker();
    let close = close_marker();
    let inner = reasoning + close;
    let whole = reasoned(reasoning, rest);
    let start = open.len() as int;
    let at = start + reasoning.len();
    assert(whole.subrange(0, start) =~= open);
    lemma_first_occurrence_is(whole, open, 0, 0);
    lemma_first_occurrence(inner, close, 0);
    assert forall|j: int| start <= j < at implies !occurs_at(whole, close, j) by {
        assert(!occurs_at(inner, close, j - start));
        assert(whole.subrange(j, j + close.len()) =~= inner.subrange(
            j - start,
            j - start + close.len(),
        ));
    }
    assert(whole.subrange(at, at + close.len()) =~= close);
    lemma_first_occurrence_is(whole, close, start, at);
    let end = at + close.len();
    assert(first_segment(whole) == Some((0int, end)));
    assert(whole.skip(end) =~= rest);
    assert(whole.take(0) + without_reasoning(rest) =~= without_reasoning(rest));
}

/// A text without an opening marker holds no reasoning segment and is left
/// as it is.
pub proof fn lemma_nothing_to_cut(text: Seq<char>)
    requires
        first_occurrence(text, open_marker(), 0) is None,
    ensures
        without_reasoning(text) == text,
{
}

/// The fence comes off a fenced document that begins and ends with neither
/// white space nor a backtick.
pub proof fn lemma_fence_comes_off(document: Seq<char>)
    requires
        document.len() > 0,
        !is_space(document[0]) && document[0] != '`',
        !is_space(document.last()) && document.last() != '`',
    ensures
        unfenced(fenced(document)) == document,
{
    reveal_strlit("```json");
    reveal_strlit("```");
    let tagged = "```json"@;
    let bare = "```"@;
    let line = seq!['\n'];
    let whole = fenced(document);
    assert(whole[0] == '`');
    assert(whole.last() == '`');
    assert(trimmed_start(whole) == whole);
    assert(trimmed_end(whole) == whole);
    // The tagged fence in front.
    let s1 = line + document + line + bare;
    assert(whole.take(tagged.len() as int) =~= tagged);
    assert(whole.skip(tagged.len() as int) =~= s1);
    assert(s1[0] == '\n');
    assert(!starts_with(s1, tagged)) by {
        if starts_with(s1, tagged) {
            assert(s1.take(tagged.len() as int)[0] == tagged[0]);
        }
    }
    assert(without_prefixes(s1, tagged) == s1);
    assert(without_prefixes(whole, tagged) == s1);
    // No bare fence in front.
    assert(!starts_with(s1, bare)) by {
        if starts_with(s1, bare) {
            assert(s1.take(bare.len() as int)[0] == bare[0]);
        }
    }
    assert(without_prefixes(s1, bare) == s1);
    // The fence at the end.
    let s2 = line + document + line;
    assert(s1.skip(s1.len() - bare.len()) =~= bare);
    assert(s1.take(s1.len() - bare.len()) =~= s2);
    assert(s2.last() == '\n');
    assert(!ends_with(s2, bare)) by {
        if ends_with(s2, bare) {
            assert(s2.skip(s2.len() - bare.len())[2] == bare[2]);
        }
    }
    assert(without_suffixes(s2, bare) == s2);
    assert(without_suffixes(s1, bare) == s2);
    // The line ends that this laid bare.
    let s3 = document + line;
    assert(s2.skip(1) =~= s3);
    assert(s3[0] == document[0]);
    assert(trimmed_start(s3) == s3);
    assert(trimmed_start(s2) == s3);
    assert(s3.drop_last() =~= document);
    assert(trimmed_end(document) == document);
    assert(trimmed_end(s3) == document);
}

/// A fenced document holds no opening marker unless the document does.
pub proof fn lemma_fence_holds_no_marker(document: Seq<char>)
    requires
        first_occurrence(document, open_marker(), 0) is None,
    ensures
        first_occurrence(fenced(document), open_marker(), 0) is None,
{
    reveal_strlit("<seed:think>");
    reveal_strlit("```json");
    reveal_strlit("```");
    let open = open_marker();
    let whole = fenced(document);
    let front = "```json"@.len() + 1;
    lemma_first_occurrence(document, open, 0);
    assert forall|j: int| 0 <= j implies !occurs_at(whole, open, j) by {
        if occurs_at(whole, open, j) {
            let found = whole.subrange(j, j + open.len());
            assert(found[0] == whole[j]);
            assert(found[11] == whole[j + 11]);
            assert(whole[j] == '<');
            assert(whole[j + 11] == '>');
            if j < front {
                assert(false);
            } else if j + 11 >= front + document.len() {
                assert(false);
            } else {
                assert(document.subrange(j - front, j - front + open.len()) =~= found);
                assert(occurs_at(document, open, j - front));
            }
        }
    }
    lemma_first_occurrence(whole, open, 0);
}

/// An answer that is a JSON document standing for a record, with no
/// reasoning segment and no fence, gives that record.
pub proof fn lemma_plain_answer_gives_its_record(raw: Seq<char>, record: Metadata)
    requires
        first_segment(raw) is None,
        record_in(raw) == Some(record),
    ensures
        extraction(raw) == Some(record),
{
}

/// A record comes out the same whether its document stands alone, behind a
/// reasoning segment, or behind a reasoning segment and inside a code fence.
/// The reasoning must not hold a closing marker before its end, and the
/// document, an object from `{` to `}`, must not hold an opening marker.
pub proof fn lemma_wrapping_changes_nothing(
    reasoning: Seq<char>,
    document: Seq<char>,
    record: Metadata,
)
    requires
        first_occurrence(reasoning + close_marker(), close_marker(), 0) == Some(
            reasoning.len() as int,
        ),
        first_occurrence(document, open_marker(), 0) is None,
        document.len() > 0,
        document[0] == '{',
        document.last() == '}',
        record_in(document) == Some(record),
    ensures
        extraction(document) == Some(record),
        extraction(reasoned(reasoning, document)) == Some(record),
        extraction(reasoned(reasoning, fenced(document))) == Some(record),
{
    lemma_nothing_to_cut(document);
    lemma_reasoning_is_cut(reasoning, document);
    lemma_reasoning_is_cut(reasoning, fenced(document));
    lemma_fence_holds_no_marker(document);
    lemma_nothing_to_cut(fenced(document));
    lemma_fence_comes_off(document);
    reveal_strlit("```json");
    assert(fenced(document)[0] == '`');
}

} // verus!

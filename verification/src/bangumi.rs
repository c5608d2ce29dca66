//! Looking subjects up in the Bangumi catalogue: the addresses to ask, and
//! what to make of the JSON that comes back.

use vstd::prelude::*;
use vstd::utf8::encode_utf8;
use crate::json::Json;
use crate::llm_recognition::get_field;
use crate::schema::{all_digits, digits_value, field, is_digit, text_of};
use crate::text::{
    append_decimal, append_text, decimal, to_chars, to_text, trim_chars, trimmed,
};
use crate::types::{BangumiSubject, BangumiSubjectDetail};

verus! {

/// Whether a byte stands for itself in an address: a letter or digit of
/// ASCII, or one of `-`, `.`, `_` and `~`.
pub open spec fn is_unreserved(b: u8) -> bool {
    ||| 0x30 <= b <= 0x39
    ||| 0x41 <= b <= 0x5a
    ||| 0x61 <= b <= 0x7a
    ||| b == 0x2d
    ||| b == 0x2e
    ||| b == 0x5f
    ||| b == 0x7e
}

/// The hexadecimal digit, in upper case, that stands for `d`.
pub open spec fn hex_digit(d: int) -> char {
    if d < 10 {
        (0x30 + d) as char
    } else {
        (0x41 + d - 10) as char
    }
}

/// `bytes` with every byte that does not stand for itself written as `%`
/// and two hexadecimal digits.
pub open spec fn percent_encoded(bytes: Seq<u8>) -> Seq<char>
    decreases bytes.len(),
{
    if bytes.len() == 0 {
        Seq::empty()
    } else {
        let b = bytes.last();
        percent_encoded(bytes.drop_last()) + if is_unreserved(b) {
            seq![b as char]
        } else {
            seq!['%', hex_digit(b as int / 16), hex_digit(b as int % 16)]
        }
    }
}

/// `urlencoding::encode` percent-encodes every byte of the text's UTF-8
/// form except ASCII letters and digits and `-`, `_`, `.`, `~`, with
/// upper-case hexadecimal digits.
#[verifier::external_body]
fn url_encode(text: &str) -> (r: String)
    ensures
        r@ == percent_encoded(encode_utf8(text@)),
{
    urlencoding::encode(text).into_owned()
}

/// How many hits are asked for where the caller names no number.
pub const DEFAULT_LIMIT: usize = 10;

/// The address that answers a search for `query`, asking for `limit` hits.
pub open spec fn search_address(query: Seq<char>, limit: nat) -> Seq<char> {
    "https://api.bgm.tv/search/subject/"@ + percent_encoded(encode_utf8(query))
        + "?type=2&responseGroup=small&max_results="@ + decimal(limit)
}

/// The query that is sent for `query`: it without the white space at either
/// end. No query is sent for white space alone.
pub fn search_query(query: &str) -> (r: Option<String>)
    ensures
        match r {
            Some(q) => q@ == trimmed(query@) && q@.len() > 0,
            None => trimmed(query@).len() == 0,
        },
{
    let chars = to_chars(query);
    let inner = trim_chars(chars.as_slice());
    if inner.len() == 0 {
        None
    } else {
        Some(to_text(inner.as_slice()))
    }
}

/// The address to ask for subjects that match `query`, or `None` where the
/// query is white space alone and nothing is to be asked.
pub fn search_url(query: &str, limit: Option<usize>) -> (r: Option<String>)
    ensures
        match r {
            Some(url) => trimmed(query@).len() > 0 && url@ == search_address(
                trimmed(query@),
                match limit {
                    Some(n) => n as nat,
                    None => DEFAULT_LIMIT as nat,
                },
            ),
            None => trimmed(query@).len() == 0,
        },
{
    let q = match search_query(query) {
        Some(q) => q,
        None => {
            return None;
        },
    };
    let max = match limit {
        Some(n) => n,
        None => DEFAULT_LIMIT,
    };
    let encoded = url_encode(q.as_str());
    let mut out: Vec<char> = Vec::new();
    append_text(&mut out, "https://api.bgm.tv/search/subject/");
    append_text(&mut out, encoded.as_str());
    append_text(&mut out, "?type=2&responseGroup=small&max_results=");
    append_decimal(&mut out, max as u64);
    assert(out@ =~= search_address(q@, max as nat));
    Some(to_text(out.as_slice()))
}

/// `n` written in decimal digits, with `-` in front where it is negative.
pub open spec fn signed_decimal(n: int) -> Seq<char> {
    if n < 0 {
        seq!['-'] + decimal((-n) as nat)
    } else {
        decimal(n as nat)
    }
}

/// The address that answers for the subject `id`.
pub fn detail_url(id: i64) -> (url: String)
    ensures
        url@ == "https://api.bgm.tv/subject/"@ + signed_decimal(id as int),
{
    let mut out: Vec<char> = Vec::new();
    append_text(&mut out, "https://api.bgm.tv/subject/");
    if id < 0 {
        out.push('-');
        let size: u64 = (-(id + 1)) as u64 + 1;
        append_decimal(&mut out, size);
    } else {
        append_decimal(&mut out, id as u64);
    }
    assert(out@ =~= "https://api.bgm.tv/subject/"@ + signed_decimal(id as int));
    to_text(out.as_slice())
}

/// The integer that a JSON number stands for, where it is one that fits in
/// 64 bits with a sign.
pub open spec fn int_of(json: Json) -> Option<i64> {
    match json {
        Json::Number(n) => n.signed,
        _ => None,
    }
}

/// The string under `key`, where `json` is an object that holds one there.
pub open spec fn text_at(json: Json, key: Seq<char>) -> Option<Seq<char>> {
    match field(json, key) {
        Some(value) => text_of(value),
        None => None,
    }
}

/// The integer under `key`, where `json` is an object that holds one there.
pub open spec fn int_at(json: Json, key: Seq<char>) -> Option<i64> {
    match field(json, key) {
        Some(value) => int_of(value),
        None => None,
    }
}

/// The date of a subject: the string under `date`, or under `air_date`
/// where there is no member `date` at all.
pub open spec fn date_of(json: Json) -> Option<Seq<char>> {
    match field(json, "date"@) {
        Some(value) => text_of(value),
        None => text_at(json, "air_date"@),
    }
}

/// The characters of a string that may be missing.
pub open spec fn optional_text(s: Option<String>) -> Option<Seq<char>> {
    match s {
        Some(t) => Some(t@),
        None => None,
    }
}

/// What a [`BangumiSubject`] holds.
pub struct SubjectView {
    pub id: i64,
    pub name: Seq<char>,
    pub name_cn: Option<Seq<char>>,
    pub subject_type: Option<i32>,
    pub date: Option<Seq<char>>,
}

impl View for BangumiSubject {
    type V = SubjectView;

    open spec fn view(&self) -> SubjectView {
        SubjectView {
            id: self.id,
            name: self.name@,
            name_cn: optional_text(self.name_cn),
            subject_type: self.subject_type,
            date: optional_text(self.date),
        }
    }
}

/// The lower 32 bits of `n`, read with a sign.
pub open spec fn low_bits(n: Option<i64>) -> Option<i32> {
    match n {
        Some(v) => Some(v as i32),
        None => None,
    }
}

/// The subject that one item of a search result stands for: its `id`, or
/// zero; its `name`, or the empty string; and what it holds under `name_cn`,
/// `type` and as its date. An item without an id or without a name stands
/// for no subject.
pub open spec fn subject_in(item: Json) -> Option<SubjectView> {
    let id = match int_at(item, "id"@) {
        Some(v) => v,
        None => 0,
    };
    let name = match text_at(item, "name"@) {
        Some(s) => s,
        None => Seq::empty(),
    };
    if id != 0 && name.len() > 0 {
        Some(
            SubjectView {
                id,
                name,
                name_cn: text_at(item, "name_cn"@),
                subject_type: low_bits(int_at(item, "type"@)),
                date: date_of(item),
            },
        )
    } else {
        None
    }
}

/// The subjects that the items from index `from` on stand for, in order.
pub open spec fn subjects_from(items: Seq<Json>, from: int) -> Seq<SubjectView>
    decreases items.len() - from,
{
    if from < 0 || from >= items.len() {
        Seq::empty()
    } else {
        match subject_in(items[from]) {
            Some(subject) => seq![subject] + subjects_from(items, from + 1),
            None => subjects_from(items, from + 1),
        }
    }
}

/// The subjects that a search result holds: those of the array under
/// `list`, or of the result itself where it is an array and has no such
/// member; none otherwise.
pub open spec fn subjects_in(body: Json) -> Seq<SubjectView> {
    match field(body, "list"@) {
        Some(Json::Array(items)) => subjects_from(items@, 0),
        _ => match body {
            Json::Array(items) => subjects_from(items@, 0),
            _ => Seq::empty(),
        },
    }
}

/// What each subject of `subjects` holds.
pub open spec fn subject_views(subjects: Seq<BangumiSubject>) -> Seq<SubjectView> {
    subjects.map_values(|s: BangumiSubject| s@)
}

/// Reads the string under `key`.
fn read_text_at(json: &Json, key: &str) -> (r: Option<String>)
    ensures
        optional_text(r) == text_at(*json, key@),
{
    match get_field(json, key) {
        Some(Json::Text(s)) => Some(s.clone()),
        _ => None,
    }
}

/// Reads the integer under `key`.
fn read_int_at(json: &Json, key: &str) -> (r: Option<i64>)
    ensures
        r == int_at(*json, key@),
{
    match get_field(json, key) {
        Some(Json::Number(n)) => n.signed,
        _ => None,
    }
}

/// Reads the date of a subject.
fn read_date(json: &Json) -> (r: Option<String>)
    ensures
        optional_text(r) == date_of(*json),
{
    match get_field(json, "date") {
        Some(Json::Text(s)) => Some(s.clone()),
        Some(_) => None,
        None => read_text_at(json, "air_date"),
    }
}

/// Keeps the lower 32 bits of an integer.
fn keep_low_bits(n: Option<i64>) -> (r: Option<i32>)
    ensures
        r == low_bits(n),
{
    match n {
        Some(v) => Some(#[verifier::truncate] (v as i32)),
        None => None,
    }
}

/// Reads the subject that one item of a search result stands for.
pub fn subject_of(item: &Json) -> (r: Option<BangumiSubject>)
    ensures
        match r {
            Some(subject) => subject_in(*item) == Some(subject@),
            None => subject_in(*item) is None,
        },
{
    let id = match read_int_at(item, "id") {
        Some(v) => v,
        None => 0,
    };
    let name = match read_text_at(item, "name") {
        Some(s) => s,
        None => String::new(),
    };
    if id != 0 && !name.as_str().is_empty() {
        Some(
            BangumiSubject {
                id,
                name,
                name_cn: read_text_at(item, "name_cn"),
                subject_type: keep_low_bits(read_int_at(item, "type")),
                date: read_date(item),
            },
        )
    } else {
        None
    }
}

/// Reads the subjects that stand in `items`.
fn subjects_of_items(items: &Vec<Json>) -> (subjects: Vec<BangumiSubject>)
    ensures
        subject_views(subjects@) == subjects_from(items@, 0),
{
    let mut subjects: Vec<BangumiSubject> = Vec::new();
    let mut i: usize = 0;
    assert(subject_views(subjects@) =~= Seq::<SubjectView>::empty());
    while i < items.len()
        invariant
            i <= items.len(),
            subjects_from(items@, 0) == subject_views(subjects@) + subjects_from(items@, i as int),
        decreases items.len() - i,
    {
        match subject_of(&items[i]) {
            Some(subject) => {
                let ghost before = subject_views(subjects@);
                let ghost rest = subjects_from(items@, i + 1);
                subjects.push(subject);
                assert(subject_views(subjects@) =~= before.push(subject@));
                assert(before + (seq![subject@] + rest) =~= before.push(subject@) + rest);
            },
            None => {},
        }
        i += 1;
    }
    assert(subject_views(subjects@) + Seq::<SubjectView>::empty() =~= subject_views(subjects@));
    subjects
}

/// Reads the subjects that a search result holds, in the order in which
/// they stand there.
pub fn subjects_of(body: &Json) -> (subjects: Vec<BangumiSubject>)
    ensures
        subject_views(subjects@) == subjects_in(*body),
{
    match get_field(body, "list") {
        Some(Json::Array(items)) => subjects_of_items(items),
        _ => match body {
            Json::Array(items) => subjects_of_items(items),
            _ => {
                let subjects: Vec<BangumiSubject> = Vec::new();
                assert(subject_views(subjects@) =~= Seq::<SubjectView>::empty());
                subjects
            },
        },
    }
}

/// What a [`BangumiSubjectDetail`] holds.
pub struct DetailView {
    pub id: i64,
    pub name: Seq<char>,
    pub name_cn: Option<Seq<char>>,
    pub cover_url: Option<Seq<char>>,
    pub episodes: Option<i32>,
    pub year: Option<i32>,
}

impl View for BangumiSubjectDetail {
    type V = DetailView;

    open spec fn view(&self) -> DetailView {
        DetailView {
            id: self.id,
            name: self.name@,
            name_cn: optional_text(self.name_cn),
            cover_url: optional_text(self.cover_url),
            episodes: self.episodes,
            year: self.year,
        }
    }
}

/// The address of a subject's cover: the string under `images` and there
/// under `large`, or under `common` where `images` has no member `large`;
/// failing that, the string under `cover`.
pub open spec fn cover_of(body: Json) -> Option<Seq<char>> {
    let picture = match field(body, "images"@) {
        Some(images) => match field(images, "large"@) {
            Some(value) => text_of(value),
            None => text_at(images, "common"@),
        },
        None => None,
    };
    match picture {
        Some(url) => Some(url),
        None => text_at(body, "cover"@),
    }
}

/// How many items the array under `key` has, cut to 32 bits.
pub open spec fn count_at(body: Json, key: Seq<char>) -> Option<i32> {
    match field(body, key) {
        Some(Json::Array(items)) => Some(items.len() as i32),
        _ => None,
    }
}

/// The number of a subject's episodes: the integer under `eps`, or else
/// that under `total_episodes`, or else the length of the array under
/// `episodes`.
pub open spec fn episodes_of(body: Json) -> Option<i32> {
    match low_bits(int_at(body, "eps"@)) {
        Some(n) => Some(n),
        None => match low_bits(int_at(body, "total_episodes"@)) {
            Some(n) => Some(n),
            None => count_at(body, "episodes"@),
        },
    }
}

/// The year that a date begins with: its first four characters, read as
/// four digits or as a sign and three digits.
pub open spec fn year_of(date: Seq<char>) -> Option<i32> {
    if date.len() < 4 {
        None
    } else {
        let head = date.take(4);
        if head[0] == '+' && all_digits(head.skip(1)) {
            Some(digits_value(head.skip(1)) as i32)
        } else if head[0] == '-' && all_digits(head.skip(1)) {
            Some((-(digits_value(head.skip(1)) as int)) as i32)
        } else if all_digits(head) {
            Some(digits_value(head) as i32)
        } else {
            None
        }
    }
}

/// The year of a subject, where it has a date that begins with one.
pub open spec fn year_in(body: Json) -> Option<i32> {
    match date_of(body) {
        Some(date) => year_of(date),
        None => None,
    }
}

/// The details that the answer for the subject `id` holds. The id is that
/// of the answer where it names one.
pub open spec fn detail_in(body: Json, id: i64) -> DetailView {
    DetailView {
        id: match int_at(body, "id"@) {
            Some(v) => v,
            None => id,
        },
        name: match text_at(body, "name"@) {
            Some(s) => s,
            None => Seq::empty(),
        },
        name_cn: text_at(body, "name_cn"@),
        cover_url: cover_of(body),
        episodes: episodes_of(body),
        year: year_in(body),
    }
}

/// The number that up to four decimal digits stand for, from index `from`
/// of `chars` up to index 4.
fn read_digits(chars: &[char], from: usize) -> (r: Option<i32>)
    requires
        from <= 4 <= chars.len(),
    ensures
        match r {
            Some(v) => all_digits(chars@.subrange(from as int, 4)) && v == digits_value(
                chars@.subrange(from as int, 4),
            ) && 0 <= v <= 9999,
            None => !all_digits(chars@.subrange(from as int, 4)),
        },
{
    let ghost digits = chars@.subrange(from as int, 4);
    let mut value: i32 = 0;
    let mut i: usize = from;
    assert(digits.take(0) =~= Seq::<char>::empty());
    while i < 4
        invariant
            from <= i <= 4 <= chars.len(),
            digits == chars@.subrange(from as int, 4),
            all_digits(digits.take(i - from)),
            value == digits_value(digits.take(i - from)),
            0 <= value,
            i - from == 0 ==> value == 0,
            i - from == 1 ==> value <= 9,
            i - from == 2 ==> value <= 99,
            i - from == 3 ==> value <= 999,
            i - from == 4 ==> value <= 9999,
        decreases 4 - i,
    {
        let c = chars[i];
        if c < '0' || c > '9' {
            assert(!is_digit(digits[i - from]));
            return None;
        }
        let d: i32 = (c as u32 - '0' as u32) as i32;
        assert(digits.take(i - from + 1).drop_last() =~= digits.take(i - from));
        assert(digits.take(i - from + 1).last() == c);
        assert forall|j: int| 0 <= j < i - from + 1 implies is_digit(
            #[trigger] digits.take(i - from + 1)[j],
        ) by {
            if j < i - from {
                assert(digits.take(i - from)[j] == digits.take(i - from + 1)[j]);
            }
        }
        value = value * 10 + d;
        i += 1;
    }
    assert(digits.take(4 - from) =~= digits);
    Some(value)
}

/// Reads the year that a date begins with.
pub fn parse_year(date: &str) -> (r: Option<i32>)
    ensures
        r == year_of(date@),
{
    let chars = to_chars(date);
    if chars.len() < 4 {
        return None;
    }
    assert(chars@.subrange(0, 4) =~= chars@.take(4));
    assert(chars@.subrange(1, 4) =~= chars@.take(4).skip(1));
    let first = chars[0];
    if first == '+' {
        assert(!is_digit(chars@.take(4)[0]));
        read_digits(chars.as_slice(), 1)
    } else if first == '-' {
        assert(!is_digit(chars@.take(4)[0]));
        match read_digits(chars.as_slice(), 1) {
            Some(v) => Some(-v),
            None => None,
        }
    } else {
        read_digits(chars.as_slice(), 0)
    }
}

/// Reads the address of a subject's cover.
fn read_cover(body: &Json) -> (r: Option<String>)
    ensures
        optional_text(r) == cover_of(*body),
{
    let picture = match get_field(body, "images") {
        Some(images) => match get_field(images, "large") {
            Some(Json::Text(s)) => Some(s.clone()),
            Some(_) => None,
            None => read_text_at(images, "common"),
        },
        None => None,
    };
    match picture {
        Some(url) => Some(url),
        None => read_text_at(body, "cover"),
    }
}

/// Reads the number of a subject's episodes.
fn read_episodes(body: &Json) -> (r: Option<i32>)
    ensures
        r == episodes_of(*body),
{
    match keep_low_bits(read_int_at(body, "eps")) {
        Some(n) => Some(n),
        None => match keep_low_bits(read_int_at(body, "total_episodes")) {
            Some(n) => Some(n),
            None => match get_field(body, "episodes") {
                Some(Json::Array(items)) => Some(#[verifier::truncate] (items.len() as i32)),
                _ => None,
            },
        },
    }
}

/// Reads the details that the answer for the subject `id` holds.
pub fn detail_of(body: &Json, id: i64) -> (detail: BangumiSubjectDetail)
    ensures
        detail@ == detail_in(*body, id),
{
    let year = match read_date(body) {
        Some(date) => parse_year(date.as_str()),
        None => None,
    };
    BangumiSubjectDetail {
        id: match read_int_at(body, "id") {
            Some(v) => v,
            None => id,
        },
        name: match read_text_at(body, "name") {
            Some(s) => s,
            None => String::new(),
        },
        name_cn: read_text_at(body, "name_cn"),
        cover_url: read_cover(body),
        episodes: read_episodes(body),
        year,
    }
}

} // verus!

//! What a JSON document must hold to be read as a record.
//!
//! A whole number may stand as a JSON number or as a string of decimal
//! digits; both give the same `u32`. A confidence may stand as a JSON number
//! or as a string that holds one; both give the same bit pattern, brought
//! into the range from `0.0` to `1.0`. Members that no record asks for are
//! passed over.

use vstd::prelude::*;
use crate::json::{parse_json, parsed_json, Json, JsonNumber};
use crate::text::{decimal, digit, to_chars};
use crate::types::{AnimeInfo, CONFIDENCE_ONE};

verus! {

/// The value of the first member at or behind `from` that is called `key`.
pub open spec fn member_from(members: Seq<(String, Json)>, key: Seq<char>, from: int) -> Option<
    Json,
>
    decreases members.len() - from,
{
    if from < 0 || from >= members.len() {
        None
    } else if members[from].0@ == key {
        Some(members[from].1)
    } else {
        member_from(members, key, from + 1)
    }
}

/// The value of the member called `key`.
pub open spec fn member(members: Seq<(String, Json)>, key: Seq<char>) -> Option<Json> {
    member_from(members, key, 0)
}

/// The value of the member of `json` called `key`, where `json` is an object
/// that has one.
pub open spec fn field(json: Json, key: Seq<char>) -> Option<Json> {
    match json {
        Json::Object(members) => member(members@, key),
        _ => None,
    }
}

/// The characters of a JSON string.
pub open spec fn text_of(json: Json) -> Option<Seq<char>> {
    match json {
        Json::Text(s) => Some(s@),
        _ => None,
    }
}

/// Whether `c` is a decimal digit.
pub open spec fn is_digit(c: char) -> bool {
    '0' <= c <= '9'
}

/// Whether `s` holds decimal digits only.
pub open spec fn all_digits(s: Seq<char>) -> bool {
    forall|i: int| 0 <= i < s.len() ==> is_digit(#[trigger] s[i])
}

/// The number that the decimal digit `c` stands for.
pub open spec fn digit_value(c: char) -> nat {
    if is_digit(c) {
        (c as u32 - '0' as u32) as nat
    } else {
        0
    }
}

/// The number that the decimal digits of `s` stand for.
pub open spec fn digits_value(s: Seq<char>) -> nat
    decreases s.len(),
{
    if s.len() == 0 {
        0
    } else {
        digits_value(s.drop_last()) * 10 + digit_value(s.last())
    }
}

/// The whole number that a string stands for: the string holds one decimal
/// digit or more and nothing else, and the number fits in 32 bits.
pub open spec fn uint_of_text(s: Seq<char>) -> Option<u32> {
    if s.len() > 0 && all_digits(s) && digits_value(s) <= u32::MAX {
        Some(digits_value(s) as u32)
    } else {
        None
    }
}

/// The whole number that a JSON value stands for.
pub open spec fn uint_of(json: Json) -> Option<u32> {
    match json {
        Json::Number(n) => match n.unsigned {
            Some(v) => if v <= u32::MAX {
                Some(v as u32)
            } else {
                None
            },
            None => None,
        },
        Json::Text(s) => uint_of_text(s@),
        _ => None,
    }
}

/// The bit pattern of a float, brought into the range from `0.0` to `1.0`:
/// a pattern with the sign bit set stands for a negative float and gives
/// `0.0`, one above that of `1.0` gives `1.0`.
pub open spec fn clamped(bits: u64) -> u64 {
    if bits >= 0x8000_0000_0000_0000 {
        0
    } else if bits > CONFIDENCE_ONE {
        CONFIDENCE_ONE
    } else {
        bits
    }
}

/// The bit pattern of a JSON number read as a float.
pub open spec fn float_bits_of(json: Json) -> Option<u64> {
    match json {
        Json::Number(n) => n.bits,
        _ => None,
    }
}

/// The confidence that a JSON value stands for.
pub open spec fn confidence_of(json: Json) -> Option<u64> {
    let bits = match json {
        Json::Number(n) => n.bits,
        Json::Text(s) => match parsed_json(s@) {
            Some(inner) => float_bits_of(inner),
            None => None,
        },
        _ => None,
    };
    match bits {
        Some(b) => Some(clamped(b)),
        None => None,
    }
}

/// The strings of `items` from index `from` on, where all of them are
/// strings.
pub open spec fn texts_from(items: Seq<Json>, from: int) -> Option<Seq<Seq<char>>>
    decreases items.len() - from,
{
    if from < 0 || from >= items.len() {
        Some(Seq::empty())
    } else {
        match (text_of(items[from]), texts_from(items, from + 1)) {
            (Some(first), Some(rest)) => Some(seq![first] + rest),
            _ => None,
        }
    }
}

/// The strings of a JSON array that holds strings only.
pub open spec fn tags_of(json: Json) -> Option<Seq<Seq<char>>> {
    match json {
        Json::Array(items) => texts_from(items@, 0),
        _ => None,
    }
}

/// A string that may be left out: a missing member and `null` both stand
/// for none. The outer `None` says that the member holds something else.
pub open spec fn optional_text_of(value: Option<Json>) -> Option<Option<Seq<char>>> {
    match value {
        None => Some(None),
        Some(Json::Null) => Some(None),
        Some(Json::Text(s)) => Some(Some(s@)),
        Some(_) => None,
    }
}

/// The season that the member `season` stands for; `1` where it is missing.
pub open spec fn season_of(value: Option<Json>) -> Option<u32> {
    match value {
        None => Some(1),
        Some(json) => uint_of(json),
    }
}

/// A value that a record cannot do without.
pub open spec fn required<T>(value: Option<Json>, read: spec_fn(Json) -> Option<T>) -> Option<T> {
    match value {
        Some(json) => read(json),
        None => None,
    }
}

/// What an [`AnimeInfo`] holds.
pub struct Metadata {
    pub title: Seq<char>,
    pub season: u32,
    pub episode: u32,
    pub special_type: Option<Seq<char>>,
    pub resolution: Seq<char>,
    pub codec: Seq<char>,
    pub group: Seq<char>,
    pub language_tags: Seq<Seq<char>>,
    pub confidence: u64,
}

/// The characters of each string of `names`.
pub open spec fn tag_texts(names: Seq<String>) -> Seq<Seq<char>> {
    names.map_values(|s: String| s@)
}

impl View for AnimeInfo {
    type V = Metadata;

    open spec fn view(&self) -> Metadata {
        Metadata {
            title: self.title@,
            season: self.season,
            episode: self.episode,
            special_type: match self.special_type {
                Some(s) => Some(s@),
                None => None,
            },
            resolution: self.resolution@,
            codec: self.codec@,
            group: self.group@,
            language_tags: tag_texts(self.language_tags@),
            confidence: self.confidence,
        }
    }
}

/// The record that a JSON document stands for: an object whose members
/// `title`, `episode`, `resolution`, `codec`, `group`, `language_tags` and
/// `confidence` can each be read, whose `season` can be read where it is
/// there, and whose `special_type` is a string, `null` or missing.
pub open spec fn metadata_of(json: Json) -> Option<Metadata> {
    match json {
        Json::Object(members) => {
            let m = members@;
            match (
                required(member(m, "title"@), |j: Json| text_of(j)),
                season_of(member(m, "season"@)),
                required(member(m, "episode"@), |j: Json| uint_of(j)),
                optional_text_of(member(m, "special_type"@)),
                required(member(m, "resolution"@), |j: Json| text_of(j)),
                required(member(m, "codec"@), |j: Json| text_of(j)),
                required(member(m, "group"@), |j: Json| text_of(j)),
                required(member(m, "language_tags"@), |j: Json| tags_of(j)),
                required(member(m, "confidence"@), |j: Json| confidence_of(j)),
            ) {
                (
                    Some(title),
                    Some(season),
                    Some(episode),
                    Some(special_type),
                    Some(resolution),
                    Some(codec),
                    Some(group),
                    Some(language_tags),
                    Some(confidence),
                ) => Some(
                    Metadata {
                        title,
                        season,
                        episode,
                        special_type,
                        resolution,
                        codec,
                        group,
                        language_tags,
                        confidence,
                    },
                ),
                _ => None,
            }
        },
        _ => None,
    }
}

/// Looks up the member called `key`.
pub fn find_member<'a>(members: &'a Vec<(String, Json)>, key: &str) -> (r: Option<&'a Json>)
    ensures
        match r {
            Some(value) => member(members@, key@) == Some(*value),
            None => member(members@, key@) is None,
        },
{
    let wanted = key.to_owned();
    let mut i: usize = 0;
    while i < members.len()
        invariant
            i <= members.len(),
            wanted@ == key@,
            member(members@, key@) == member_from(members@, key@, i as int),
        decreases members.len() - i,
    {
        if members[i].0 == wanted {
            return Some(&members[i].1);
        }
        i += 1;
    }
    None
}

/// Reads a JSON string.
pub fn read_text(json: &Json) -> (r: Option<String>)
    ensures
        match r {
            Some(s) => text_of(*json) == Some(s@),
            None => text_of(*json) is None,
        },
{
    match json {
        Json::Text(s) => Some(s.clone()),
        _ => None,
    }
}

/// More digits never make a number smaller.
proof fn lemma_digits_value_grows(s: Seq<char>, n: int)
    requires
        0 <= n <= s.len(),
    ensures
        digits_value(s.take(n)) <= digits_value(s),
    decreases s.len() - n,
{
    if n < s.len() {
        lemma_digits_value_grows(s, n + 1);
        assert(s.take(n + 1).drop_last() =~= s.take(n));
    } else {
        assert(s.take(n) =~= s);
    }
}

/// Reads a whole number from decimal digits.
pub fn parse_uint(chars: &[char]) -> (r: Option<u32>)
    ensures
        r == uint_of_text(chars@),
{
    if chars.len() == 0 {
        return None;
    }
    let mut value: u64 = 0;
    let mut i: usize = 0;
    assert(chars@.take(0) =~= Seq::<char>::empty());
    while i < chars.len()
        invariant
            i <= chars.len(),
            all_digits(chars@.take(i as int)),
            value == digits_value(chars@.take(i as int)),
            value <= u32::MAX,
        decreases chars.len() - i,
    {
        let c = chars[i];
        if c < '0' || c > '9' {
            assert(!is_digit(chars@[i as int]));
            return None;
        }
        let d: u64 = (c as u32 - '0' as u32) as u64;
        assert(chars@.take(i + 1).drop_last() =~= chars@.take(i as int));
        assert(chars@.take(i + 1).last() == c);
        let next: u64 = value * 10 + d;
        assert(next == digits_value(chars@.take(i + 1)));
        if next > 0xFFFF_FFFF {
            proof {
                lemma_digits_value_grows(chars@, i + 1);
            }
            return None;
        }
        assert forall|j: int| 0 <= j < i + 1 implies is_digit(#[trigger] chars@.take(i + 1)[j]) by {
            if j < i {
                assert(chars@.take(i as int)[j] == chars@.take(i + 1)[j]);
            }
        }
        value = next;
        i += 1;
    }
    assert(chars@.take(i as int) =~= chars@);
    Some(value as u32)
}

/// Reads a whole number from a JSON number or from a string of digits.
pub fn read_uint(json: &Json) -> (r: Option<u32>)
    ensures
        r == uint_of(*json),
{
    match json {
        Json::Number(n) => match n.unsigned {
            Some(v) => if v <= 0xFFFF_FFFF {
                Some(v as u32)
            } else {
                None
            },
            None => None,
        },
        Json::Text(s) => {
            let chars = to_chars(s.as_str());
            parse_uint(chars.as_slice())
        },
        _ => None,
    }
}

/// Brings the bit pattern of a float into the range from `0.0` to `1.0`.
pub fn clamp_confidence(bits: u64) -> (r: u64)
    ensures
        r == clamped(bits),
        r <= CONFIDENCE_ONE,
{
    if bits >= 0x8000_0000_0000_0000 {
        0
    } else if bits > CONFIDENCE_ONE {
        CONFIDENCE_ONE
    } else {
        bits
    }
}

/// Reads a confidence from a JSON number or from a string that holds one.
pub fn read_confidence(json: &Json) -> (r: Option<u64>)
    ensures
        r == confidence_of(*json),
        r matches Some(bits) ==> bits <= CONFIDENCE_ONE,
{
    let bits = match json {
        Json::Number(n) => n.bits,
        Json::Text(s) => match parse_json(s.as_str()) {
            Some(Json::Number(n)) => n.bits,
            _ => None,
        },
        _ => None,
    };
    match bits {
        Some(b) => Some(clamp_confidence(b)),
        None => None,
    }
}

/// Reads the strings of a JSON array that holds strings only.
pub fn read_tags(json: &Json) -> (r: Option<Vec<String>>)
    ensures
        match r {
            Some(tags) => tags_of(*json) == Some(tag_texts(tags@)),
            None => tags_of(*json) is None,
        },
{
    match json {
        Json::Array(items) => {
            let mut tags: Vec<String> = Vec::new();
            let mut i: usize = 0;
            assert(tag_texts(tags@) =~= Seq::<Seq<char>>::empty());
            while i < items.len()
                invariant
                    i <= items.len(),
                    tags_of(*json) == texts_from(items@, 0),
                    match texts_from(items@, i as int) {
                        Some(rest) => texts_from(items@, 0) == Some(tag_texts(tags@) + rest),
                        None => texts_from(items@, 0) is None,
                    },
                decreases items.len() - i,
            {
                match &items[i] {
                    Json::Text(s) => {
                        let ghost before = tag_texts(tags@);
                        tags.push(s.clone());
                        proof {
                            assert(tag_texts(tags@) =~= before.push(s@));
                            if texts_from(items@, i + 1) is Some {
                                let rest = texts_from(items@, i + 1)->0;
                                assert(before + (seq![s@] + rest) =~= before.push(s@) + rest);
                            }
                        }
                    },
                    _ => {
                        proof {
                            lemma_texts_from_fails(items@, 0, i as int);
                        }
                        return None;
                    },
                }
                i += 1;
            }
            assert(tag_texts(tags@) + Seq::<Seq<char>>::empty() =~= tag_texts(tags@));
            Some(tags)
        },
        _ => None,
    }
}

/// An item that is no string spoils every reading that reaches it.
proof fn lemma_texts_from_fails(items: Seq<Json>, from: int, at: int)
    requires
        0 <= from <= at < items.len(),
        text_of(items[at]) is None,
    ensures
        texts_from(items, from) is None,
    decreases at - from,
{
    if from < at {
        lemma_texts_from_fails(items, from + 1, at);
    }
}

/// Reads a string that a record cannot do without.
fn read_required_text(members: &Vec<(String, Json)>, key: &str) -> (r: Option<String>)
    ensures
        match r {
            Some(s) => required(member(members@, key@), |j: Json| text_of(j)) == Some(s@),
            None => required(member(members@, key@), |j: Json| text_of(j)) is None,
        },
{
    match find_member(members, key) {
        Some(value) => read_text(value),
        None => None,
    }
}

/// Reads a string that may be left out.
fn read_optional_text(members: &Vec<(String, Json)>, key: &str) -> (r: Option<Option<String>>)
    ensures
        match r {
            Some(Some(s)) => optional_text_of(member(members@, key@)) == Some(Some(s@)),
            Some(None) => optional_text_of(member(members@, key@)) == Some(
                None::<Seq<char>>,
            ),
            None => optional_text_of(member(members@, key@)) is None,
        },
{
    match find_member(members, key) {
        None => Some(None),
        Some(Json::Null) => Some(None),
        Some(Json::Text(s)) => Some(Some(s.clone())),
        Some(_) => None,
    }
}

/// Reads the record that `json` stands for.
///
/// The answer is `Some` exactly where `json` is an object that holds every
/// member a record needs, each in a form that can be read.
pub fn decode_metadata(json: &Json) -> (r: Option<AnimeInfo>)
    ensures
        match r {
            Some(info) => metadata_of(*json) == Some(info@) && info.well_formed(),
            None => metadata_of(*json) is None,
        },
{
    let members = match json {
        Json::Object(members) => members,
        _ => {
            return None;
        },
    };
    let title = match read_required_text(members, "title") {
        Some(v) => v,
        None => {
            return None;
        },
    };
    let season = match find_member(members, "season") {
        Some(value) => match read_uint(value) {
            Some(v) => v,
            None => {
                return None;
            },
        },
        None => 1,
    };
    let episode = match find_member(members, "episode") {
        Some(value) => match read_uint(value) {
            Some(v) => v,
            None => {
                return None;
            },
        },
        None => {
            return None;
        },
    };
    let special_type = match read_optional_text(members, "special_type") {
        Some(v) => v,
        None => {
            return None;
        },
    };
    let resolution = match read_required_text(members, "resolution") {
        Some(v) => v,
        None => {
            return None;
        },
    };
    let codec = match read_required_text(members, "codec") {
        Some(v) => v,
        None => {
            return None;
        },
    };
    let group = match read_required_text(members, "group") {
        Some(v) => v,
        None => {
            return None;
        },
    };
    let language_tags = match find_member(members, "language_tags") {
        Some(value) => match read_tags(value) {
            Some(v) => v,
            None => {
                return None;
            },
        },
        None => {
            return None;
        },
    };
    let confidence = match find_member(members, "confidence") {
        Some(value) => match read_confidence(value) {
            Some(v) => v,
            None => {
                return None;
            },
        },
        None => {
            return None;
        },
    };
    Some(
        AnimeInfo {
            title,
            season,
            episode,
            special_type,
            resolution,
            codec,
            group,
            language_tags,
            confidence,
        },
    )
}

/// A whole number reads the same from its decimal digits as from itself:
/// the digits of `n` are digits only and stand for `n`.
pub proof fn lemma_decimal_reads_back(n: nat)
    ensures
        decimal(n).len() > 0,
        all_digits(decimal(n)),
        digits_value(decimal(n)) == n,
    decreases n,
{
    if n < 10 {
        let s = decimal(n);
        assert(s.drop_last() =~= Seq::<char>::empty());
        assert(digits_value(s.drop_last()) == 0);
        assert(digit_value(digit(n)) == n);
    } else {
        lemma_decimal_reads_back(n / 10);
        let front = decimal(n / 10);
        let s = decimal(n);
        assert(s.drop_last() =~= front);
        assert(digit_value(digit(n % 10)) == n % 10);
        assert forall|i: int| 0 <= i < s.len() implies is_digit(#[trigger] s[i]) by {
            if i < front.len() {
                assert(s[i] == front[i]);
            }
        }
    }
}

/// A whole number that fits in 32 bits is read as the same value whether it
/// stands as a JSON number or as the string of its decimal digits.
pub proof fn lemma_number_and_string_agree(value: u32, number: JsonNumber, text: String)
    requires
        number.unsigned == Some(value as u64),
        text@ == decimal(value as nat),
    ensures
        uint_of(Json::Number(number)) == Some(value),
        uint_of(Json::Text(text)) == Some(value),
{
    lemma_decimal_reads_back(value as nat);
}

/// A confidence that is read lies between `0.0` and `1.0`, and one that
/// lay there as it stood is read unchanged.
pub proof fn lemma_confidence_is_clamped(bits: u64)
    ensures
        clamped(bits) <= CONFIDENCE_ONE,
        bits <= CONFIDENCE_ONE ==> clamped(bits) == bits,
{
}

/// Each field of a record that was read is what the member of its name
/// holds; the season is `1` where the document has no such member.
pub proof fn lemma_record_holds_its_members(json: Json, record: Metadata)
    requires
        metadata_of(json) == Some(record),
    ensures
        field(json, "title"@) matches Some(v) && text_of(v) == Some(record.title),
        season_of(field(json, "season"@)) == Some(record.season),
        field(json, "season"@) is None ==> record.season == 1,
        field(json, "episode"@) matches Some(v) && uint_of(v) == Some(record.episode),
        optional_text_of(field(json, "special_type"@)) == Some(record.special_type),
        field(json, "resolution"@) matches Some(v) && text_of(v) == Some(record.resolution),
        field(json, "codec"@) matches Some(v) && text_of(v) == Some(record.codec),
        field(json, "group"@) matches Some(v) && text_of(v) == Some(record.group),
        field(json, "language_tags"@) matches Some(v) && tags_of(v) == Some(
            record.language_tags,
        ),
        field(json, "confidence"@) matches Some(v) && confidence_of(v) == Some(
            record.confidence,
        ),
        record.confidence <= CONFIDENCE_ONE,
{
}

/// Two objects that hold the same under the names a record asks for stand
/// for the same record, whatever else they hold.
pub proof fn lemma_other_members_are_passed_over(a: Json, b: Json)
    requires
        a is Object,
        b is Object,
        field(a, "title"@) == field(b, "title"@),
        field(a, "season"@) == field(b, "season"@),
        field(a, "episode"@) == field(b, "episode"@),
        field(a, "special_type"@) == field(b, "special_type"@),
        field(a, "resolution"@) == field(b, "resolution"@),
        field(a, "codec"@) == field(b, "codec"@),
        field(a, "group"@) == field(b, "group"@),
        field(a, "language_tags"@) == field(b, "language_tags"@),
        field(a, "confidence"@) == field(b, "confidence"@),
    ensures
        metadata_of(a) == metadata_of(b),
{
}

} // verus!

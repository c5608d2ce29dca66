use subtitle_renamer::extract::{
    extract, extract_batch, strip_reasoning, unfence, BatchMetadataGuess, ExtractionError,
};
use subtitle_renamer::json::{parse_json, Json, JsonNumber};
use subtitle_renamer::schema::{
    clamp_confidence, decode_metadata, find_member, parse_uint, read_confidence, read_tags,
    read_text, read_uint,
};
use subtitle_renamer::types::{AnimeInfo, CONFIDENCE_ONE};

const FULL: &str = "{\"title\": \"Kono Healer\", \"season\": 2, \"episode\": 5, \"special_type\": \"OVA\", \"resolution\": \"1080p\", \"codec\": \"HEVC\", \"group\": \"VCB-Studio\", \"language_tags\": [\"chs\", \"jpn\"], \"confidence\": 0.5}";

fn full_record() -> AnimeInfo {
    AnimeInfo {
        title: "Kono Healer".to_string(),
        season: 2,
        episode: 5,
        special_type: Some("OVA".to_string()),
        resolution: "1080p".to_string(),
        codec: "HEVC".to_string(),
        group: "VCB-Studio".to_string(),
        language_tags: vec!["chs".to_string(), "jpn".to_string()],
        confidence: 0.5f64.to_bits(),
    }
}

fn number(text: &str) -> Json {
    parse_json(text).unwrap()
}

#[test]
fn test_regex() {
    let test_content = "\n    <seed:think>\n用户现在需要我分析这些文件名，找出共同的动画标题。首先看所有文件名，每个文件开头都是“[VCB-Studio] Kono Healer, Mendokusai [集数]...”，对吧？那根据规则，要忽略压制组（VCB-Studio）、集数（01到10）、分辨率（1080p）、编码格式（x265_flac）这些信息，提取共同的关键词。\n\n首先，“Kono Healer, Mendokusai”这个是每个文件里都有的，而且是在压制组和集数之间的部分，应该就是动画标题了。然后看规则，优先简体中文，但这里没有中文，所以看日文或英文，“Kono Healer, Mendokusai”看起来是日文罗马音或者混有英文的标题，比如“Kono”是“这个”的意思，“Healer”是治疗师，“Mendokusai”是麻烦的，可能就是动画的原名。\n\n然后置信度方面，所有10个文件都包含“Kono Healer, Mendokusai”这个字符串，没有例外，所以匹配程度非常高，应该是1.0吗？还是说 有没有可能有其他情况？比如有没有可能标题有简称，但这里所有文件都完全一致，所以置信度应该是最高的，1.0？不过通常可能不会到1.0？但根据规则，基于文件名相似度和关键词匹配程度，所有文件都完全匹配这个关键词，所以置信度应该是1.0？\n\n等等，再确认一下，每个文件名的结构：[压制组] 标题 [集数][其他信息]，所以标题就是“Kono Healer, Mendokusai”。没有简体中文标题，所以用这个英文/日文混合的标题。那结果就是动画标题是“Kono Healer, Mendokusai”，置信度1.0？</seed:think>{\"anime_title\": \"Kono Healer, Mendokusai\", \"confidence\": 1.0}";
    println!("{}", test_content);
    println!("\n{}", "=".repeat(50));
    let cleaned_content = strip_reasoning(test_content);
    println!("{}", cleaned_content);
    println!("\n{}", "=".repeat(50));
    assert_eq!(
        cleaned_content,
        "\n    {\"anime_title\": \"Kono Healer, Mendokusai\", \"confidence\": 1.0}"
    );
    match parse_json(&cleaned_content) {
        Some(Json::Object(members)) => {
            assert_eq!(members.len(), 2);
            assert_eq!(
                find_member(&members, "anime_title"),
                Some(&Json::Text("Kono Healer, Mendokusai".to_string()))
            );
        }
        other => panic!("not an object: {:?}", other),
    }
}

#[test]
fn strip_removes_a_segment_that_spans_lines() {
    let text = "<seed:think>a\nb</seed:think>{\"title\": \"x\"}";
    assert_eq!(strip_reasoning(text), "{\"title\": \"x\"}");
}

#[test]
fn strip_removes_every_segment_and_only_the_shortest() {
    let text = "a<seed:think>1</seed:think>b<seed:think>2</seed:think>c</seed:think>d";
    assert_eq!(strip_reasoning(text), "abc</seed:think>d");
}

#[test]
fn strip_leaves_an_unclosed_segment() {
    assert_eq!(strip_reasoning("a<seed:think>b"), "a<seed:think>b");
    assert_eq!(strip_reasoning("a</seed:think>b<seed:think>"), "a</seed:think>b<seed:think>");
    assert_eq!(strip_reasoning(""), "");
}

#[test]
fn strip_takes_an_opening_marker_inside_a_segment_along() {
    assert_eq!(strip_reasoning("x<seed:think><seed:think>y</seed:think>z"), "xz");
}

#[test]
fn unfence_takes_the_fence_off() {
    assert_eq!(unfence("```json\n{\"a\": 1}\n```"), "{\"a\": 1}");
    assert_eq!(unfence("  ```\n{\"a\": 1}\n```  \n"), "{\"a\": 1}");
    assert_eq!(unfence("{\"a\": 1}"), "{\"a\": 1}");
    assert_eq!(unfence("``````json x ``````"), "json x");
    assert_eq!(unfence("```json```json```x"), "x");
    assert_eq!(unfence("\u{3000}x\u{a0}"), "x");
    assert_eq!(unfence("```"), "");
    assert_eq!(unfence(""), "");
}

#[test]
fn parse_reads_an_object() {
    match parse_json("{\"b\": 1, \"a\": \"x\"}") {
        Some(Json::Object(members)) => {
            assert_eq!(members.len(), 2);
            assert_eq!(find_member(&members, "a"), Some(&Json::Text("x".to_string())));
            assert_eq!(
                find_member(&members, "b"),
                Some(&Json::Number(JsonNumber {
                    unsigned: Some(1),
                    signed: Some(1),
                    bits: Some(1.0f64.to_bits()),
                }))
            );
            assert_eq!(find_member(&members, "c"), None);
        }
        other => panic!("not an object: {:?}", other),
    }
}

#[test]
fn parse_reads_every_kind_of_value() {
    assert_eq!(parse_json("null"), Some(Json::Null));
    assert_eq!(parse_json(" true "), Some(Json::Bool(true)));
    assert_eq!(parse_json("\"a\""), Some(Json::Text("a".to_string())));
    assert_eq!(
        parse_json("[null, [false]]"),
        Some(Json::Array(vec![Json::Null, Json::Array(vec![Json::Bool(false)])]))
    );
    assert_eq!(
        parse_json("-3"),
        Some(Json::Number(JsonNumber {
            unsigned: None,
            signed: Some(-3),
            bits: Some((-3.0f64).to_bits()),
        }))
    );
    assert_eq!(
        parse_json("0.25"),
        Some(Json::Number(JsonNumber { unsigned: None, signed: None, bits: Some(0.25f64.to_bits()) }))
    );
}

#[test]
fn parse_refuses_what_is_not_json() {
    assert_eq!(parse_json(""), None);
    assert_eq!(parse_json("```json\n{}\n```"), None);
    assert_eq!(parse_json("`"), None);
    assert_eq!(parse_json("{} x"), None);
    assert_eq!(parse_json("01"), None);
}

#[test]
fn uint_from_digits() {
    let digits = |s: &str| parse_uint(&s.chars().collect::<Vec<char>>());
    assert_eq!(digits("0"), Some(0));
    assert_eq!(digits("05"), Some(5));
    assert_eq!(digits("12"), Some(12));
    assert_eq!(digits("4294967295"), Some(4294967295));
    assert_eq!(digits("4294967296"), None);
    assert_eq!(digits("99999999999999999999999"), None);
    assert_eq!(digits(""), None);
    assert_eq!(digits("+5"), None);
    assert_eq!(digits("-5"), None);
    assert_eq!(digits(" 5"), None);
    assert_eq!(digits("5a"), None);
    assert_eq!(digits("\u{664}"), None);
}

#[test]
fn uint_from_number_and_from_string_agree() {
    assert_eq!(read_uint(&number("7")), Some(7));
    assert_eq!(read_uint(&Json::Text("7".to_string())), Some(7));
    assert_eq!(read_uint(&Json::Text("07".to_string())), Some(7));
    assert_eq!(read_uint(&number("4294967295")), Some(4294967295));
    assert_eq!(read_uint(&number("4294967296")), None);
    assert_eq!(read_uint(&number("-1")), None);
    assert_eq!(read_uint(&number("1.0")), None);
    assert_eq!(read_uint(&Json::Null), None);
    assert_eq!(read_uint(&Json::Bool(true)), None);
}

#[test]
fn confidence_is_clamped() {
    assert_eq!(clamp_confidence(0.5f64.to_bits()), 0.5f64.to_bits());
    assert_eq!(clamp_confidence(0.0f64.to_bits()), 0);
    assert_eq!(clamp_confidence(1.0f64.to_bits()), CONFIDENCE_ONE);
    assert_eq!(clamp_confidence(1.5f64.to_bits()), CONFIDENCE_ONE);
    assert_eq!(clamp_confidence(1e300f64.to_bits()), CONFIDENCE_ONE);
    assert_eq!(clamp_confidence((-0.25f64).to_bits()), 0);
    assert_eq!(clamp_confidence((-0.0f64).to_bits()), 0);
    assert_eq!(f64::from_bits(CONFIDENCE_ONE), 1.0);
}

#[test]
fn confidence_from_number_and_from_string_agree() {
    assert_eq!(read_confidence(&number("0.9")), Some(0.9f64.to_bits()));
    assert_eq!(read_confidence(&Json::Text("0.9".to_string())), Some(0.9f64.to_bits()));
    assert_eq!(read_confidence(&number("1")), Some(CONFIDENCE_ONE));
    assert_eq!(read_confidence(&number("7")), Some(CONFIDENCE_ONE));
    assert_eq!(read_confidence(&Json::Text("-2".to_string())), Some(0));
    assert_eq!(read_confidence(&Json::Text("high".to_string())), None);
    assert_eq!(read_confidence(&Json::Text("\"0.9\"".to_string())), None);
    assert_eq!(read_confidence(&Json::Null), None);
}

#[test]
fn tags_must_all_be_strings() {
    assert_eq!(read_tags(&number("[]")), Some(vec![]));
    assert_eq!(
        read_tags(&number("[\"a\", \"b\", \"a\"]")),
        Some(vec!["a".to_string(), "b".to_string(), "a".to_string()])
    );
    assert_eq!(read_tags(&number("[\"a\", 1]")), None);
    assert_eq!(read_tags(&number("\"a\"")), None);
    assert_eq!(read_text(&number("\"a\"")), Some("a".to_string()));
    assert_eq!(read_text(&number("1")), None);
}

#[test]
fn extract_reads_a_plain_document() {
    assert_eq!(extract(FULL), Ok(full_record()));
}

#[test]
fn extract_defaults_the_season_to_one() {
    let text = "{\"title\": \"t\", \"episode\": \"03\", \"resolution\": \"\", \"codec\": \"AVC\", \"group\": \"g\", \"language_tags\": [], \"confidence\": \"0.75\"}";
    let info = extract(text).unwrap();
    assert_eq!(info.season, 1);
    assert_eq!(info.episode, 3);
    assert_eq!(info.special_type, None);
    assert_eq!(info.confidence, 0.75f64.to_bits());
    assert_eq!(info.language_tags, Vec::<String>::new());
}

#[test]
fn extract_reads_behind_reasoning_and_inside_a_fence() {
    let reasoned = format!("<seed:think>let me\nthink</seed:think>{}", FULL);
    assert_eq!(extract(&reasoned), Ok(full_record()));
    let fenced = format!("<seed:think>let me\nthink</seed:think>```json\n{}\n```", FULL);
    assert_eq!(extract(&fenced), Ok(full_record()));
    let bare_fence = format!("```\n{}\n```\n", FULL);
    assert_eq!(extract(&bare_fence), Ok(full_record()));
}

#[test]
fn extract_passes_over_members_it_does_not_know() {
    let text = FULL.replacen("{", "{\"note\": [1, {\"x\": null}], ", 1);
    assert_eq!(extract(&text), Ok(full_record()));
}

#[test]
fn extract_clamps_the_confidence() {
    let high = FULL.replace("0.5", "3.5");
    assert_eq!(extract(&high).unwrap().confidence, CONFIDENCE_ONE);
    let low = FULL.replace("0.5", "-3.5");
    assert_eq!(extract(&low).unwrap().confidence, 0);
}

#[test]
fn extract_takes_null_for_no_special_type() {
    let text = FULL.replace("\"OVA\"", "null");
    assert_eq!(extract(&text).unwrap().special_type, None);
    let wrong = FULL.replace("\"OVA\"", "3");
    assert_eq!(extract(&wrong), Err(ExtractionError::SchemaMismatch(wrong.clone())));
}

#[test]
fn extract_keeps_the_answer_it_could_not_read() {
    for raw in [
        "",
        "no json here",
        "<seed:think>x</seed:think>still none",
        "{\"title\": \"only a title\"}",
        "[1, 2]",
        "```json\n{\"title\": 1}\n```",
    ] {
        assert_eq!(extract(raw), Err(ExtractionError::SchemaMismatch(raw.to_string())));
    }
    let no_episode = FULL.replace("\"episode\": 5, ", "");
    assert_eq!(extract(&no_episode), Err(ExtractionError::SchemaMismatch(no_episode.clone())));
    let bad_season = FULL.replace("\"season\": 2", "\"season\": \"two\"");
    assert_eq!(extract(&bad_season), Err(ExtractionError::SchemaMismatch(bad_season.clone())));
}

#[test]
fn decode_reads_a_document_built_by_hand() {
    let json = Json::Object(vec![
        ("title".to_string(), Json::Text("t".to_string())),
        ("episode".to_string(), Json::Text("12".to_string())),
        ("resolution".to_string(), Json::Text("720p".to_string())),
        ("codec".to_string(), Json::Text("AVC".to_string())),
        ("group".to_string(), Json::Text("g".to_string())),
        ("language_tags".to_string(), Json::Array(vec![Json::Text("chs".to_string())])),
        (
            "confidence".to_string(),
            Json::Number(JsonNumber { unsigned: None, signed: None, bits: Some(2.0f64.to_bits()) }),
        ),
    ]);
    let info = decode_metadata(&json).unwrap();
    assert_eq!(info.title, "t");
    assert_eq!(info.season, 1);
    assert_eq!(info.episode, 12);
    assert_eq!(info.language_tags, vec!["chs".to_string()]);
    assert_eq!(info.confidence, CONFIDENCE_ONE);
    assert_eq!(decode_metadata(&Json::Null), None);
    assert_eq!(decode_metadata(&Json::Object(vec![])), None);
}

#[test]
fn batch_of_nothing_is_refused() {
    assert_eq!(extract_batch(&vec![], "{\"title\": \"x\"}"), Err(ExtractionError::EmptyInput));
    assert_eq!(extract_batch(&vec![], ""), Err(ExtractionError::EmptyInput));
}

#[test]
fn batch_reads_the_title_alone() {
    let names = vec!["a.mkv".to_string(), "b.mkv".to_string()];
    assert_eq!(
        extract_batch(&names, "{\"title\": \"Kono Healer\"}"),
        Ok(BatchMetadataGuess { title: "Kono Healer".to_string() })
    );
    assert_eq!(
        extract_batch(&names, "<seed:think>hm</seed:think>```json\n{\"title\": \"K\", \"confidence\": 1}\n```"),
        Ok(BatchMetadataGuess { title: "K".to_string() })
    );
    assert_eq!(
        extract_batch(&names, "{\"anime_title\": \"K\"}"),
        Err(ExtractionError::SchemaMismatch("{\"anime_title\": \"K\"}".to_string()))
    );
}

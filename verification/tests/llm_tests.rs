use subtitle_renamer::extract::{BatchMetadataGuess, ExtractionError};
use subtitle_renamer::json::parse_json;
use subtitle_renamer::llm_recognition::{
    analysis_message, analyze_reply, batch_message, batch_reply, describe_error, read_reply,
    reply_content, to_batch_response, to_response, ANALYSIS_PROMPT, BATCH_PROMPT,
};

fn envelope(content: &str) -> String {
    let escaped = content.replace('\\', "\\\\").replace('"', "\\\"").replace('\n', "\\n");
    format!("{{\"choices\": [{{\"message\": {{\"role\": \"assistant\", \"content\": \"{}\"}}}}]}}", escaped)
}

const RECORD: &str = "{\"title\": \"t\", \"episode\": 1, \"resolution\": \"r\", \"codec\": \"c\", \"group\": \"g\", \"language_tags\": [], \"confidence\": 1}";

#[test]
fn content_is_read_from_the_first_choice() {
    let body = parse_json("{\"choices\": [{\"message\": {\"content\": \"one\"}}, {\"message\": {\"content\": \"two\"}}]}").unwrap();
    assert_eq!(reply_content(&body), Some("one".to_string()));
}

#[test]
fn content_may_be_missing() {
    for text in [
        "{}",
        "[]",
        "{\"choices\": []}",
        "{\"choices\": {}}",
        "{\"choices\": [{}]}",
        "{\"choices\": [{\"message\": {}}]}",
        "{\"choices\": [{\"message\": {\"content\": null}}]}",
        "{\"choices\": [{\"message\": {\"content\": 3}}]}",
    ] {
        assert_eq!(reply_content(&parse_json(text).unwrap()), None);
        assert_eq!(
            read_reply(200, text),
            Err(ExtractionError::NetworkError("无法从LLM响应中获取内容".to_string()))
        );
    }
}

#[test]
fn status_is_looked_at_first() {
    assert_eq!(read_reply(404, &envelope("x")), Err(ExtractionError::BadStatus(404)));
    assert_eq!(read_reply(199, "not json"), Err(ExtractionError::BadStatus(199)));
    assert_eq!(read_reply(300, "not json"), Err(ExtractionError::BadStatus(300)));
    assert_eq!(read_reply(200, &envelope("x")), Ok("x".to_string()));
    assert_eq!(read_reply(299, &envelope("x")), Ok("x".to_string()));
    assert_eq!(
        read_reply(200, "not json"),
        Err(ExtractionError::NetworkError("解析LLM响应失败".to_string()))
    );
}

#[test]
fn analysis_reads_the_record_in_the_content() {
    let info = analyze_reply(200, &envelope(RECORD)).unwrap();
    assert_eq!(info.title, "t");
    assert_eq!(info.season, 1);
    let wrapped = format!("<seed:think>a\nb</seed:think>```json\n{}\n```", RECORD);
    assert_eq!(analyze_reply(200, &envelope(&wrapped)), Ok(info));
    assert_eq!(
        analyze_reply(200, &envelope("nothing")),
        Err(ExtractionError::SchemaMismatch("nothing".to_string()))
    );
    assert_eq!(analyze_reply(500, &envelope(RECORD)), Err(ExtractionError::BadStatus(500)));
}

#[test]
fn batch_reply_of_nothing_is_refused_unread() {
    assert_eq!(batch_reply(&vec![], 500, "junk"), Err(ExtractionError::EmptyInput));
    let names = vec!["a.mkv".to_string()];
    assert_eq!(batch_reply(&names, 500, "junk"), Err(ExtractionError::BadStatus(500)));
    assert_eq!(
        batch_reply(&names, 200, &envelope("{\"title\": \"T\"}")),
        Ok(BatchMetadataGuess { title: "T".to_string() })
    );
}

#[test]
fn messages_name_the_files() {
    assert_eq!(analysis_message("a.mkv"), "这是视频文件名，请提取相关信息：a.mkv");
    assert_eq!(batch_message(&vec![]), Err(ExtractionError::EmptyInput));
    assert_eq!(
        batch_message(&vec!["a.mkv".to_string()]),
        Ok("以下是文件名，请推测对应的同一部动画标题：\na.mkv".to_string())
    );
    assert_eq!(
        batch_message(&vec!["a.mkv".to_string(), "b.mkv".to_string(), "c.mkv".to_string()]),
        Ok("以下是文件名，请推测对应的同一部动画标题：\na.mkv\nb.mkv\nc.mkv".to_string())
    );
    assert!(ANALYSIS_PROMPT.contains("\"title\": \"完整标题\""));
    assert!(BATCH_PROMPT.ends_with("仅返回 JSON，不要任何其他文字。\n"));
}

#[test]
fn errors_are_told_in_words() {
    assert_eq!(
        describe_error(&ExtractionError::BadStatus(404)),
        "LLM模型返回错误状态码: 404 Not Found"
    );
    assert_eq!(
        describe_error(&ExtractionError::BadStatus(299)),
        "LLM模型返回错误状态码: 299 <unknown status code>"
    );
    assert_eq!(describe_error(&ExtractionError::BadStatus(99)), "LLM模型返回错误状态码: 99");
    assert_eq!(describe_error(&ExtractionError::BadStatus(1000)), "LLM模型返回错误状态码: 1000");
    assert_eq!(
        describe_error(&ExtractionError::SchemaMismatch("raw".to_string())),
        "解析LLM响应格式失败: raw"
    );
    assert_eq!(describe_error(&ExtractionError::EmptyInput), "文件列表为空");
    assert_eq!(describe_error(&ExtractionError::NetworkError("down".to_string())), "down");
}

#[test]
fn responses_report_what_could_not_be_used() {
    let info = analyze_reply(200, &envelope(RECORD)).unwrap();
    let ok = to_response(Ok(info.clone())).unwrap();
    assert!(ok.success);
    assert_eq!(ok.data, Some(info));
    assert_eq!(ok.error, None);
    let bad = to_response(Err(ExtractionError::BadStatus(503))).unwrap();
    assert!(!bad.success);
    assert_eq!(bad.data, None);
    assert_eq!(bad.error, Some("LLM模型返回错误状态码: 503 Service Unavailable".to_string()));
    assert_eq!(
        to_response(Err(ExtractionError::NetworkError("down".to_string()))),
        Err("down".to_string())
    );
    let empty = to_batch_response(Err(ExtractionError::EmptyInput)).unwrap();
    assert!(!empty.success);
    assert_eq!(empty.error, Some("文件列表为空".to_string()));
    let guess = BatchMetadataGuess { title: "T".to_string() };
    assert_eq!(to_batch_response(Ok(guess.clone())).unwrap().data, Some(guess));
}

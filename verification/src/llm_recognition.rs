//! What to send to a chat-style model, and what to make of its reply.
//!
//! The caller does the sending; here a reply arrives as its status and its
//! body.

use vstd::prelude::*;
use crate::extract::{
    extract, extract_batch, extraction, title_extraction, BatchMetadataGuess, ExtractionError,
};
use crate::json::{parse_json, parsed_json, Json};
use crate::schema::{field, find_member};
use crate::text::{append_decimal, append_text, decimal, to_text};
use crate::types::{AnimeInfo, LLMResponse};

verus! {

/// The file names to analyse together, and the model to ask.
#[derive(Clone, Debug, PartialEq, Eq)]
pub struct BatchLLMRequest {
    pub filenames: Vec<String>,
    pub model_url: String,
    pub model_name: String,
}

/// The answer to a batch request.
#[derive(Clone, Debug, PartialEq, Eq)]
pub struct BatchLLMResponse {
    pub success: bool,
    pub data: Option<BatchMetadataGuess>,
    pub error: Option<String>,
}

/// Whether `status` says that the request succeeded.
pub open spec fn is_success(status: u16) -> bool {
    200 <= status <= 299
}

/// The first item of a JSON array.
pub open spec fn first_item(json: Option<Json>) -> Option<Json> {
    match json {
        Some(Json::Array(items)) => if items.len() > 0 {
            Some(items[0])
        } else {
            None
        },
        _ => None,
    }
}

/// The member called `key` of a value that may be missing.
pub open spec fn field_of(json: Option<Json>, key: Seq<char>) -> Option<Json> {
    match json {
        Some(value) => field(value, key),
        None => None,
    }
}

/// The text that a reply carries: the string under `choices`, first item,
/// `message`, `content`.
pub open spec fn content_of(body: Json) -> Option<Seq<char>> {
    match field_of(field_of(first_item(field(body, "choices"@)), "message"@), "content"@) {
        Some(Json::Text(s)) => Some(s@),
        _ => None,
    }
}

/// Looks up the member of `json` called `key`.
pub fn get_field<'a>(json: &'a Json, key: &str) -> (r: Option<&'a Json>)
    ensures
        match r {
            Some(value) => field(*json, key@) == Some(*value),
            None => field(*json, key@) is None,
        },
{
    match json {
        Json::Object(members) => find_member(members, key),
        _ => None,
    }
}

/// Reads the text that a reply carries.
pub fn reply_content(body: &Json) -> (r: Option<String>)
    ensures
        match r {
            Some(content) => content_of(*body) == Some(content@),
            None => content_of(*body) is None,
        },
{
    let choices = match get_field(body, "choices") {
        Some(Json::Array(items)) => items,
        _ => {
            return None;
        },
    };
    if choices.len() == 0 {
        return None;
    }
    let message = match get_field(&choices[0], "message") {
        Some(value) => value,
        None => {
            return None;
        },
    };
    match get_field(message, "content") {
        Some(Json::Text(s)) => Some(s.clone()),
        _ => None,
    }
}

/// What is said of a body that is not JSON.
pub open spec fn unreadable_body() -> Seq<char> {
    "解析LLM响应失败"@
}

/// What is said of a body without content.
pub open spec fn missing_content() -> Seq<char> {
    "无法从LLM响应中获取内容"@
}

/// Whether `r` is what a reply of this status and body comes to: the status
/// is looked at first, then the body is parsed, then its content is taken.
pub open spec fn reads_as(
    status: u16,
    body: Seq<char>,
    r: Result<String, ExtractionError>,
) -> bool {
    match r {
        Ok(content) => {
            &&& is_success(status)
            &&& parsed_json(body) matches Some(json)
            &&& content_of(json) == Some(content@)
        },
        Err(ExtractionError::BadStatus(code)) => !is_success(status) && code == status,
        Err(ExtractionError::NetworkError(why)) => {
            &&& is_success(status)
            &&& match parsed_json(body) {
                Some(json) => content_of(json) is None && why@ == missing_content(),
                None => why@ == unreadable_body(),
            }
        },
        Err(_) => false,
    }
}

/// The content of a reply that succeeded and carries one.
pub open spec fn reply_text(status: u16, body: Seq<char>) -> Option<Seq<char>> {
    if is_success(status) {
        match parsed_json(body) {
            Some(json) => content_of(json),
            None => None,
        }
    } else {
        None
    }
}

/// Takes the content out of a reply.
pub fn read_reply(status: u16, body: &str) -> (r: Result<String, ExtractionError>)
    ensures
        reads_as(status, body@, r),
{
    if status < 200 || status > 299 {
        return Err(ExtractionError::BadStatus(status));
    }
    match parse_json(body) {
        Some(json) => match reply_content(&json) {
            Some(content) => Ok(content),
            None => Err(ExtractionError::NetworkError("无法从LLM响应中获取内容".to_owned())),
        },
        None => Err(ExtractionError::NetworkError("解析LLM响应失败".to_owned())),
    }
}

/// Reads a record out of the reply to an analysis request: the error of a
/// reply without content, or else what the content gives.
pub fn analyze_reply(status: u16, body: &str) -> (r: Result<AnimeInfo, ExtractionError>)
    ensures
        match r {
            Ok(info) => {
                &&& reply_text(status, body@) matches Some(content)
                &&& extraction(content) == Some(info@)
                &&& info.well_formed()
            },
            Err(ExtractionError::SchemaMismatch(kept)) => {
                &&& reply_text(status, body@) matches Some(content)
                &&& extraction(content) is None
                &&& kept@ == content
            },
            Err(error) => reads_as(status, body@, Err(error)),
        },
{
    match read_reply(status, body) {
        Ok(content) => extract(content.as_str()),
        Err(error) => Err(error),
    }
}

/// Reads the shared title out of the reply to a batch request. Without file
/// names the reply is not looked at.
pub fn batch_reply(filenames: &Vec<String>, status: u16, body: &str) -> (r: Result<
    BatchMetadataGuess,
    ExtractionError,
>)
    ensures
        match r {
            Ok(guess) => {
                &&& filenames.len() > 0
                &&& reply_text(status, body@) matches Some(content)
                &&& title_extraction(content) == Some(guess.title@)
            },
            Err(ExtractionError::EmptyInput) => filenames.len() == 0,
            Err(ExtractionError::SchemaMismatch(kept)) => {
                &&& filenames.len() > 0
                &&& reply_text(status, body@) matches Some(content)
                &&& title_extraction(content) is None
                &&& kept@ == content
            },
            Err(error) => filenames.len() > 0 && reads_as(status, body@, Err(error)),
        },
{
    if filenames.len() == 0 {
        return Err(ExtractionError::EmptyInput);
    }
    match read_reply(status, body) {
        Ok(content) => extract_batch(filenames, content.as_str()),
        Err(error) => Err(error),
    }
}

/// What the model is told before it is given one file name.
pub const ANALYSIS_PROMPT: &'static str =
    "\n你是动漫视频信息抽取专家，请仅返回 JSON，不要额外说明。\n提取要求\n标题：提取完整中文/日文剧集名称，包含对应季/集，去除无关分辨率、压制组信息。\n集数：两位数字表示，如 01、12，无法确定填 00。\n编码格式：识别常见编码，如 AVC、HEVC、返回字符串。\n压制组：提取文件名中的压制组名称，如 VCB-Studio、LoliHouse，返回字符串。\n必须按照固定字段顺序返回：\n{\"title\": \"完整标题\",\"episode\": \"两位集数\",\"codec\": \"编码字符串\",\"group\": \"压制组字符串\"}\n";

/// What the model is told before it is given a set of file names.
pub const BATCH_PROMPT: &'static str =
    "\n你是动漫信息聚合专家，需根据一组文件名推断它们对应的同一部动画标题。\n\n任务要求\n1. 输入多条文件名\n2. 找出这些文件名最可能对应的动画标题\n3. 返回推测标题及置信度\n\n提示\n- 提取文件名中的共通关键词作为判断依据\n- 忽略分辨率、编码格式和压制组等噪声信息\n- 优先识别中文/日文标题，如无则可用英文\n- 置信度为 0-1 之间的小数，根据匹配度与一致性给出\n\n返回格式\n{\"title\": \"推测的标题\"}\n\n仅返回 JSON，不要任何其他文字。\n";

/// The request to analyse the file called `filename`.
pub fn analysis_message(filename: &str) -> (message: String)
    ensures
        message@ == "这是视频文件名，请提取相关信息："@ + filename@,
{
    let mut out: Vec<char> = Vec::new();
    append_text(&mut out, "这是视频文件名，请提取相关信息：");
    append_text(&mut out, filename);
    to_text(out.as_slice())
}

/// The names from index `from` on, each on a line of its own.
pub open spec fn lines_from(names: Seq<String>, from: int) -> Seq<char>
    decreases names.len() - from,
{
    if from < 0 || from >= names.len() {
        Seq::empty()
    } else if from == names.len() - 1 {
        names[from]@
    } else {
        names[from]@ + seq!['\n'] + lines_from(names, from + 1)
    }
}

/// The request to find the title that `filenames` share. There is nothing
/// to ask about no file names.
pub fn batch_message(filenames: &Vec<String>) -> (r: Result<String, ExtractionError>)
    ensures
        match r {
            Ok(message) => filenames.len() > 0 && message@
                == "以下是文件名，请推测对应的同一部动画标题：\n"@ + lines_from(filenames@, 0),
            Err(ExtractionError::EmptyInput) => filenames.len() == 0,
            Err(_) => false,
        },
{
    if filenames.len() == 0 {
        return Err(ExtractionError::EmptyInput);
    }
    let mut out: Vec<char> = Vec::new();
    append_text(&mut out, "以下是文件名，请推测对应的同一部动画标题：\n");
    let ghost head = out@;
    let mut i: usize = 0;
    while i < filenames.len()
        invariant
            i <= filenames.len(),
            filenames.len() > 0,
            head + lines_from(filenames@, 0) == out@ + (if 0 < i < filenames.len() {
                seq!['\n']
            } else {
                Seq::empty()
            }) + lines_from(filenames@, i as int),
        decreases filenames.len() - i,
    {
        let ghost before = out@;
        if i > 0 {
            out.push('\n');
        }
        append_text(&mut out, filenames[i].as_str());
        proof {
            let name = filenames@[i as int]@;
            let rest = lines_from(filenames@, i + 1);
            if i + 1 < filenames.len() {
                assert(lines_from(filenames@, i as int) == name + seq!['\n'] + rest);
                if i > 0 {
                    assert(before + seq!['\n'] + (name + seq!['\n'] + rest) =~= before.push('\n')
                        + name + seq!['\n'] + rest);
                } else {
                    assert(before + Seq::<char>::empty() + (name + seq!['\n'] + rest) =~= before
                        + name + seq!['\n'] + rest);
                }
            } else {
                assert(lines_from(filenames@, i as int) == name);
                assert(rest =~= Seq::<char>::empty());
                if i > 0 {
                    assert(before + seq!['\n'] + name =~= before.push('\n') + name
                        + Seq::<char>::empty() + rest);
                } else {
                    assert(before + Seq::<char>::empty() + name =~= before + name
                        + Seq::<char>::empty() + rest);
                }
            }
        }
        i += 1;
    }
    assert(out@ + Seq::<char>::empty() + lines_from(filenames@, i as int) =~= out@);
    Ok(to_text(out.as_slice()))
}

/// The line that `http` prints for a status: its number and its reason
/// phrase. There is none for a number below 100 or above 999.
pub uninterp spec fn status_line(status: u16) -> Option<Seq<char>>;

/// `StatusCode::from_u16` and the `Display` of what it gives: the number,
/// a space, and the canonical reason phrase or a stand-in for it. Both are
/// functions of the number alone.
#[verifier::external_body]
fn print_status(status: u16) -> (r: Option<String>)
    ensures
        match r {
            Some(line) => status_line(status) == Some(line@),
            None => status_line(status) is None,
        },
{
    match reqwest::StatusCode::from_u16(status) {
        Ok(code) => Some(code.to_string()),
        Err(_) => None,
    }
}

/// How a status is named to the user: by its line, or by its bare number
/// where it has none.
pub open spec fn status_text(status: u16) -> Seq<char> {
    match status_line(status) {
        Some(line) => line,
        None => decimal(status as nat),
    }
}

/// What the user is told about `error`.
pub open spec fn error_text(error: ExtractionError) -> Seq<char> {
    match error {
        ExtractionError::NetworkError(why) => why@,
        ExtractionError::BadStatus(status) => "LLM模型返回错误状态码: "@ + status_text(status),
        ExtractionError::SchemaMismatch(raw) => "解析LLM响应格式失败: "@ + raw@,
        ExtractionError::EmptyInput => "文件列表为空"@,
    }
}

/// The message that tells of `error`.
pub fn describe_error(error: &ExtractionError) -> (message: String)
    ensures
        message@ == error_text(*error),
{
    let mut out: Vec<char> = Vec::new();
    match error {
        ExtractionError::NetworkError(why) => {
            append_text(&mut out, why.as_str());
        },
        ExtractionError::BadStatus(status) => {
            append_text(&mut out, "LLM模型返回错误状态码: ");
            match print_status(*status) {
                Some(line) => append_text(&mut out, line.as_str()),
                None => append_decimal(&mut out, *status as u64),
            }
        },
        ExtractionError::SchemaMismatch(raw) => {
            append_text(&mut out, "解析LLM响应格式失败: ");
            append_text(&mut out, raw.as_str());
        },
        ExtractionError::EmptyInput => {
            append_text(&mut out, "文件列表为空");
        },
    }
    assert(out@ =~= error_text(*error));
    to_text(out.as_slice())
}

/// The answer to an analysis request. A record is handed on; a reply that
/// could be had but not used is reported in the answer; a reply that could
/// not be had is an error of the request itself.
pub fn to_response(result: Result<AnimeInfo, ExtractionError>) -> (r: Result<LLMResponse, String>)
    ensures
        match result {
            Ok(info) => r matches Ok(response) && response.success && response.data == Some(info)
                && response.error is None,
            Err(ExtractionError::NetworkError(why)) => r == Err::<LLMResponse, String>(why),
            Err(error) => {
                &&& r matches Ok(response)
                &&& !response.success
                &&& response.data is None
                &&& response.error matches Some(message)
                &&& message@ == error_text(error)
            },
        },
{
    match result {
        Ok(info) => Ok(LLMResponse { success: true, data: Some(info), error: None }),
        Err(ExtractionError::NetworkError(why)) => Err(why),
        Err(error) => Ok(
            LLMResponse { success: false, data: None, error: Some(describe_error(&error)) },
        ),
    }
}

/// The answer to a batch request, made as that to an analysis request.
pub fn to_batch_response(result: Result<BatchMetadataGuess, ExtractionError>) -> (r: Result<
    BatchLLMResponse,
    String,
>)
    ensures
        match result {
            Ok(guess) => r matches Ok(response) && response.success && response.data == Some(
                guess,
            ) && response.error is None,
            Err(ExtractionError::NetworkError(why)) => r == Err::<BatchLLMResponse, String>(why),
            Err(error) => {
                &&& r matches Ok(response)
                &&& !response.success
                &&& response.data is None
                &&& response.error matches Some(message)
                &&& message@ == error_text(error)
            },
        },
{
    match result {
        Ok(guess) => Ok(BatchLLMResponse { success: true, data: Some(guess), error: None }),
        Err(ExtractionError::NetworkError(why)) => Err(why),
        Err(error) => Ok(
            BatchLLMResponse { success: false, data: None, error: Some(describe_error(&error)) },
        ),
    }
}

} // verus!

//! The line-delimited JSON exchange with the external translator: request
//! framing, response checks, and the closed set of failures.
use vstd::prelude::*;

use crate::text::{chars_of, opt_view, push_text, string_of, trim_chars, trim_seq};

verus! {

/// The schema version that requests carry and responses must echo.
pub const TRANSLATION_SCHEMA_VERSION: u32 = 1;

/// Characters of a stream kept in an error preview before it is cut.
pub const PREVIEW_MAX_CHARS: usize = 300;

/// Ceiling on what the translator may write to stdout.
pub const MAX_TRANSLATION_STDOUT_BYTES: usize = 4 * 1024 * 1024;

/// Ceiling on what the translator may write to stderr.
pub const MAX_TRANSLATION_STDERR_BYTES: usize = 1024 * 1024;

/// What is being translated.
#[derive(Debug, Clone, Copy, PartialEq, Eq, Structural)]
pub enum TranslationKind {
    AgentReasoningTitle,
    AgentReasoningBody,
}

/// How the text to translate is formatted.
#[derive(Debug, Clone, Copy, PartialEq, Eq, Structural)]
pub enum TranslationFormat {
    Plain,
    Markdown,
}

/// One of the two output streams of the translator.
#[derive(Debug, Clone, Copy, PartialEq, Eq, Structural)]
pub enum OutputStream {
    Stdout,
    Stderr,
}

pub open spec fn kind_wire_spec(kind: TranslationKind) -> Seq<char> {
    match kind {
        TranslationKind::AgentReasoningTitle => "agent_reasoning_title"@,
        TranslationKind::AgentReasoningBody => "agent_reasoning_body"@,
    }
}

pub open spec fn kind_format_spec(kind: TranslationKind) -> TranslationFormat {
    match kind {
        TranslationKind::AgentReasoningTitle => TranslationFormat::Plain,
        TranslationKind::AgentReasoningBody => TranslationFormat::Markdown,
    }
}

pub open spec fn format_wire_spec(format: TranslationFormat) -> Seq<char> {
    match format {
        TranslationFormat::Plain => "plain"@,
        TranslationFormat::Markdown => "markdown"@,
    }
}

pub open spec fn stream_limit_spec(stream: OutputStream) -> usize {
    match stream {
        OutputStream::Stdout => MAX_TRANSLATION_STDOUT_BYTES,
        OutputStream::Stderr => MAX_TRANSLATION_STDERR_BYTES,
    }
}

impl TranslationKind {
    /// The value of the request's `kind` field.
    pub fn as_wire_value(self) -> (r: &'static str)
        ensures
            r@ == kind_wire_spec(self),
    {
        match self {
            TranslationKind::AgentReasoningTitle => "agent_reasoning_title",
            TranslationKind::AgentReasoningBody => "agent_reasoning_body",
        }
    }

    /// Titles are plain text, bodies are markdown.
    pub fn format(self) -> (r: TranslationFormat)
        ensures
            r == kind_format_spec(self),
    {
        match self {
            TranslationKind::AgentReasoningTitle => TranslationFormat::Plain,
            TranslationKind::AgentReasoningBody => TranslationFormat::Markdown,
        }
    }
}

impl TranslationFormat {
    /// The value of the request's `format` field.
    pub fn as_wire_value(self) -> (r: &'static str)
        ensures
            r@ == format_wire_spec(self),
    {
        match self {
            TranslationFormat::Plain => "plain",
            TranslationFormat::Markdown => "markdown",
        }
    }
}

impl OutputStream {
    /// The stream's name, as failures report it.
    pub fn as_str(self) -> (r: &'static str)
        ensures
            r@ == (match self {
                OutputStream::Stdout => "stdout"@,
                OutputStream::Stderr => "stderr"@,
            }),
    {
        match self {
            OutputStream::Stdout => "stdout",
            OutputStream::Stderr => "stderr",
        }
    }

    /// The most bytes the stream may carry.
    pub fn limit_bytes(self) -> (r: usize)
        ensures
            r == stream_limit_spec(self),
    {
        match self {
            OutputStream::Stdout => MAX_TRANSLATION_STDOUT_BYTES,
            OutputStream::Stderr => MAX_TRANSLATION_STDERR_BYTES,
        }
    }
}

/// Why a translation failed. Every failure ends its request.
#[derive(Debug)]
pub enum TranslationError {
    EmptyCommand,
    SerializeRequest(String),
    Spawn(String),
    WriteStdin(String),
    ReadOutput(String),
    OutputTooLarge { stream: OutputStream, limit_bytes: usize },
    Timeout { timeout_ms: u128 },
    NonZeroExit { code: Option<i32>, stderr_preview: String, stdout_preview: String },
    InvalidJson { stdout_preview: String },
    SchemaVersionMismatch { expected: u32, actual: u32 },
    EmptyTranslation,
}

/// A lowercase hexadecimal digit.
pub open spec fn hex_digit_spec(d: int) -> char {
    if d < 10 {
        (('0' as int) + d) as char
    } else {
        (('a' as int) + d - 10) as char
    }
}

/// How `serde_json` writes one character inside a JSON string: quote and
/// backslash behind a backslash, five control characters by their short
/// escapes, the other characters below U+0020 as `\u00XX`, the rest as is.
pub open spec fn json_escape_char_spec(c: char) -> Seq<char> {
    if c == '"' {
        seq!['\\', '"']
    } else if c == '\\' {
        seq!['\\', '\\']
    } else if c == '\u{8}' {
        seq!['\\', 'b']
    } else if c == '\t' {
        seq!['\\', 't']
    } else if c == '\n' {
        seq!['\\', 'n']
    } else if c == '\u{c}' {
        seq!['\\', 'f']
    } else if c == '\r' {
        seq!['\\', 'r']
    } else if (c as u32) < 0x20 {
        seq![
            '\\',
            'u',
            '0',
            '0',
            hex_digit_spec((c as u32) as int / 16),
            hex_digit_spec((c as u32) as int % 16),
        ]
    } else {
        seq![c]
    }
}

/// The characters of `s`, each escaped as `json_escape_char_spec` says.
pub open spec fn json_escape_spec(s: Seq<char>) -> Seq<char>
    decreases s.len(),
{
    if s.len() == 0 {
        Seq::empty()
    } else {
        json_escape_spec(s.drop_last()) + json_escape_char_spec(s.last())
    }
}

/// What `serde_json` writes for a JSON string holding `s`, quotes included.
pub open spec fn json_string_spec(s: Seq<char>) -> Seq<char> {
    seq!['"'] + json_escape_spec(s) + seq!['"']
}

/// What `serde_json` finds under `key` in `b`, read as one JSON value: the
/// member's value when `b` is an object whose `key` member is a non-negative
/// integer that fits in `u64`.
pub uninterp spec fn json_u64_member_spec(b: Seq<u8>, key: Seq<char>) -> Option<u64>;

/// What `serde_json` finds under `key` in `b`, read as one JSON value: the
/// member's text when `b` is an object whose `key` member is a string.
pub uninterp spec fn json_str_member_spec(b: Seq<u8>, key: Seq<char>) -> Option<Seq<char>>;

/// What `String::from_utf8_lossy` makes of `b`.
pub uninterp spec fn utf8_lossy_spec(b: Seq<u8>) -> Seq<char>;

/// The request line, without its newline, for a text whose JSON form is `quoted`.
pub open spec fn request_json_spec(kind: TranslationKind, quoted: Seq<char>) -> Seq<char> {
    "{\"schema_version\":1,\"kind\":\""@ + kind_wire_spec(kind) + "\",\"format\":\""@
        + format_wire_spec(kind_format_spec(kind))
        + "\",\"source_language\":\"en\",\"target_language\":\"zh-CN\",\"text\":"@ + quoted
        + "}"@
}

/// The outcome of a response whose `schema_version` and `text` members are
/// `version` and `text` (each `None` when missing or of another JSON type),
/// read from `stdout`: a version outside `u32` or a missing member is invalid
/// JSON, another version is a mismatch, blank text is empty, and otherwise
/// the result is the trimmed text.
pub open spec fn response_outcome_spec(
    version: Option<u64>,
    text: Option<Seq<char>>,
    stdout: Seq<u8>,
    r: Result<String, TranslationError>,
) -> bool {
    match (version, text) {
        (Some(v), Some(t)) if v <= u32::MAX => if v != TRANSLATION_SCHEMA_VERSION {
            r matches Err(TranslationError::SchemaVersionMismatch { expected, actual })
                && expected == TRANSLATION_SCHEMA_VERSION && actual == v
        } else if trim_seq(t).len() == 0 {
            r matches Err(TranslationError::EmptyTranslation)
        } else {
            r matches Ok(s) && s@ == trim_seq(t)
        },
        _ => r matches Err(TranslationError::InvalidJson { stdout_preview })
            && stdout_preview@ == preview_spec(stdout),
    }
}

/// The preview of a stream: its lossy text, trimmed, cut to
/// `PREVIEW_MAX_CHARS` characters with an ellipsis when longer.
pub open spec fn preview_spec(b: Seq<u8>) -> Seq<char> {
    let t = trim_seq(utf8_lossy_spec(b));
    if t.len() <= PREVIEW_MAX_CHARS {
        t
    } else {
        t.subrange(0, PREVIEW_MAX_CHARS as int).push('…')
    }
}

#[verifier::external_type_specification]
#[verifier::external_body]
pub struct ExJsonError(serde_json::Error);

/// Relies on `serde_json::to_string` for a `str`: the text as a JSON string.
/// It writes into a `Vec`, whose writes do not fail, so it returns `Ok`.
#[verifier::external_body]
fn json_string(s: &str) -> (r: Result<String, serde_json::Error>)
    ensures
        r is Ok,
        r matches Ok(q) ==> q@ == json_string_spec(s@),
{
    serde_json::to_string(s)
}

/// Relies on `serde_json::Error`'s `Display` for its message.
#[verifier::external_body]
fn json_error_message(e: &serde_json::Error) -> String {
    e.to_string()
}

/// Relies on `serde_json::from_slice` into a `Value`, then `Value::get` and
/// `Value::as_u64`: the integer member `key` of the object in `b`.
#[verifier::external_body]
fn json_u64_member(b: &[u8], key: &str) -> (r: Option<u64>)
    ensures
        r == json_u64_member_spec(b@, key@),
{
    let value: serde_json::Value = serde_json::from_slice(b).ok()?;
    value.get(key)?.as_u64()
}

/// Relies on `serde_json::from_slice` into a `Value`, then `Value::get` and
/// `Value::as_str`: the string member `key` of the object in `b`.
#[verifier::external_body]
fn json_str_member(b: &[u8], key: &str) -> (r: Option<String>)
    ensures
        r matches Some(t) ==> json_str_member_spec(b@, key@) == Some(t@),
        r is None ==> json_str_member_spec(b@, key@) is None,
{
    let value: serde_json::Value = serde_json::from_slice(b).ok()?;
    value.get(key)?.as_str().map(str::to_owned)
}

/// Relies on `String::from_utf8_lossy`: the bytes as text, with each
/// invalid sequence replaced.
#[verifier::external_body]
fn lossy_string(b: &[u8]) -> (r: String)
    ensures
        r@ == utf8_lossy_spec(b@),
        b@.len() == 0 ==> r@.len() == 0,
{
    String::from_utf8_lossy(b).into_owned()
}

/// The request line for translating `text`, without its trailing newline.
pub fn encode_request(kind: TranslationKind, text: &str) -> (r: Result<String, TranslationError>)
    ensures
        r matches Ok(line) && line@ == request_json_spec(kind, json_string_spec(text@)),
{
    let quoted = match json_string(text) {
        Ok(q) => q,
        Err(e) => return Err(TranslationError::SerializeRequest(json_error_message(&e))),
    };
    let mut v = chars_of("{\"schema_version\":1,\"kind\":\"");
    push_text(&mut v, kind.as_wire_value());
    push_text(&mut v, "\",\"format\":\"");
    push_text(&mut v, kind.format().as_wire_value());
    push_text(&mut v, "\",\"source_language\":\"en\",\"target_language\":\"zh-CN\",\"text\":");
    push_text(&mut v, quoted.as_str());
    push_text(&mut v, "}");
    Ok(string_of(v.as_slice()))
}

/// A short, trimmed preview of a stream's bytes for an error message.
pub fn preview_bytes(bytes: &[u8]) -> (r: String)
    ensures
        r@ == preview_spec(bytes@),
        bytes@.len() == 0 ==> r@.len() == 0,
{
    let raw = chars_of(lossy_string(bytes).as_str());
    let t = trim_chars(&raw);
    if t.len() <= PREVIEW_MAX_CHARS {
        return string_of(t.as_slice());
    }
    let mut out: Vec<char> = Vec::new();
    let mut k: usize = 0;
    while k < PREVIEW_MAX_CHARS
        invariant
            k <= PREVIEW_MAX_CHARS < t@.len(),
            out@ == t@.subrange(0, k as int),
        decreases PREVIEW_MAX_CHARS - k,
    {
        out.push(t[k]);
        k = k + 1;
        assert(out@ =~= t@.subrange(0, k as int));
    }
    out.push('…');
    string_of(out.as_slice())
}

/// Decides a parsed response: its `schema_version` and `text` members, where
/// each is present with the right JSON type, and the raw stdout for a preview.
pub fn check_response(version: Option<u64>, text: Option<String>, stdout: &[u8]) -> (r: Result<
    String,
    TranslationError,
>)
    ensures
        response_outcome_spec(version, opt_view(text), stdout@, r),
{
    match (version, text) {
        (Some(v), Some(t)) if v <= 0xFFFF_FFFFu64 => {
            if v != TRANSLATION_SCHEMA_VERSION as u64 {
                return Err(
                    TranslationError::SchemaVersionMismatch {
                        expected: TRANSLATION_SCHEMA_VERSION,
                        actual: v as u32,
                    },
                );
            }
            let trimmed = trim_chars(&chars_of(t.as_str()));
            if trimmed.len() == 0 {
                Err(TranslationError::EmptyTranslation)
            } else {
                Ok(string_of(trimmed.as_slice()))
            }
        },
        _ => Err(TranslationError::InvalidJson { stdout_preview: preview_bytes(stdout) }),
    }
}

/// Reads the translator's stdout as a response: a JSON object whose
/// `schema_version` must match and whose trimmed `text` must not be empty.
pub fn decode_response(stdout: &[u8]) -> (r: Result<String, TranslationError>)
    ensures
        response_outcome_spec(
            json_u64_member_spec(stdout@, "schema_version"@),
            json_str_member_spec(stdout@, "text"@),
            stdout@,
            r,
        ),
{
    let version = json_u64_member(stdout, "schema_version");
    let text = json_str_member(stdout, "text");
    check_response(version, text, stdout)
}

} // verus!

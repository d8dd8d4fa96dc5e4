//! The adapter to the captioning service: the request it sends and how a
//! reply becomes a base file name.
//!
//! The caller reads the image, sends [`OpenAI::request_body`] with the
//! [`OpenAI::authorization`] header to [`CHAT_URL`], and hands the reply text
//! to [`name_from_reply`].
use vstd::prelude::*;
use vstd::string::StrSliceExecFns;
use vstd::string::StringExecFns;
use crate::pid::digit_char;
use crate::text::{contains, has_infix, trim, trim_of};

verus! {

#[verifier::external_type_specification]
#[verifier::external_body]
pub struct ExJsonError(serde_json::Error);

pub const CHAT_URL: &'static str = "https://api.openai.com/v1/chat/completions";

/// The name given when the reply is well-formed JSON without a message text.
pub const FALLBACK_NAME: &'static str = "unknown-name";

/// Where the message text sits in a reply.
pub const CONTENT_POINTER: &'static str = "/choices/0/message/content";

/// The request body is written with its object keys in sorted order, as
/// `serde_json` writes a `Value` by default.
pub const BODY_HEAD: &'static str = "{\"messages\":[{\"content\":[{\"text\":";

pub const BODY_MIDDLE: &'static str = ",\"type\":\"text\"},{\"image_url\":{\"detail\":\"low\",\"url\":";

pub const BODY_TAIL: &'static str = "},\"type\":\"image_url\"}],\"role\":\"user\"}],\"model\":\"gpt-4.1\"}";

pub const IMAGE_URL_PREFIX: &'static str = "data:image/png;base64,";

pub const BEARER: &'static str = "Bearer ";

/// How long a request may take before it counts as a failure.
pub const REQUEST_TIMEOUT_SECS: u64 = 60;

#[derive(Clone, Debug, PartialEq, Eq)]
pub enum NameError {
    /// The image is too large to be encoded in memory.
    TooLarge,
    /// The request could not be sent or its reply read.
    Transport(String),
    /// The reply is not JSON.
    MalformedReply,
    /// The reply's text is empty or holds a `/`, so it cannot be a file name.
    UnusableName,
    /// The service answered with this non-success HTTP status.
    Rejected(u16),
}

/// What `base64::encode` returns for `b` (standard alphabet, padded).
pub uninterp spec fn base64_of(b: Seq<u8>) -> Seq<char>;

/// `serde_json::from_str` accepts `s` as a JSON value.
pub uninterp spec fn json_parses(s: Seq<char>) -> bool;

/// The text of the JSON string found at the JSON pointer `pointer` in the
/// JSON text `s`, if there is one.
pub uninterp spec fn json_string_at(s: Seq<char>, pointer: Seq<char>) -> Option<Seq<char>>;

/// The lowercase hexadecimal digit for `d`, which is below sixteen.
pub open spec fn hex_digit(d: nat) -> char {
    if d < 10 {
        digit_char(d)
    } else if d == 10 {
        'a'
    } else if d == 11 {
        'b'
    } else if d == 12 {
        'c'
    } else if d == 13 {
        'd'
    } else if d == 14 {
        'e'
    } else {
        'f'
    }
}

/// How a character is written inside a JSON string literal: quote and
/// backslash escaped, control characters by their short escape or as
/// `\u00XX`, everything else as it is.
pub open spec fn json_escape(c: char) -> Seq<char> {
    if c == '"' {
        seq!['\\', '"']
    } else if c == '\\' {
        seq!['\\', '\\']
    } else if c == '\x08' {
        seq!['\\', 'b']
    } else if c == '\t' {
        seq!['\\', 't']
    } else if c == '\n' {
        seq!['\\', 'n']
    } else if c == '\x0c' {
        seq!['\\', 'f']
    } else if c == '\r' {
        seq!['\\', 'r']
    } else if (c as u32) < 0x20 {
        seq![
            '\\',
            'u',
            '0',
            '0',
            hex_digit((c as u32 / 16) as nat),
            hex_digit((c as u32 % 16) as nat),
        ]
    } else {
        seq![c]
    }
}

/// The characters of `s`, each escaped.
pub open spec fn json_escaped(s: Seq<char>) -> Seq<char>
    decreases s.len(),
{
    if s.len() == 0 {
        seq![]
    } else {
        json_escaped(s.drop_last()) + json_escape(s.last())
    }
}

/// The JSON string literal for `s`.
pub open spec fn json_string(s: Seq<char>) -> Seq<char> {
    seq!['"'] + json_escaped(s) + seq!['"']
}

/// The message text of a reply, if it has one.
pub open spec fn reply_content(text: Seq<char>) -> Option<Seq<char>> {
    json_string_at(text, CONTENT_POINTER@)
}

/// Length of the padded base64 encoding of `n` bytes.
pub open spec fn base64_len(n: nat) -> nat {
    ((n + 2) / 3 * 4) as nat
}

/// The request body for the instruction `prompt` and the image bytes `image`.
pub open spec fn request_body_of(prompt: Seq<char>, image: Seq<u8>) -> Seq<char> {
    BODY_HEAD@ + json_string(prompt) + BODY_MIDDLE@ + json_string(
        IMAGE_URL_PREFIX@ + base64_of(image),
    ) + BODY_TAIL@
}

/// A base name that can be used as a file name in the watched directory.
pub open spec fn usable_name(n: Seq<char>) -> bool {
    n.len() > 0 && !has_infix(n, "/"@)
}

/// The name taken from a reply's message text, if it has one.
pub open spec fn name_of_content(content: Option<Seq<char>>) -> Result<Seq<char>, NameError> {
    match content {
        None => Ok(FALLBACK_NAME@),
        Some(c) => if usable_name(trim_of(c)) {
            Ok(trim_of(c))
        } else {
            Err(NameError::UnusableName)
        },
    }
}

/// Relies on `base64::encode`: the padded standard encoding, four characters
/// for each started group of three bytes. It panics when that length
/// overflows `usize`, which `requires` rules out.
#[verifier::external_body]
#[allow(deprecated)]
fn encode_base64(b: &[u8]) -> (r: String)
    requires
        base64_len(b@.len()) <= usize::MAX,
    ensures
        r@ == base64_of(b@),
        r@.len() == base64_len(b@.len()),
{
    base64::encode(b)
}

/// Relies on `serde_json::to_string` on a `str`: the string literal, written
/// with the escapes of `serde_json`'s escape table into a `Vec`, which cannot
/// fail.
#[verifier::external_body]
fn quote_json(s: &str) -> (r: Result<String, serde_json::Error>)
    ensures
        r is Ok,
        r is Ok ==> r->Ok_0@ == json_string(s@),
{
    serde_json::to_string(s)
}

/// Relies on `serde_json::from_str` into a `serde_json::Value`, then on
/// `Value::pointer` and `Value::as_str`: the JSON string at `pointer`, if any.
#[verifier::external_body]
fn string_at(text: &str, pointer: &str) -> (r: Result<Option<String>, serde_json::Error>)
    ensures
        r is Ok <==> json_parses(text@),
        r matches Ok(Some(c)) ==> json_string_at(text@, pointer@) == Some(c@),
        r matches Ok(None) ==> json_string_at(text@, pointer@) is None,
{
    match serde_json::from_str::<serde_json::Value>(text) {
        Ok(v) => Ok(v.pointer(pointer).and_then(|c| c.as_str()).map(|c| c.to_string())),
        Err(e) => Err(e),
    }
}

/// The trimmed message text as a base name, when it is usable as one.
pub fn accept_name(trimmed: String) -> (r: Result<String, NameError>)
    ensures
        usable_name(trimmed@) ==> r == Ok::<String, NameError>(trimmed),
        !usable_name(trimmed@) ==> r == Err::<String, NameError>(NameError::UnusableName),
{
    if trimmed.unicode_len() > 0 && !contains(trimmed.as_str(), "/") {
        Ok(trimmed)
    } else {
        Err(NameError::UnusableName)
    }
}

/// The base name taken from a reply's message text: the text trimmed, or
/// the fallback name when the reply has no text.
pub fn name_from_content(content: Option<&str>) -> (r: Result<String, NameError>)
    ensures
        match content {
            None => r matches Ok(n) && n@ == FALLBACK_NAME@,
            Some(c) => match name_of_content(Some(c@)) {
                Ok(n) => r matches Ok(m) && m@ == n,
                Err(e) => r == Err::<String, NameError>(e),
            },
        },
{
    match content {
        None => Ok(String::from_str(FALLBACK_NAME)),
        Some(c) => accept_name(trim(c)),
    }
}

/// The base name that a reply of the captioning service gives: an error when
/// the reply is not JSON; otherwise the name its message text gives, or the
/// fallback name when it has no message text.
pub fn name_from_reply(text: &str) -> (r: Result<String, NameError>)
    ensures
        !json_parses(text@) ==> r == Err::<String, NameError>(NameError::MalformedReply),
        json_parses(text@) ==> match name_of_content(reply_content(text@)) {
            Ok(n) => r matches Ok(m) && m@ == n,
            Err(e) => r == Err::<String, NameError>(e),
        },
{
    match string_at(text, CONTENT_POINTER) {
        Err(_) => Err(NameError::MalformedReply),
        Ok(None) => name_from_content(None),
        Ok(Some(c)) => name_from_content(Some(c.as_str())),
    }
}

/// The base name that a response gives: a failure when its HTTP status is
/// not a success (2xx), otherwise what its body gives.
pub fn name_from_response(status: u16, body: &str) -> (r: Result<String, NameError>)
    ensures
        !(200 <= status < 300) ==> r == Err::<String, NameError>(NameError::Rejected(status)),
        200 <= status < 300 && !json_parses(body@) ==> r == Err::<String, NameError>(
            NameError::MalformedReply,
        ),
        200 <= status < 300 && json_parses(body@) ==> match name_of_content(
            reply_content(body@),
        ) {
            Ok(n) => r matches Ok(m) && m@ == n,
            Err(e) => r == Err::<String, NameError>(e),
        },
{
    if status < 200 || status >= 300 {
        Err(NameError::Rejected(status))
    } else {
        name_from_reply(body)
    }
}

/// The request body around the JSON string literals of the instruction and
/// of the image's data URL.
pub fn frame_request(prompt_json: &str, image_url_json: &str) -> (r: String)
    ensures
        r@ == BODY_HEAD@ + prompt_json@ + BODY_MIDDLE@ + image_url_json@ + BODY_TAIL@,
{
    String::from_str(BODY_HEAD).concat(prompt_json).concat(BODY_MIDDLE).concat(image_url_json).concat(
        BODY_TAIL,
    )
}

/// The captioning service: its credential and the instruction sent with each
/// image.
#[derive(Clone, Debug)]
pub struct OpenAI {
    pub api_key: String,
    pub prompt: String,
}

impl OpenAI {
    pub fn new(api_key: String, prompt: String) -> (r: OpenAI)
        ensures
            r.api_key@ == api_key@,
            r.prompt@ == prompt@,
    {
        OpenAI { api_key, prompt }
    }

    /// The value of the `Authorization` header.
    pub fn authorization(&self) -> (r: String)
        ensures
            r@ == BEARER@ + self.api_key@,
    {
        String::from_str(BEARER).concat(self.api_key.as_str())
    }

    /// The JSON request body that asks for a name for `image`: the model, the
    /// instruction, and the image as a base64 data URL with a low-detail hint.
    /// Fails, with `TooLarge`, exactly when the encoded image would not fit in
    /// memory.
    pub fn request_body(&self, image: &[u8]) -> (r: Result<String, NameError>)
        ensures
            base64_len(image@.len()) > usize::MAX ==> r == Err::<String, NameError>(
                NameError::TooLarge,
            ),
            base64_len(image@.len()) <= usize::MAX ==> (r matches Ok(b) && b@ == request_body_of(
                self.prompt@,
                image@,
            )),
    {
        let n = image.len();
        let groups: usize = n / 3 + if n % 3 == 0 {
            0
        } else {
            1
        };
        if groups > usize::MAX / 4 {
            assert(base64_len(n as nat) > usize::MAX) by (nonlinear_arith)
                requires
                    groups == n / 3 + if n % 3 == 0 {
                        0int
                    } else {
                        1int
                    },
                    groups > usize::MAX / 4,
            ;
            return Err(NameError::TooLarge);
        }
        assert(base64_len(n as nat) <= usize::MAX) by (nonlinear_arith)
            requires
                groups == n / 3 + if n % 3 == 0 {
                    0int
                } else {
                    1int
                },
                groups <= usize::MAX / 4,
        ;
        let encoded = encode_base64(image);
        let url = String::from_str(IMAGE_URL_PREFIX).concat(encoded.as_str());
        let prompt_json = quote_json(self.prompt.as_str()).unwrap();
        let url_json = quote_json(url.as_str()).unwrap();
        Ok(frame_request(prompt_json.as_str(), url_json.as_str()))
    }
}

} // verus!

//! Speech-to-text support: client configuration, audio format handling,
//! transcription records, and classification of what the upstream
//! transcription API returns. The multipart upload itself is I/O and
//! happens outside this crate.

use vstd::prelude::*;
use vstd::string::StringExecFns;
use vstd::string::StringSliceAdditionalSpecFns;

use crate::json::error_message_of;
use crate::json::parse_error_message;
use crate::text::bytes_eq;
use crate::text::str_concat;
use crate::time::rfc3339_of;
use crate::time::rfc3339_of_millis;

verus! {

/// Errors of the transcription path.
#[derive(Debug)]
pub enum SttError {
    RequestError(String),
    ApiError(String),
    MissingApiKey,
    InvalidResponse(String),
    IoError(String),
}

/// The rendering used where an error is reported as text.
pub open spec fn spec_stt_error_text(e: SttError) -> Seq<char> {
    match e {
        SttError::RequestError(m) => "HTTP request failed: "@ + m@,
        SttError::ApiError(m) => "API error: "@ + m@,
        SttError::MissingApiKey => "Missing API key"@,
        SttError::InvalidResponse(m) => "Invalid response: "@ + m@,
        SttError::IoError(m) => "IO error: "@ + m@,
    }
}

impl SttError {
    pub fn message(&self) -> (r: String)
        ensures
            r@ == spec_stt_error_text(*self),
    {
        match self {
            SttError::RequestError(m) => str_concat("HTTP request failed: ", m.as_str()),
            SttError::ApiError(m) => str_concat("API error: ", m.as_str()),
            SttError::MissingApiKey => String::from_str("Missing API key"),
            SttError::InvalidResponse(m) => str_concat("Invalid response: ", m.as_str()),
            SttError::IoError(m) => str_concat("IO error: ", m.as_str()),
        }
    }
}

/// A successful transcription: text plus what the upstream reported of it.
/// The duration is carried in milliseconds so that it is plain data.
#[derive(Debug)]
pub struct SttResponse {
    pub text: String,
    pub language: Option<String>,
    pub duration_ms: Option<u64>,
    pub model: String,
}

/// What the HTTP layer decodes out of a transcription success body.
#[derive(Debug)]
pub struct SttParsed {
    pub text: String,
    pub language: Option<String>,
    pub duration_ms: Option<u64>,
}

/// A configured transcription client.
#[derive(Debug)]
pub struct SttClient {
    pub base_url: String,
    pub api_key: String,
    pub model: String,
}

impl SttClient {
    /// A client from the environment's key, optional base URL override and
    /// optional model override; fails exactly when the key is absent or
    /// empty.
    pub fn new(api_key: Option<String>, base_url: Option<String>, model: Option<String>) -> (r:
        Result<SttClient, SttError>)
        ensures
            r is Err <==> (match api_key {
                Some(k) => k@.len() == 0,
                None => true,
            }),
            (match r {
                Ok(c) => {
                    &&& (match api_key {
                        Some(k) => c.api_key == k,
                        None => false,
                    })
                    &&& (match base_url {
                        Some(u) => c.base_url == u,
                        None => c.base_url@ == "https://api.groq.com/openai/v1"@,
                    })
                    &&& (match model {
                        Some(m) => c.model == m,
                        None => c.model@ == "whisper-large-v3-turbo"@,
                    })
                },
                Err(e) => e is MissingApiKey,
            }),
    {
        let key = match api_key {
            Some(k) => k,
            None => {
                return Err(SttError::MissingApiKey);
            },
        };
        if key.as_str().is_empty() {
            return Err(SttError::MissingApiKey);
        }
        let url = match base_url {
            Some(u) => u,
            None => String::from_str("https://api.groq.com/openai/v1"),
        };
        let m = match model {
            Some(m) => m,
            None => String::from_str("whisper-large-v3-turbo"),
        };
        Ok(SttClient { base_url: url, api_key: key, model: m })
    }

    /// The endpoint a transcription is posted to.
    pub fn transcription_url(&self) -> (r: String)
        ensures
            r@ == self.base_url@ + "/audio/transcriptions"@,
    {
        str_concat(self.base_url.as_str(), "/audio/transcriptions")
    }

    /// Classifies what the upstream returned. A non-success status fails
    /// with the structured `error.message` when the body carries one, else
    /// with the raw body; a success body that the HTTP layer could not
    /// decode fails as a decode error; otherwise the decoded fields are the
    /// result, stamped with the configured model.
    pub fn transcribe_response(&self, status: u16, body: &str, parsed: Option<SttParsed>) -> (r:
        Result<SttResponse, SttError>)
        ensures
            !(200 <= status < 300) ==> (match error_message_of(body@) {
                Some(m) => r matches Err(SttError::ApiError(t)) && t@ == m,
                None => r matches Err(SttError::ApiError(t)) && t@ == body@,
            }),
            (200 <= status < 300) ==> (match parsed {
                None => r matches Err(SttError::RequestError(t)) && t@
                    == "error decoding response body"@,
                Some(p) => r matches Ok(resp) && resp.text == p.text && resp.language == p.language
                    && resp.duration_ms == p.duration_ms && resp.model == self.model,
            }),
    {
        if !(200 <= status && status < 300) {
            return (match parse_error_message(body) {
                Some(m) => Err(SttError::ApiError(m)),
                None => Err(SttError::ApiError(body.to_owned())),
            });
        }
        match parsed {
            None => Err(SttError::RequestError(String::from_str("error decoding response body"))),
            Some(p) => Ok(
                SttResponse {
                    text: p.text,
                    language: p.language,
                    duration_ms: p.duration_ms,
                    model: self.model.clone(),
                },
            ),
        }
    }
}

/// Where the extension of a file name starts in its UTF-8 bytes: right
/// after the last dot, or at the start where there is none — the whole
/// name then counts as the extension, as `rsplit` would have it.
pub open spec fn spec_ext_start(b: Seq<u8>) -> int
    decreases b.len(),
{
    if b.len() == 0 {
        0
    } else if b.last() == 46u8 {
        b.len() as int
    } else {
        spec_ext_start(b.drop_last())
    }
}

/// The extension of a file name's UTF-8 bytes.
pub open spec fn spec_ext(b: Seq<u8>) -> Seq<u8> {
    b.skip(spec_ext_start(b))
}

/// ASCII lowercasing, byte by byte.
pub open spec fn spec_ascii_lower(b: Seq<u8>) -> Seq<u8> {
    b.map_values(
        |c: u8|
            if 65 <= c <= 90 {
                (c + 32) as u8
            } else {
                c
            },
    )
}

/// The MIME type used for each recognised audio extension.
pub open spec fn spec_mime_of(name: Seq<u8>) -> Seq<char> {
    let e = spec_ascii_lower(spec_ext(name));
    if e == "mp3".spec_bytes() {
        "audio/mpeg"@
    } else if e == "wav".spec_bytes() {
        "audio/wav"@
    } else if e == "webm".spec_bytes() {
        "audio/webm"@
    } else if e == "ogg".spec_bytes() {
        "audio/ogg"@
    } else if e == "m4a".spec_bytes() {
        "audio/m4a"@
    } else if e == "flac".spec_bytes() {
        "audio/flac"@
    } else if e == "mp4".spec_bytes() {
        "audio/mp4"@
    } else {
        "application/octet-stream"@
    }
}

/// Whether a file name's extension is one of the supported audio formats.
pub open spec fn spec_is_supported(name: Seq<u8>) -> bool {
    let e = spec_ascii_lower(spec_ext(name));
    ||| e == "mp3".spec_bytes()
    ||| e == "wav".spec_bytes()
    ||| e == "webm".spec_bytes()
    ||| e == "ogg".spec_bytes()
    ||| e == "m4a".spec_bytes()
    ||| e == "flac".spec_bytes()
    ||| e == "mp4".spec_bytes()
}

/// The file name's extension, ASCII-lowercased, as owned bytes.
fn extension_lower(file_name: &str) -> (r: Vec<u8>)
    ensures
        r@ == spec_ascii_lower(spec_ext(file_name.spec_bytes())),
{
    let bytes = file_name.as_bytes();
    let mut start: usize = 0;
    let mut i: usize = 0;
    while i < bytes.len()
        invariant
            i <= bytes@.len(),
            start == spec_ext_start(bytes@.take(i as int)),
            start <= i,
        decreases bytes@.len() - i,
    {
        let ghost pre = bytes@.take(i as int);
        if bytes[i] == 46 {
            start = i + 1;
        }
        i = i + 1;
        proof {
            let cur = bytes@.take(i as int);
            assert(cur.drop_last() =~= pre);
            assert(cur.last() == bytes@[i - 1]);
        }
    }
    proof {
        assert(bytes@.take(bytes@.len() as int) =~= bytes@);
    }
    let mut ext: Vec<u8> = Vec::new();
    let mut j: usize = start;
    while j < bytes.len()
        invariant
            start <= j <= bytes@.len(),
            ext@.len() == j - start,
            forall|k: int|
                0 <= k < ext@.len() ==> ext@[k] == (if 65 <= bytes@[start + k] <= 90 {
                    (bytes@[start + k] + 32) as u8
                } else {
                    bytes@[start + k]
                }),
        decreases bytes@.len() - j,
    {
        let c = bytes[j];
        let lc = if 65 <= c && c <= 90 {
            c + 32
        } else {
            c
        };
        ext.push(lc);
        j = j + 1;
    }
    proof {
        assert(ext@ =~= spec_ascii_lower(bytes@.skip(start as int)));
    }
    ext
}

impl SttClient {
    /// The MIME type a file name's extension selects, case-insensitively;
    /// unknown extensions fall back to the opaque byte stream type.
    pub fn get_mime_type(file_name: &str) -> (r: String)
        ensures
            r@ == spec_mime_of(file_name.spec_bytes()),
    {
        let ext = extension_lower(file_name);
        let e = ext.as_slice();
        if bytes_eq(e, "mp3".as_bytes()) {
            String::from_str("audio/mpeg")
        } else if bytes_eq(e, "wav".as_bytes()) {
            String::from_str("audio/wav")
        } else if bytes_eq(e, "webm".as_bytes()) {
            String::from_str("audio/webm")
        } else if bytes_eq(e, "ogg".as_bytes()) {
            String::from_str("audio/ogg")
        } else if bytes_eq(e, "m4a".as_bytes()) {
            String::from_str("audio/m4a")
        } else if bytes_eq(e, "flac".as_bytes()) {
            String::from_str("audio/flac")
        } else if bytes_eq(e, "mp4".as_bytes()) {
            String::from_str("audio/mp4")
        } else {
            String::from_str("application/octet-stream")
        }
    }

    /// The supported audio formats.
    pub fn supported_formats() -> (r: Vec<&'static str>)
        ensures
            r@.len() == 7,
            r@[0]@ == "mp3"@,
            r@[1]@ == "wav"@,
            r@[2]@ == "webm"@,
            r@[3]@ == "ogg"@,
            r@[4]@ == "m4a"@,
            r@[5]@ == "flac"@,
            r@[6]@ == "mp4"@,
    {
        let mut v: Vec<&'static str> = Vec::new();
        v.push("mp3");
        v.push("wav");
        v.push("webm");
        v.push("ogg");
        v.push("m4a");
        v.push("flac");
        v.push("mp4");
        v
    }
}

/// Whether a file name's extension is one of the supported audio formats,
/// case-insensitively.
pub fn is_supported_format(file_name: &str) -> (r: bool)
    ensures
        r == spec_is_supported(file_name.spec_bytes()),
{
    let ext = extension_lower(file_name);
    let e = ext.as_slice();
    bytes_eq(e, "mp3".as_bytes()) || bytes_eq(e, "wav".as_bytes()) || bytes_eq(
        e,
        "webm".as_bytes(),
    ) || bytes_eq(e, "ogg".as_bytes()) || bytes_eq(e, "m4a".as_bytes()) || bytes_eq(
        e,
        "flac".as_bytes(),
    ) || bytes_eq(e, "mp4".as_bytes())
}

/// A stored transcription made through the speech-to-text path.
pub struct SttTranscription {
    pub id: Option<u64>,
    pub text: String,
    pub language: Option<String>,
    pub duration_ms: Option<u64>,
    pub model: String,
    pub file_name: Option<String>,
    pub file_size: Option<u64>,
    pub session_id: Option<String>,
    pub ai_response: Option<String>,
    pub created_at_ms: i64,
}

impl SttTranscription {
    pub fn new(
        text: String,
        language: Option<String>,
        duration_ms: Option<u64>,
        model: String,
        file_name: Option<String>,
        file_size: Option<u64>,
        session_id: Option<String>,
        now_ms: i64,
    ) -> (t: SttTranscription)
        ensures
            t.id is None,
            t.text == text,
            t.language == language,
            t.duration_ms == duration_ms,
            t.model == model,
            t.file_name == file_name,
            t.file_size == file_size,
            t.session_id == session_id,
            t.ai_response is None,
            t.created_at_ms == now_ms,
    {
        SttTranscription {
            id: None,
            text,
            language,
            duration_ms,
            model,
            file_name,
            file_size,
            session_id,
            ai_response: None,
            created_at_ms: now_ms,
        }
    }

    pub fn created_at_rfc3339(&self) -> (r: String)
        ensures
            r@ == rfc3339_of(self.created_at_ms as int),
    {
        rfc3339_of_millis(self.created_at_ms)
    }
}

/// The outward shape of a transcription.
pub struct TranscribeResponse {
    pub id: String,
    pub text: String,
    pub language: Option<String>,
    pub duration_ms: Option<u64>,
    pub model: String,
    pub created_at: String,
}

/// The outward shape of a transcription answered together with an
/// assistant reply.
pub struct TranscribeWithAiResponse {
    pub id: String,
    pub transcription: String,
    pub ai_response: String,
    pub language: Option<String>,
    pub duration_ms: Option<u64>,
    pub model: String,
    pub created_at: String,
}

/// The transcription listing.
pub struct TranscriptionListResponse {
    pub data: Vec<TranscribeResponse>,
    pub total: u64,
}

/// A plain message payload.
pub struct MessageResponse {
    pub message: String,
}

/// The optional query parameters of a transcription upload.
pub struct TranscribeQuery {
    pub language: Option<String>,
    pub session_id: Option<String>,
}

pub fn to_response(t: &SttTranscription) -> (r: TranscribeResponse)
    ensures
        r.id@ == crate::session::spec_id_text(t.id),
        r.text == t.text,
        r.language == t.language,
        r.duration_ms == t.duration_ms,
        r.model == t.model,
        r.created_at@ == rfc3339_of(t.created_at_ms as int),
{
    let id = match t.id {
        Some(n) => crate::text::u64_to_string(n),
        None => String::new(),
    };
    TranscribeResponse {
        id,
        text: t.text.clone(),
        language: t.language.clone(),
        duration_ms: t.duration_ms,
        model: t.model.clone(),
        created_at: t.created_at_rfc3339(),
    }
}

} // verus!

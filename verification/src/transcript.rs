//! Plain transcription records: create/read/list/delete façades over a
//! document collection, with no caching or consistency logic.

use vstd::prelude::*;
use vstd::string::StringExecFns;

use crate::session::spec_id_text;
use crate::text::u64_to_string;
use crate::time::rfc3339_of;
use crate::time::rfc3339_of_millis;

verus! {

/// A stored transcription.
pub struct Transcription {
    pub id: Option<u64>,
    pub text: String,
    pub source: Option<String>,
    pub ai_response: Option<String>,
    pub created_at_ms: i64,
    pub updated_at_ms: i64,
}

impl Transcription {
    pub fn new(text: String, source: Option<String>, now_ms: i64) -> (t: Transcription)
        ensures
            t.id is None,
            t.text == text,
            t.source == source,
            t.ai_response is None,
            t.created_at_ms == now_ms,
            t.updated_at_ms == now_ms,
    {
        Transcription {
            id: None,
            text,
            source,
            ai_response: None,
            created_at_ms: now_ms,
            updated_at_ms: now_ms,
        }
    }

    pub fn created_at_rfc3339(&self) -> (r: String)
        ensures
            r@ == rfc3339_of(self.created_at_ms as int),
    {
        rfc3339_of_millis(self.created_at_ms)
    }
}

/// A request to store a transcription.
pub struct CreateTranscriptionRequest {
    pub text: String,
    pub source: Option<String>,
}

impl CreateTranscriptionRequest {
    pub fn validate(&self) -> (r: Result<(), String>)
        ensures
            r is Ok <==> self.text@.len() > 0,
            r matches Err(m) ==> m@ == "Text cannot be empty"@,
    {
        if self.text.as_str().is_empty() {
            Err(String::from_str("Text cannot be empty"))
        } else {
            Ok(())
        }
    }
}

/// The outward shape of a transcription.
pub struct TranscriptionResponse {
    pub id: String,
    pub text: String,
    pub source: Option<String>,
    pub ai_response: Option<String>,
    pub created_at: String,
}

/// The transcription listing.
pub struct TranscriptionListResponse {
    pub data: Vec<TranscriptionResponse>,
    pub total: u64,
}

/// A plain message payload.
pub struct MessageResponse {
    pub message: String,
}

pub fn to_response(t: &Transcription) -> (r: TranscriptionResponse)
    ensures
        r.id@ == spec_id_text(t.id),
        r.text == t.text,
        r.source == t.source,
        r.ai_response == t.ai_response,
        r.created_at@ == rfc3339_of(t.created_at_ms as int),
{
    let id = match t.id {
        Some(n) => u64_to_string(n),
        None => String::new(),
    };
    TranscriptionResponse {
        id,
        text: t.text.clone(),
        source: t.source.clone(),
        ai_response: t.ai_response.clone(),
        created_at: t.created_at_rfc3339(),
    }
}

} // verus!

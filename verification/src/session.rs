//! Sessions and messages: the conversation transcript data model, the
//! bounded context windower, and the request/response shapes of the
//! session API.

use vstd::prelude::*;
use vstd::string::StringExecFns;

use crate::text::spec_decimal;
use crate::text::u64_to_string;
use crate::time::rfc3339_of;
use crate::time::rfc3339_of_millis;

verus! {

/// A single turn of a conversation. The timestamp is assigned when the
/// message object is constructed (the caller supplies the clock reading),
/// not when it is persisted.
pub struct Message {
    pub role: String,
    pub content: String,
    pub timestamp_ms: i64,
}

impl Message {
    pub fn new(role: String, content: String, now_ms: i64) -> (m: Message)
        ensures
            m.role == role,
            m.content == content,
            m.timestamp_ms == now_ms,
    {
        Message { role, content, timestamp_ms: now_ms }
    }

    pub fn user(content: String, now_ms: i64) -> (m: Message)
        ensures
            m.role@ == "user"@,
            m.content == content,
            m.timestamp_ms == now_ms,
    {
        Message::new(String::from_str("user"), content, now_ms)
    }

    pub fn assistant(content: String, now_ms: i64) -> (m: Message)
        ensures
            m.role@ == "assistant"@,
            m.content == content,
            m.timestamp_ms == now_ms,
    {
        Message::new(String::from_str("assistant"), content, now_ms)
    }

    pub fn system(content: String, now_ms: i64) -> (m: Message)
        ensures
            m.role@ == "system"@,
            m.content == content,
            m.timestamp_ms == now_ms,
    {
        Message::new(String::from_str("system"), content, now_ms)
    }

    pub fn timestamp_rfc3339(&self) -> (r: String)
        ensures
            r@ == rfc3339_of(self.timestamp_ms as int),
    {
        rfc3339_of_millis(self.timestamp_ms)
    }
}

impl Clone for Message {
    fn clone(&self) -> (m: Self)
        ensures
            m == *self,
    {
        Message {
            role: self.role.clone(),
            content: self.content.clone(),
            timestamp_ms: self.timestamp_ms,
        }
    }
}

/// The mathematical value of a [`Session`]: the same fields, with the
/// message transcript as a sequence.
#[verifier::ext_equal]
pub struct SessionView {
    pub id: Option<u64>,
    pub title: Option<String>,
    pub session_type: String,
    pub messages: Seq<Message>,
    pub metadata: Option<String>,
    pub created_at_ms: i64,
    pub updated_at_ms: i64,
}

impl SessionView {
    /// The update timestamp never precedes the creation timestamp.
    pub open spec fn wf(self) -> bool {
        self.updated_at_ms >= self.created_at_ms
    }
}

/// A persisted, ordered conversation. The identifier is assigned by the
/// store on creation and absent before first persistence; `messages` is
/// append-only and its order is the transcript order.
pub struct Session {
    pub id: Option<u64>,
    pub title: Option<String>,
    pub session_type: String,
    pub messages: Vec<Message>,
    pub metadata: Option<String>,
    pub created_at_ms: i64,
    pub updated_at_ms: i64,
}

impl View for Session {
    type V = SessionView;

    open spec fn view(&self) -> SessionView {
        SessionView {
            id: self.id,
            title: self.title,
            session_type: self.session_type,
            messages: self.messages@,
            metadata: self.metadata,
            created_at_ms: self.created_at_ms,
            updated_at_ms: self.updated_at_ms,
        }
    }
}

impl Session {
    /// The update timestamp never precedes the creation timestamp.
    pub open spec fn wf(self) -> bool {
        self.updated_at_ms >= self.created_at_ms
    }

    pub fn new(
        title: Option<String>,
        session_type: Option<String>,
        metadata: Option<String>,
        now_ms: i64,
    ) -> (s: Session)
        ensures
            s.id is None,
            s.title == title,
            (match session_type {
                Some(t) => s.session_type == t,
                None => s.session_type@ == "general"@,
            }),
            s.messages@.len() == 0,
            s.metadata == metadata,
            s.created_at_ms == now_ms,
            s.updated_at_ms == now_ms,
            s.wf(),
    {
        let st = match session_type {
            Some(t) => t,
            None => String::from_str("general"),
        };
        Session {
            id: None,
            title,
            session_type: st,
            messages: Vec::new(),
            metadata,
            created_at_ms: now_ms,
            updated_at_ms: now_ms,
        }
    }

    /// Appends one message and refreshes the update timestamp. The refresh
    /// never moves the timestamp backwards, so `wf` is preserved whatever
    /// clock reading the caller obtained.
    pub fn add_message(&mut self, message: Message, now_ms: i64)
        ensures
            final(self).messages@ == old(self).messages@.push(message),
            final(self).updated_at_ms == if now_ms > old(self).updated_at_ms {
                now_ms
            } else {
                old(self).updated_at_ms
            },
            final(self).id == old(self).id,
            final(self).title == old(self).title,
            final(self).session_type == old(self).session_type,
            final(self).metadata == old(self).metadata,
            final(self).created_at_ms == old(self).created_at_ms,
            old(self).wf() ==> final(self).wf(),
    {
        self.messages.push(message);
        if now_ms > self.updated_at_ms {
            self.updated_at_ms = now_ms;
        }
    }

    /// The trailing window of at most `limit` messages, in transcript order:
    /// the result holds `min(limit, len)` messages, and its `i`th element is
    /// the `i`th of the last `min(limit, len)` messages.
    pub fn get_context_messages(&self, limit: usize) -> (r: Vec<Message>)
        ensures
            r@.len() == if self.messages@.len() <= limit {
                self.messages@.len() as int
            } else {
                limit as int
            },
            forall|i: int|
                0 <= i < r@.len() ==> r@[i] == self.messages@[self.messages@.len() - r@.len() + i],
    {
        let len = self.messages.len();
        let start = if len <= limit {
            0
        } else {
            len - limit
        };
        let mut r: Vec<Message> = Vec::new();
        let mut i = start;
        while i < len
            invariant
                start <= i <= len,
                len == self.messages@.len(),
                r@.len() == i - start,
                forall|j: int| 0 <= j < r@.len() ==> r@[j] == self.messages@[start + j],
            decreases len - i,
        {
            r.push(self.messages[i].clone());
            i = i + 1;
        }
        r
    }

    pub fn created_at_rfc3339(&self) -> (r: String)
        ensures
            r@ == rfc3339_of(self.created_at_ms as int),
    {
        rfc3339_of_millis(self.created_at_ms)
    }

    pub fn updated_at_rfc3339(&self) -> (r: String)
        ensures
            r@ == rfc3339_of(self.updated_at_ms as int),
    {
        rfc3339_of_millis(self.updated_at_ms)
    }
}

impl Clone for Session {
    fn clone(&self) -> (s: Self)
        ensures
            s@ == self@,
    {
        let messages = self.messages.clone();
        proof {
            assert(messages@ =~= self.messages@);
        }
        let s = Session {
            id: self.id,
            title: self.title.clone(),
            session_type: self.session_type.clone(),
            messages,
            metadata: self.metadata.clone(),
            created_at_ms: self.created_at_ms,
            updated_at_ms: self.updated_at_ms,
        };
        proof {
            assert(s@ =~= self@);
        }
        s
    }
}

/// A request to create a session.
pub struct CreateSessionRequest {
    pub title: Option<String>,
    pub session_type: Option<String>,
    pub metadata: Option<String>,
}

impl CreateSessionRequest {
    /// The title, when given, is capped at a hundred bytes of its UTF-8
    /// encoding.
    pub fn validate(&self) -> (r: Result<(), String>)
        ensures
            r is Ok <==> (match self.title {
                Some(t) => vstd::utf8::encode_utf8(t@).len() as usize <= 100,
                None => true,
            }),
            r matches Err(m) ==> m@ == "Title too long"@,
    {
        match &self.title {
            Some(t) => {
                if t.as_str().len() > 100 {
                    Err(String::from_str("Title too long"))
                } else {
                    Ok(())
                }
            },
            None => Ok(()),
        }
    }
}

/// A request to append one message to a session.
pub struct AddMessageRequest {
    pub role: String,
    pub content: String,
}

impl AddMessageRequest {
    pub fn validate(&self) -> (r: Result<(), String>)
        ensures
            r is Ok <==> (self.role@.len() > 0 && self.content@.len() > 0),
            self.role@.len() == 0 ==> (r matches Err(m) && m@ == "Role cannot be empty"@),
            (self.role@.len() > 0 && self.content@.len() == 0) ==> (r matches Err(m) && m@
                == "Content cannot be empty"@),
    {
        if self.role.as_str().is_empty() {
            Err(String::from_str("Role cannot be empty"))
        } else if self.content.as_str().is_empty() {
            Err(String::from_str("Content cannot be empty"))
        } else {
            Ok(())
        }
    }
}

/// A request for one multi-turn chat exchange.
pub struct ChatRequest {
    pub message: String,
    pub model: Option<String>,
    pub system_prompt: Option<String>,
}

impl ChatRequest {
    pub fn validate(&self) -> (r: Result<(), String>)
        ensures
            r is Ok <==> self.message@.len() > 0,
            r matches Err(m) ==> m@ == "Message cannot be empty"@,
    {
        if self.message.as_str().is_empty() {
            Err(String::from_str("Message cannot be empty"))
        } else {
            Ok(())
        }
    }
}

/// The outward shape of one message.
pub struct MessageResponse {
    pub role: String,
    pub content: String,
    pub timestamp: String,
}

/// The outward shape of a full session.
pub struct SessionResponse {
    pub id: String,
    pub title: Option<String>,
    pub session_type: String,
    pub messages: Vec<MessageResponse>,
    pub message_count: usize,
    pub created_at: String,
    pub updated_at: String,
}

/// One row of the session listing.
pub struct SessionSummary {
    pub id: String,
    pub title: Option<String>,
    pub session_type: String,
    pub message_count: usize,
    pub created_at: String,
    pub updated_at: String,
}

/// The session listing.
pub struct SessionListResponse {
    pub data: Vec<SessionSummary>,
    pub total: u64,
}

/// The outcome of one chat exchange: the recorded user turn and the
/// assistant's reply.
pub struct ChatResponse {
    pub session_id: String,
    pub message: MessageResponse,
    pub response: MessageResponse,
    pub model: String,
}

/// A plain message payload.
pub struct MessageResponse2 {
    pub message: String,
}

/// The outward rendering of a session identifier: its decimal digits, or
/// the empty string before first persistence.
pub open spec fn spec_id_text(id: Option<u64>) -> Seq<char> {
    match id {
        Some(n) => spec_decimal(n as nat),
        None => Seq::<char>::empty(),
    }
}

pub fn to_message_response(m: &Message) -> (r: MessageResponse)
    ensures
        r.role == m.role,
        r.content == m.content,
        r.timestamp@ == rfc3339_of(m.timestamp_ms as int),
{
    MessageResponse {
        role: m.role.clone(),
        content: m.content.clone(),
        timestamp: m.timestamp_rfc3339(),
    }
}

pub fn to_session_response(s: &Session) -> (r: SessionResponse)
    ensures
        r.id@ == spec_id_text(s.id),
        r.title == s.title,
        r.session_type == s.session_type,
        r.message_count == s.messages@.len(),
        r.messages@.len() == s.messages@.len(),
        forall|i: int|
            0 <= i < s.messages@.len() ==> {
                &&& (#[trigger] r.messages@[i]).role == s.messages@[i].role
                &&& r.messages@[i].content == s.messages@[i].content
                &&& r.messages@[i].timestamp@ == rfc3339_of(s.messages@[i].timestamp_ms as int)
            },
        r.created_at@ == rfc3339_of(s.created_at_ms as int),
        r.updated_at@ == rfc3339_of(s.updated_at_ms as int),
{
    let id = match s.id {
        Some(n) => u64_to_string(n),
        None => String::new(),
    };
    let mut messages: Vec<MessageResponse> = Vec::new();
    let mut i: usize = 0;
    while i < s.messages.len()
        invariant
            i <= s.messages@.len(),
            messages@.len() == i,
            forall|j: int|
                0 <= j < i ==> {
                    &&& (#[trigger] messages@[j]).role == s.messages@[j].role
                    &&& messages@[j].content == s.messages@[j].content
                    &&& messages@[j].timestamp@ == rfc3339_of(s.messages@[j].timestamp_ms as int)
                },
        decreases s.messages@.len() - i,
    {
        messages.push(to_message_response(&s.messages[i]));
        i = i + 1;
    }
    let message_count = s.messages.len();
    SessionResponse {
        id,
        title: s.title.clone(),
        session_type: s.session_type.clone(),
        messages,
        message_count,
        created_at: s.created_at_rfc3339(),
        updated_at: s.updated_at_rfc3339(),
    }
}

pub fn to_session_summary(s: &Session) -> (r: SessionSummary)
    ensures
        r.id@ == spec_id_text(s.id),
        r.title == s.title,
        r.session_type == s.session_type,
        r.message_count == s.messages@.len(),
        r.created_at@ == rfc3339_of(s.created_at_ms as int),
        r.updated_at@ == rfc3339_of(s.updated_at_ms as int),
{
    let id = match s.id {
        Some(n) => u64_to_string(n),
        None => String::new(),
    };
    SessionSummary {
        id,
        title: s.title.clone(),
        session_type: s.session_type.clone(),
        message_count: s.messages.len(),
        created_at: s.created_at_rfc3339(),
        updated_at: s.updated_at_rfc3339(),
    }
}

} // verus!

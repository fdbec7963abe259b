//! The chat orchestrator: loading a session, bounding its transcript to a
//! context window, rendering the prompt, and recording the two turns of an
//! exchange.
//!
//! The upstream call in the middle of the flow is I/O and happens outside
//! this crate: `prepare_chat_call` builds everything up to it, and
//! `record_chat_exchange` appends the user turn then the assistant turn.

use vstd::prelude::*;
use vstd::string::StringExecFns;

use crate::llm::call_shape;
use crate::llm::ChatCall;
use crate::llm::LlmClient;
use crate::session::Message;
use crate::session::Session;
use crate::session::SessionView;
use crate::store::session_with_message;
use crate::store::SessionStore;
use crate::text::opt_text;
use crate::text::str_concat;

verus! {

/// The default trailing window used to bound prompt size.
pub const DEFAULT_CONTEXT_WINDOW: usize = 10;

/// The persona used when the caller supplies no system prompt.
pub const CHAT_SYSTEM_PROMPT: &'static str = "You are Cleuly, a helpful AI assistant. Provide concise, helpful responses.";

/// The model used when neither the caller nor the environment names one.
pub const FALLBACK_CHAT_MODEL: &'static str = "xiaomi/mimo-v2-flash:free";

/// One rendered transcript line: `role: content`.
pub open spec fn spec_line(m: Message) -> Seq<char> {
    m.role@ + ": "@ + m.content@
}

/// The rendered transcript: its lines joined with newlines.
pub open spec fn spec_context_text(ms: Seq<Message>) -> Seq<char>
    decreases ms.len(),
{
    if ms.len() == 0 {
        Seq::<char>::empty()
    } else if ms.len() == 1 {
        spec_line(ms[0])
    } else {
        spec_context_text(ms.drop_last()) + "\n"@ + spec_line(ms.last())
    }
}

/// Renders a transcript window as `role: content` lines joined with
/// newlines.
pub fn render_context(messages: &Vec<Message>) -> (r: String)
    ensures
        r@ == spec_context_text(messages@),
{
    let mut out = String::new();
    let mut i: usize = 0;
    while i < messages.len()
        invariant
            i <= messages@.len(),
            out@ == spec_context_text(messages@.take(i as int)),
        decreases messages@.len() - i,
    {
        let ghost pre = messages@.take(i as int);
        if i > 0 {
            out.append("\n");
        }
        out.append(messages[i].role.as_str());
        out.append(": ");
        out.append(messages[i].content.as_str());
        i = i + 1;
        proof {
            let cur = messages@.take(i as int);
            assert(cur.drop_last() =~= pre);
            assert(cur.last() == messages@[i - 1]);
            assert(out@ =~= spec_context_text(cur));
        }
    }
    proof {
        assert(messages@.take(messages@.len() as int) =~= messages@);
    }
    out
}

/// The trailing window of at most `limit` messages.
pub open spec fn spec_window(ms: Seq<Message>, limit: int) -> Seq<Message> {
    if ms.len() <= limit {
        ms
    } else {
        ms.skip(ms.len() - limit)
    }
}

/// The prompt of a chat turn: the new message alone when the window is
/// empty, else the rendered window framed as previous conversation.
pub open spec fn spec_chat_prompt(window: Seq<Message>, user_message: Seq<char>) -> Seq<char> {
    if window.len() == 0 {
        user_message
    } else {
        "Previous conversation:\n"@ + spec_context_text(window) + "\n\nUser: "@ + user_message
    }
}

/// Renders the prompt for one chat turn over the session's trailing
/// `window` messages.
pub fn build_chat_prompt(session: &Session, user_message: &str, window: usize) -> (r: String)
    ensures
        r@ == spec_chat_prompt(spec_window(session@.messages, window as int), user_message@),
{
    let w = session.get_context_messages(window);
    proof {
        assert(w@ =~= spec_window(session@.messages, window as int));
    }
    if w.is_empty() {
        user_message.to_owned()
    } else {
        let context = render_context(&w);
        let mut prompt = String::from_str("Previous conversation:\n");
        prompt.append(context.as_str());
        prompt.append("\n\nUser: ");
        prompt.append(user_message);
        prompt
    }
}

/// The model a chat turn uses: the caller's choice, else the environment's
/// default, else the fixed fallback.
pub open spec fn spec_chat_model(chosen: Option<Seq<char>>, env_default: Option<Seq<char>>) -> Seq<
    char,
> {
    match chosen {
        Some(m) => m,
        None => match env_default {
            Some(e) => e,
            None => FALLBACK_CHAT_MODEL@,
        },
    }
}

/// The system prompt a chat turn uses: the caller's, else the fixed
/// persona.
pub open spec fn spec_chat_system(chosen: Option<Seq<char>>) -> Seq<char> {
    match chosen {
        Some(s) => s,
        None => CHAT_SYSTEM_PROMPT@,
    }
}

/// A prepared chat turn: the upstream call and the model it names.
pub struct ChatPrep {
    pub call: ChatCall,
    pub model: String,
}

/// Builds the whole upstream call for one chat turn over the loaded
/// session: context window of `window` messages, prompt, model and persona
/// selection, and the fixed chat budgets.
pub fn prepare_chat_call(
    client: &LlmClient,
    session: &Session,
    message: &str,
    model_override: Option<&str>,
    system_override: Option<&str>,
    env_default_model: Option<&str>,
    window: usize,
) -> (p: ChatPrep)
    ensures
        p.model@ == spec_chat_model(opt_text(model_override), opt_text(env_default_model)),
        call_shape(
            p.call,
            *client,
            spec_chat_system(opt_text(system_override)),
            spec_chat_prompt(spec_window(session@.messages, window as int), message@),
            p.model@,
            Some(1000u32),
            Some(700u32),
        ),
{
    let prompt = build_chat_prompt(session, message, window);
    let model: String = match model_override {
        Some(m) => m.to_owned(),
        None => match env_default_model {
            Some(e) => e.to_owned(),
            None => String::from_str(FALLBACK_CHAT_MODEL),
        },
    };
    let system: &str = match system_override {
        Some(s) => s,
        None => CHAT_SYSTEM_PROMPT,
    };
    let call = client.prepare_complete(
        prompt.as_str(),
        model.as_str(),
        Some(system),
        Some(1000),
        Some(700),
    );
    ChatPrep { call, model }
}

/// Records one exchange: the user turn, then the assistant turn, as two
/// separate appends in that order — two invalidations, no transaction.
/// Returns whether the session existed; as in the store, a missing session
/// makes both appends no-ops.
pub fn record_chat_exchange(
    store: &mut SessionStore,
    id: u64,
    user_message: Message,
    assistant_message: Message,
    now_ms: i64,
) -> (r: bool)
    requires
        old(store).wf(),
    ensures
        final(store).wf(),
        r == old(store).docs_model().contains_key(id),
        final(store).cache_model() == old(store).cache_model().remove(id),
        r ==> final(store).docs_model() == old(store).docs_model().insert(
            id,
            session_with_message(
                session_with_message(old(store).docs_model()[id], user_message, now_ms),
                assistant_message,
                now_ms,
            ),
        ),
        !r ==> final(store).docs_model() == old(store).docs_model(),
{
    let r1 = store.add_message(id, user_message, now_ms);
    store.add_message(id, assistant_message, now_ms);
    proof {
        if r1 {
            assert(store.docs_model() =~= old(store).docs_model().insert(
                id,
                session_with_message(
                    session_with_message(old(store).docs_model()[id], user_message, now_ms),
                    assistant_message,
                    now_ms,
                ),
            ));
        }
        assert(store.cache_model() =~= old(store).cache_model().remove(id));
    }
    r1
}

/// Two sequential chat turns on one session append exactly four messages —
/// each turn its user message then its assistant reply, in call order.
pub proof fn lemma_two_turns_append_four(
    docs: Map<u64, SessionView>,
    id: u64,
    user1: Message,
    assistant1: Message,
    user2: Message,
    assistant2: Message,
    now1: i64,
    now2: i64,
)
    requires
        docs.contains_key(id),
    ensures
        ({
            let turn1 = docs.insert(
                id,
                session_with_message(session_with_message(docs[id], user1, now1), assistant1, now1),
            );
            let turn2 = turn1.insert(
                id,
                session_with_message(
                    session_with_message(turn1[id], user2, now2),
                    assistant2,
                    now2,
                ),
            );
            &&& turn2[id].messages.len() == docs[id].messages.len() + 4
            &&& turn2[id].messages == docs[id].messages.push(user1).push(assistant1).push(
                user2,
            ).push(assistant2)
        }),
{
}

} // verus!

use vstd::prelude::*;
use vstd::string::StringExecFns;
use crate::json::json_string;
use crate::json::append_json_string;
use crate::json::comma_join;
use crate::json::lemma_comma_join_push;
use crate::role::Role;
use crate::role::role_tag;
use crate::function_call::FunctionCall;
use crate::function_call::json_of_function_call;
use crate::function_call::append_function_call_json;

verus! {

/// One conversation turn: who spoke, the text, and — for function turns —
/// the function-call record and the function's name. Turns are immutable
/// once appended and their order is the chronological turn order.
#[derive(Clone, Debug, PartialEq)]
pub struct ChatMessage {
    pub role: Role,
    pub content: String,
    pub function_call: Option<FunctionCall>,
    pub name: Option<String>,
}

/// The wire form of one message: `role` and `content` always, the
/// `function_call` and `name` members only when set.
pub open spec fn json_of_message(m: ChatMessage) -> Seq<char> {
    "{\"role\":"@ + json_string(role_tag(m.role)) + ",\"content\":"@ + json_string(m.content@)
        + (match m.function_call {
        Some(fc) => ",\"function_call\":"@ + json_of_function_call(fc),
        None => Seq::<char>::empty(),
    }) + (match m.name {
        Some(n) => ",\"name\":"@ + json_string(n@),
        None => Seq::<char>::empty(),
    }) + seq!['}']
}

/// The wire forms of a list of messages, one per message, in order.
pub open spec fn message_jsons(ms: Seq<ChatMessage>) -> Seq<Seq<char>> {
    ms.map_values(|m: ChatMessage| json_of_message(m))
}

/// The wire form of the conversation: a JSON array of the messages in turn
/// order.
pub open spec fn json_of_messages(ms: Seq<ChatMessage>) -> Seq<char> {
    seq!['['] + comma_join(message_jsons(ms)) + seq![']']
}

/// Appends the wire form of one message to `out`.
pub fn append_message_json(out: &mut String, m: &ChatMessage)
    ensures
        final(out)@ == old(out)@ + json_of_message(*m),
{
    let ghost base = old(out)@;
    out.append("{\"role\":");
    append_json_string(out, m.role.tag());
    out.append(",\"content\":");
    append_json_string(out, m.content.as_str());
    match &m.function_call {
        Some(fc) => {
            out.append(",\"function_call\":");
            append_function_call_json(out, fc);
        },
        None => {},
    }
    match &m.name {
        Some(n) => {
            out.append(",\"name\":");
            append_json_string(out, n.as_str());
        },
        None => {},
    }
    out.append("}");
    proof {
        reveal_strlit("}");
        assert("}"@ =~= seq!['}']);
        assert(out@ =~= base + json_of_message(*m));
    }
}

/// Appends the wire form of the whole conversation to `out`.
pub fn append_messages_json(out: &mut String, ms: &Vec<ChatMessage>)
    ensures
        final(out)@ == old(out)@ + json_of_messages(ms@),
{
    let ghost base = old(out)@;
    out.append("[");
    proof {
        reveal_strlit("[");
        assert("["@ =~= seq!['[']);
        assert(message_jsons(ms@.subrange(0, 0)) =~= Seq::<Seq<char>>::empty());
        assert(out@ =~= base + seq!['['] + comma_join(message_jsons(ms@.subrange(0, 0))));
    }
    let mut i: usize = 0;
    while i < ms.len()
        invariant
            i <= ms@.len(),
            out@ == base + seq!['['] + comma_join(message_jsons(ms@.subrange(0, i as int))),
        decreases ms@.len() - i,
    {
        if i > 0 {
            out.append(",");
            proof {
                reveal_strlit(",");
                assert(","@ =~= seq![',']);
            }
        }
        append_message_json(out, &ms[i]);
        proof {
            let ghost prefix = message_jsons(ms@.subrange(0, i as int));
            assert(prefix.len() == i);
            assert(message_jsons(ms@.subrange(0, i + 1)) =~= prefix.push(json_of_message(ms@[i as int])));
            lemma_comma_join_push(prefix, json_of_message(ms@[i as int]));
            assert(out@ =~= base + seq!['['] + comma_join(message_jsons(ms@.subrange(0, i + 1))));
        }
        i = i + 1;
    }
    out.append("]");
    proof {
        reveal_strlit("]");
        assert("]"@ =~= seq![']']);
        assert(ms@.subrange(0, ms@.len() as int) =~= ms@);
        assert(out@ =~= base + json_of_messages(ms@));
    }
}

/// Accumulates an ordered conversation, one helper per role. This is pure
/// data assembly: empty content is syntactically permitted here, and the
/// request builder performs the real guard when a message is added there.
pub struct ChatMessageBuilder {
    messages: Vec<ChatMessage>,
}

impl View for ChatMessageBuilder {
    type V = Seq<ChatMessage>;

    closed spec fn view(&self) -> Seq<ChatMessage> {
        self.messages@
    }
}

impl ChatMessageBuilder {
    pub fn new() -> (r: ChatMessageBuilder)
        ensures
            r@ == Seq::<ChatMessage>::empty(),
    {
        ChatMessageBuilder { messages: Vec::new() }
    }

    /// Appends a system turn with the given content.
    pub fn system(self, content: String) -> (r: ChatMessageBuilder)
        ensures
            r@ == self@.push(
                ChatMessage { role: Role::System, content, function_call: None, name: None },
            ),
    {
        let mut messages = self.messages;
        messages.push(ChatMessage { role: Role::System, content, function_call: None, name: None });
        ChatMessageBuilder { messages }
    }

    /// Appends an assistant turn with the given content.
    pub fn assistant(self, content: String) -> (r: ChatMessageBuilder)
        ensures
            r@ == self@.push(
                ChatMessage { role: Role::Assistant, content, function_call: None, name: None },
            ),
    {
        let mut messages = self.messages;
        messages.push(
            ChatMessage { role: Role::Assistant, content, function_call: None, name: None },
        );
        ChatMessageBuilder { messages }
    }

    /// Appends a user turn with the given content.
    pub fn user(self, content: String) -> (r: ChatMessageBuilder)
        ensures
            r@ == self@.push(
                ChatMessage { role: Role::User, content, function_call: None, name: None },
            ),
    {
        let mut messages = self.messages;
        messages.push(ChatMessage { role: Role::User, content, function_call: None, name: None });
        ChatMessageBuilder { messages }
    }

    /// Appends a function turn with the given content, the function-call
    /// record, and the function's name.
    pub fn function(self, content: String, function_call: FunctionCall, name: String) -> (r:
        ChatMessageBuilder)
        ensures
            r@ == self@.push(
                ChatMessage {
                    role: Role::Function,
                    content,
                    function_call: Some(function_call),
                    name: Some(name),
                },
            ),
    {
        let mut messages = self.messages;
        messages.push(
            ChatMessage {
                role: Role::Function,
                content,
                function_call: Some(function_call),
                name: Some(name),
            },
        );
        ChatMessageBuilder { messages }
    }

    /// Yields the accumulated conversation in turn order.
    pub fn build(self) -> (r: Vec<ChatMessage>)
        ensures
            r@ == self@,
    {
        self.messages
    }
}

} // verus!

use vstd::prelude::*;
use vstd::string::StringExecFns;
use crate::api_type::ApiType;
use crate::chat_error::ChatCompletionError;
use crate::chat_message::ChatMessage;
use crate::chat_message::json_of_messages;
use crate::chat_message::append_messages_json;
use crate::function_definition::FunctionDefinition;
use crate::function_definition::json_of_function_definition;
use crate::function_definition::append_function_definition_json;
use crate::json::comma_join;
use crate::json::dec_str;
use crate::json::json_string;
use crate::json::lemma_comma_join_push;
use crate::json::milli_str;
use crate::json::append_json_string;
use crate::json::u64_to_string;
use crate::milli::Milli;

verus! {

/// The abstract value of a completion request: each field as the setters
/// left it, with lists as sequences. An unset optional field is `None` and
/// is omitted from the wire form.
#[verifier::ext_equal]
pub struct ChatCompletionView {
    pub model: Option<String>,
    pub messages: Seq<ChatMessage>,
    pub temperature: Option<Milli>,
    pub top_p: Option<Milli>,
    pub n: Option<u16>,
    pub stream: Option<bool>,
    pub stop: Option<Seq<String>>,
    pub max_tokens: Option<u32>,
    pub presence_penalty: Option<Milli>,
    pub frequency_penalty: Option<Milli>,
    pub logit_bias: Option<Seq<(String, Milli)>>,
    pub user: Option<String>,
    pub function_call: Option<String>,
    pub functions: Option<Seq<FunctionDefinition>>,
}

/// The wire forms of the stop sequences, one JSON string per entry.
pub open spec fn string_jsons(xs: Seq<String>) -> Seq<Seq<char>> {
    xs.map_values(|x: String| json_string(x@))
}

/// The wire form of one logit-bias entry: the token as a JSON string, a
/// colon, and the weight.
pub open spec fn logit_entry_json(p: (String, Milli)) -> Seq<char> {
    json_string(p.0@) + ":"@ + milli_str(p.1.thousandths as int)
}

/// The wire forms of the logit-bias entries, in order.
pub open spec fn logit_jsons(xs: Seq<(String, Milli)>) -> Seq<Seq<char>> {
    xs.map_values(|p: (String, Milli)| logit_entry_json(p))
}

/// The wire forms of the function definitions, in order.
pub open spec fn function_definition_jsons(xs: Seq<FunctionDefinition>) -> Seq<Seq<char>> {
    xs.map_values(|d: FunctionDefinition| json_of_function_definition(d))
}

/// The `model` member with its trailing comma, or nothing when unset. It is
/// the one member that precedes `messages`.
pub open spec fn model_member(x: Option<String>) -> Seq<char> {
    match x {
        Some(m) => "\"model\":"@ + json_string(m@) + ","@,
        None => Seq::<char>::empty(),
    }
}

/// The `temperature` member with its leading comma, or nothing when unset.
pub open spec fn temperature_member(x: Option<Milli>) -> Seq<char> {
    match x {
        Some(v) => ",\"temperature\":"@ + milli_str(v.thousandths as int),
        None => Seq::<char>::empty(),
    }
}

/// The `top_p` member with its leading comma, or nothing when unset.
pub open spec fn top_p_member(x: Option<Milli>) -> Seq<char> {
    match x {
        Some(v) => ",\"top_p\":"@ + milli_str(v.thousandths as int),
        None => Seq::<char>::empty(),
    }
}

/// The `n` member with its leading comma, or nothing when unset.
pub open spec fn n_member(x: Option<u16>) -> Seq<char> {
    match x {
        Some(v) => ",\"n\":"@ + dec_str(v as nat),
        None => Seq::<char>::empty(),
    }
}

/// The `stream` member with its leading comma, or nothing when unset.
pub open spec fn stream_member(x: Option<bool>) -> Seq<char> {
    match x {
        Some(b) => ",\"stream\":"@ + (if b {
            "true"@
        } else {
            "false"@
        }),
        None => Seq::<char>::empty(),
    }
}

/// The `stop` member with its leading comma, or nothing when unset.
pub open spec fn stop_member(x: Option<Seq<String>>) -> Seq<char> {
    match x {
        Some(xs) => ",\"stop\":"@ + seq!['['] + comma_join(string_jsons(xs)) + seq![']'],
        None => Seq::<char>::empty(),
    }
}

/// The `max_tokens` member with its leading comma, or nothing when unset.
pub open spec fn max_tokens_member(x: Option<u32>) -> Seq<char> {
    match x {
        Some(v) => ",\"max_tokens\":"@ + dec_str(v as nat),
        None => Seq::<char>::empty(),
    }
}

/// The `presence_penalty` member with its leading comma, or nothing when
/// unset.
pub open spec fn presence_penalty_member(x: Option<Milli>) -> Seq<char> {
    match x {
        Some(v) => ",\"presence_penalty\":"@ + milli_str(v.thousandths as int),
        None => Seq::<char>::empty(),
    }
}

/// The `frequency_penalty` member with its leading comma, or nothing when
/// unset.
pub open spec fn frequency_penalty_member(x: Option<Milli>) -> Seq<char> {
    match x {
        Some(v) => ",\"frequency_penalty\":"@ + milli_str(v.thousandths as int),
        None => Seq::<char>::empty(),
    }
}

/// The `logit_bias` member with its leading comma, or nothing when unset.
pub open spec fn logit_bias_member(x: Option<Seq<(String, Milli)>>) -> Seq<char> {
    match x {
        Some(xs) => ",\"logit_bias\":"@ + seq!['{'] + comma_join(logit_jsons(xs)) + seq!['}'],
        None => Seq::<char>::empty(),
    }
}

/// The `user` member with its leading comma, or nothing when unset.
pub open spec fn user_member(x: Option<String>) -> Seq<char> {
    match x {
        Some(u) => ",\"user\":"@ + json_string(u@),
        None => Seq::<char>::empty(),
    }
}

/// The `function_call` member with its leading comma, or nothing when
/// unset.
pub open spec fn function_call_member(x: Option<String>) -> Seq<char> {
    match x {
        Some(f) => ",\"function_call\":"@ + json_string(f@),
        None => Seq::<char>::empty(),
    }
}

/// The `functions` member with its leading comma, or nothing when unset.
pub open spec fn functions_member(x: Option<Seq<FunctionDefinition>>) -> Seq<char> {
    match x {
        Some(xs) => ",\"functions\":"@ + seq!['['] + comma_join(function_definition_jsons(xs))
            + seq![']'],
        None => Seq::<char>::empty(),
    }
}

/// The full wire form of a request: a JSON object holding the `messages`
/// member always, each optional member only when set, in the fixed member
/// order, and nothing else.
pub open spec fn json_of_request(v: ChatCompletionView) -> Seq<char> {
    "{"@ + model_member(v.model) + "\"messages\":"@ + json_of_messages(v.messages)
        + temperature_member(v.temperature) + top_p_member(v.top_p) + n_member(v.n)
        + stream_member(v.stream) + stop_member(v.stop) + max_tokens_member(v.max_tokens)
        + presence_penalty_member(v.presence_penalty) + frequency_penalty_member(
        v.frequency_penalty,
    ) + logit_bias_member(v.logit_bias) + user_member(v.user) + function_call_member(
        v.function_call,
    ) + functions_member(v.functions) + "}"@
}

/// With every optional field unset, the wire form holds exactly the
/// `messages` member: an object with no other keys.
pub proof fn lemma_only_messages_member(v: ChatCompletionView)
    requires
        v.model is None,
        v.temperature is None,
        v.top_p is None,
        v.n is None,
        v.stream is None,
        v.stop is None,
        v.max_tokens is None,
        v.presence_penalty is None,
        v.frequency_penalty is None,
        v.logit_bias is None,
        v.user is None,
        v.function_call is None,
        v.functions is None,
    ensures
        json_of_request(v) == "{"@ + "\"messages\":"@ + json_of_messages(v.messages) + "}"@,
{
    assert(json_of_request(v) =~= "{"@ + "\"messages\":"@ + json_of_messages(v.messages) + "}"@);
}

/// A completion request under construction. Every range-constrained field
/// is validated at the point it is set, so a request that reaches the
/// dispatch layer carries only values inside their documented ranges.
#[derive(Debug)]
pub struct ChatCompletion {
    model: Option<String>,
    messages: Vec<ChatMessage>,
    temperature: Option<Milli>,
    top_p: Option<Milli>,
    n: Option<u16>,
    stream: Option<bool>,
    stop: Option<Vec<String>>,
    max_tokens: Option<u32>,
    presence_penalty: Option<Milli>,
    frequency_penalty: Option<Milli>,
    logit_bias: Option<Vec<(String, Milli)>>,
    user: Option<String>,
    function_call: Option<String>,
    functions: Option<Vec<FunctionDefinition>>,
}

impl View for ChatCompletion {
    type V = ChatCompletionView;

    closed spec fn view(&self) -> ChatCompletionView {
        ChatCompletionView {
            model: self.model,
            messages: self.messages@,
            temperature: self.temperature,
            top_p: self.top_p,
            n: self.n,
            stream: self.stream,
            stop: match self.stop {
                Some(v) => Some(v@),
                None => None,
            },
            max_tokens: self.max_tokens,
            presence_penalty: self.presence_penalty,
            frequency_penalty: self.frequency_penalty,
            logit_bias: match self.logit_bias {
                Some(v) => Some(v@),
                None => None,
            },
            user: self.user,
            function_call: self.function_call,
            functions: match self.functions {
                Some(v) => Some(v@),
                None => None,
            },
        }
    }
}

impl ChatCompletion {
    /// A fresh request: no messages yet and every optional field unset.
    pub fn new() -> (r: ChatCompletion)
        ensures
            r@ == (ChatCompletionView {
                model: None,
                messages: Seq::<ChatMessage>::empty(),
                temperature: None,
                top_p: None,
                n: None,
                stream: None,
                stop: None,
                max_tokens: None,
                presence_penalty: None,
                frequency_penalty: None,
                logit_bias: None,
                user: None,
                function_call: None,
                functions: None,
            }),
    {
        let r = ChatCompletion {
            model: None,
            messages: Vec::new(),
            temperature: None,
            top_p: None,
            n: None,
            stream: None,
            stop: None,
            max_tokens: None,
            presence_penalty: None,
            frequency_penalty: None,
            logit_bias: None,
            user: None,
            function_call: None,
            functions: None,
        };
        proof {
            assert(r@ =~= (ChatCompletionView {
                model: None,
                messages: Seq::<ChatMessage>::empty(),
                temperature: None,
                top_p: None,
                n: None,
                stream: None,
                stop: None,
                max_tokens: None,
                presence_penalty: None,
                frequency_penalty: None,
                logit_bias: None,
                user: None,
                function_call: None,
                functions: None,
            }));
        }
        r
    }

    /// Appends one message, rejecting empty content; the single-message
    /// path is the validated way into the conversation.
    pub fn message(self, message: ChatMessage) -> (r: Result<ChatCompletion, ChatCompletionError>)
        ensures
            r is Ok <==> message.content@.len() > 0,
            r matches Ok(c) ==> c@ == (ChatCompletionView {
                messages: self@.messages.push(message),
                ..self@
            }),
            r matches Err(e) ==> e == ChatCompletionError::EmptyMessageContent,
    {
        if message.content.as_str().is_empty() {
            Err(ChatCompletionError::EmptyMessageContent)
        } else {
            let mut s = self;
            s.messages.push(message);
            Ok(s)
        }
    }

    /// Replaces the whole conversation. Bulk replacement deliberately
    /// bypasses the per-message content validation: it is meant for lists
    /// assembled by `ChatMessageBuilder`.
    pub fn messages(self, messages: Vec<ChatMessage>) -> (r: ChatCompletion)
        ensures
            r@ == (ChatCompletionView { messages: messages@, ..self@ }),
    {
        let mut s = self;
        s.messages = messages;
        s
    }

    /// Sets the sampling temperature, accepted exactly when it lies in
    /// [0.000, 2.000].
    pub fn temperature(self, temperature: Milli) -> (r: Result<
        ChatCompletion,
        ChatCompletionError,
    >)
        ensures
            r is Ok <==> 0 <= temperature.thousandths <= 2000,
            r matches Ok(c) ==> c@ == (ChatCompletionView {
                temperature: Some(temperature),
                ..self@
            }),
            r matches Err(e) ==> e == ChatCompletionError::TemperatureValueOutOfRange(temperature),
    {
        if temperature.thousandths < 0 || temperature.thousandths > 2000 {
            Err(ChatCompletionError::TemperatureValueOutOfRange(temperature))
        } else {
            let mut s = self;
            s.temperature = Some(temperature);
            Ok(s)
        }
    }

    /// Sets the nucleus-sampling probability, accepted exactly when it lies
    /// in [0.000, 1.000].
    pub fn top_p(self, top_p: Milli) -> (r: Result<ChatCompletion, ChatCompletionError>)
        ensures
            r is Ok <==> 0 <= top_p.thousandths <= 1000,
            r matches Ok(c) ==> c@ == (ChatCompletionView { top_p: Some(top_p), ..self@ }),
            r matches Err(e) ==> e == ChatCompletionError::TopPValueOutOfRange(top_p),
    {
        if top_p.thousandths < 0 || top_p.thousandths > 1000 {
            Err(ChatCompletionError::TopPValueOutOfRange(top_p))
        } else {
            let mut s = self;
            s.top_p = Some(top_p);
            Ok(s)
        }
    }

    /// Sets the number of candidate completions to request.
    pub fn n(self, n: u16) -> (r: ChatCompletion)
        ensures
            r@ == (ChatCompletionView { n: Some(n), ..self@ }),
    {
        let mut s = self;
        s.n = Some(n);
        s
    }

    /// Sets the streaming flag.
    pub fn stream(self, stream: bool) -> (r: ChatCompletion)
        ensures
            r@ == (ChatCompletionView { stream: Some(stream), ..self@ }),
    {
        let mut s = self;
        s.stream = Some(stream);
        s
    }

    /// Sets the stop sequences. An empty list clears the field; one to four
    /// entries are accepted; more fail with the count.
    pub fn stop(self, stop: Vec<String>) -> (r: Result<ChatCompletion, ChatCompletionError>)
        ensures
            r is Ok <==> stop@.len() <= 4,
            stop@.len() == 0 ==> (r matches Ok(c) && c@ == (ChatCompletionView {
                stop: None,
                ..self@
            })),
            1 <= stop@.len() <= 4 ==> (r matches Ok(c) && c@ == (ChatCompletionView {
                stop: Some(stop@),
                ..self@
            })),
            r matches Err(e) ==> e == ChatCompletionError::StopSequencesOutOfRange(
                stop@.len() as usize,
            ),
    {
        if stop.len() == 0 {
            let mut s = self;
            s.stop = None;
            Ok(s)
        } else if stop.len() > 4 {
            Err(ChatCompletionError::StopSequencesOutOfRange(stop.len()))
        } else {
            let mut s = self;
            s.stop = Some(stop);
            Ok(s)
        }
    }

    /// Sets the output-token budget.
    pub fn max_tokens(self, max_tokens: u32) -> (r: ChatCompletion)
        ensures
            r@ == (ChatCompletionView { max_tokens: Some(max_tokens), ..self@ }),
    {
        let mut s = self;
        s.max_tokens = Some(max_tokens);
        s
    }

    /// Sets the presence penalty, accepted exactly when it lies in
    /// [-2.000, 2.000].
    pub fn presence_penalty(self, presence_penalty: Milli) -> (r: Result<
        ChatCompletion,
        ChatCompletionError,
    >)
        ensures
            r is Ok <==> -2000 <= presence_penalty.thousandths <= 2000,
            r matches Ok(c) ==> c@ == (ChatCompletionView {
                presence_penalty: Some(presence_penalty),
                ..self@
            }),
            r matches Err(e) ==> e == ChatCompletionError::PresencePenaltyValueOutOfRange(
                presence_penalty,
            ),
    {
        if presence_penalty.thousandths < -2000 || presence_penalty.thousandths > 2000 {
            Err(ChatCompletionError::PresencePenaltyValueOutOfRange(presence_penalty))
        } else {
            let mut s = self;
            s.presence_penalty = Some(presence_penalty);
            Ok(s)
        }
    }

    /// Sets the frequency penalty, accepted exactly when it lies in
    /// [-2.000, 2.000].
    pub fn frequency_penalty(self, frequency_penalty: Milli) -> (r: Result<
        ChatCompletion,
        ChatCompletionError,
    >)
        ensures
            r is Ok <==> -2000 <= frequency_penalty.thousandths <= 2000,
            r matches Ok(c) ==> c@ == (ChatCompletionView {
                frequency_penalty: Some(frequency_penalty),
                ..self@
            }),
            r matches Err(e) ==> e == ChatCompletionError::FrequencyPenaltyValueOutOfRange(
                frequency_penalty,
            ),
    {
        if frequency_penalty.thousandths < -2000 || frequency_penalty.thousandths > 2000 {
            Err(ChatCompletionError::FrequencyPenaltyValueOutOfRange(frequency_penalty))
        } else {
            let mut s = self;
            s.frequency_penalty = Some(frequency_penalty);
            Ok(s)
        }
    }

    /// Sets the per-token logit biases; an empty mapping clears the field.
    pub fn logit_bias(self, logit_bias: Vec<(String, Milli)>) -> (r: ChatCompletion)
        ensures
            logit_bias@.len() == 0 ==> r@ == (ChatCompletionView { logit_bias: None, ..self@ }),
            logit_bias@.len() > 0 ==> r@ == (ChatCompletionView {
                logit_bias: Some(logit_bias@),
                ..self@
            }),
    {
        let mut s = self;
        if logit_bias.len() == 0 {
            s.logit_bias = None;
        } else {
            s.logit_bias = Some(logit_bias);
        }
        s
    }

    /// Sets the end-user tag; an empty string clears the field.
    pub fn user(self, user: String) -> (r: ChatCompletion)
        ensures
            user@.len() == 0 ==> r@ == (ChatCompletionView { user: None, ..self@ }),
            user@.len() > 0 ==> r@ == (ChatCompletionView { user: Some(user), ..self@ }),
    {
        let mut s = self;
        if user.as_str().is_empty() {
            s.user = None;
        } else {
            s.user = Some(user);
        }
        s
    }

    /// Sets the function-call directive; an empty string clears the field.
    pub fn function_call(self, function_call: String) -> (r: ChatCompletion)
        ensures
            function_call@.len() == 0 ==> r@ == (ChatCompletionView {
                function_call: None,
                ..self@
            }),
            function_call@.len() > 0 ==> r@ == (ChatCompletionView {
                function_call: Some(function_call),
                ..self@
            }),
    {
        let mut s = self;
        if function_call.as_str().is_empty() {
            s.function_call = None;
        } else {
            s.function_call = Some(function_call);
        }
        s
    }

    /// Sets the available function definitions; an empty list clears the
    /// field.
    pub fn functions(self, functions: Vec<FunctionDefinition>) -> (r: ChatCompletion)
        ensures
            functions@.len() == 0 ==> r@ == (ChatCompletionView { functions: None, ..self@ }),
            functions@.len() > 0 ==> r@ == (ChatCompletionView {
                functions: Some(functions@),
                ..self@
            }),
    {
        let mut s = self;
        if functions.len() == 0 {
            s.functions = None;
        } else {
            s.functions = Some(functions);
        }
        s
    }

    /// Makes the request ready for a given provider kind. It fails when no
    /// messages were added, whatever else was set. For the direct API the
    /// model identifier is stamped into the body; for the gateway kinds the
    /// model travels in the URI instead and is kept out of the body.
    pub fn finalize(&mut self, api_type: &ApiType, model_id: &str) -> (r: Result<
        (),
        ChatCompletionError,
    >)
        ensures
            r is Ok <==> old(self)@.messages.len() > 0,
            r matches Err(e) ==> e == ChatCompletionError::EmptyMessages && final(self)@ == old(
                self,
            )@,
            r is Ok ==> final(self)@ == (ChatCompletionView {
                model: final(self)@.model,
                ..old(self)@
            }),
            r is Ok && *api_type is OpenAI ==> (final(self)@.model matches Some(m) && m@
                == model_id@),
            r is Ok && !(*api_type is OpenAI) ==> final(self)@.model is None,
    {
        if self.messages.len() == 0 {
            return Err(ChatCompletionError::EmptyMessages);
        }
        match api_type {
            ApiType::OpenAI => {
                self.model = Some(model_id.to_owned());
            },
            ApiType::Azure | ApiType::AzureAD => {
                self.model = None;
            },
        }
        Ok(())
    }

    /// Renders the request in its JSON wire form.
    pub fn to_json(&self) -> (r: String)
        ensures
            r@ == json_of_request(self@),
    {
        let mut out = String::new();
        out.append("{");
        append_model_member(&mut out, &self.model);
        out.append("\"messages\":");
        append_messages_json(&mut out, &self.messages);
        append_temperature_member(&mut out, &self.temperature);
        append_top_p_member(&mut out, &self.top_p);
        append_n_member(&mut out, &self.n);
        append_stream_member(&mut out, &self.stream);
        append_stop_member(&mut out, &self.stop);
        append_max_tokens_member(&mut out, &self.max_tokens);
        append_presence_penalty_member(&mut out, &self.presence_penalty);
        append_frequency_penalty_member(&mut out, &self.frequency_penalty);
        append_logit_bias_member(&mut out, &self.logit_bias);
        append_user_member(&mut out, &self.user);
        append_function_call_member(&mut out, &self.function_call);
        append_functions_member(&mut out, &self.functions);
        out.append("}");
        proof {
            assert(out@ =~= json_of_request(self@));
        }
        out
    }
}

fn append_model_member(out: &mut String, x: &Option<String>)
    ensures
        final(out)@ == old(out)@ + model_member(*x),
{
    let ghost base = old(out)@;
    match x {
        Some(m) => {
            out.append("\"model\":");
            append_json_string(out, m.as_str());
            out.append(",");
            proof {
                assert(out@ =~= base + model_member(*x));
            }
        },
        None => {
            proof {
                assert(out@ =~= base + model_member(*x));
            }
        },
    }
}

fn append_temperature_member(out: &mut String, x: &Option<Milli>)
    ensures
        final(out)@ == old(out)@ + temperature_member(*x),
{
    let ghost base = old(out)@;
    match x {
        Some(v) => {
            out.append(",\"temperature\":");
            out.append(v.to_decimal_string().as_str());
            proof {
                assert(out@ =~= base + temperature_member(*x));
            }
        },
        None => {
            proof {
                assert(out@ =~= base + temperature_member(*x));
            }
        },
    }
}

fn append_top_p_member(out: &mut String, x: &Option<Milli>)
    ensures
        final(out)@ == old(out)@ + top_p_member(*x),
{
    let ghost base = old(out)@;
    match x {
        Some(v) => {
            out.append(",\"top_p\":");
            out.append(v.to_decimal_string().as_str());
            proof {
                assert(out@ =~= base + top_p_member(*x));
            }
        },
        None => {
            proof {
                assert(out@ =~= base + top_p_member(*x));
            }
        },
    }
}

fn append_n_member(out: &mut String, x: &Option<u16>)
    ensures
        final(out)@ == old(out)@ + n_member(*x),
{
    let ghost base = old(out)@;
    match x {
        Some(v) => {
            out.append(",\"n\":");
            out.append(u64_to_string(*v as u64).as_str());
            proof {
                assert(out@ =~= base + n_member(*x));
            }
        },
        None => {
            proof {
                assert(out@ =~= base + n_member(*x));
            }
        },
    }
}

fn append_stream_member(out: &mut String, x: &Option<bool>)
    ensures
        final(out)@ == old(out)@ + stream_member(*x),
{
    let ghost base = old(out)@;
    match x {
        Some(b) => {
            out.append(",\"stream\":");
            if *b {
                out.append("true");
            } else {
                out.append("false");
            }
            proof {
                assert(out@ =~= base + stream_member(*x));
            }
        },
        None => {
            proof {
                assert(out@ =~= base + stream_member(*x));
            }
        },
    }
}

fn append_stop_member(out: &mut String, x: &Option<Vec<String>>)
    ensures
        final(out)@ == old(out)@ + stop_member(
            match x {
                Some(v) => Some(v@),
                None => None,
            },
        ),
{
    let ghost base = old(out)@;
    match x {
        Some(xs) => {
            out.append(",\"stop\":");
            append_string_array(out, xs);
            proof {
                assert(out@ =~= base + stop_member(Some(xs@)));
            }
        },
        None => {
            proof {
                assert(out@ =~= base + stop_member(None::<Seq<String>>));
            }
        },
    }
}

fn append_max_tokens_member(out: &mut String, x: &Option<u32>)
    ensures
        final(out)@ == old(out)@ + max_tokens_member(*x),
{
    let ghost base = old(out)@;
    match x {
        Some(v) => {
            out.append(",\"max_tokens\":");
            out.append(u64_to_string(*v as u64).as_str());
            proof {
                assert(out@ =~= base + max_tokens_member(*x));
            }
        },
        None => {
            proof {
                assert(out@ =~= base + max_tokens_member(*x));
            }
        },
    }
}

fn append_presence_penalty_member(out: &mut String, x: &Option<Milli>)
    ensures
        final(out)@ == old(out)@ + presence_penalty_member(*x),
{
    let ghost base = old(out)@;
    match x {
        Some(v) => {
            out.append(",\"presence_penalty\":");
            out.append(v.to_decimal_string().as_str());
            proof {
                assert(out@ =~= base + presence_penalty_member(*x));
            }
        },
        None => {
            proof {
                assert(out@ =~= base + presence_penalty_member(*x));
            }
        },
    }
}

fn append_frequency_penalty_member(out: &mut String, x: &Option<Milli>)
    ensures
        final(out)@ == old(out)@ + frequency_penalty_member(*x),
{
    let ghost base = old(out)@;
    match x {
        Some(v) => {
            out.append(",\"frequency_penalty\":");
            out.append(v.to_decimal_string().as_str());
            proof {
                assert(out@ =~= base + frequency_penalty_member(*x));
            }
        },
        None => {
            proof {
                assert(out@ =~= base + frequency_penalty_member(*x));
            }
        },
    }
}

fn append_logit_bias_member(out: &mut String, x: &Option<Vec<(String, Milli)>>)
    ensures
        final(out)@ == old(out)@ + logit_bias_member(
            match x {
                Some(v) => Some(v@),
                None => None,
            },
        ),
{
    let ghost base = old(out)@;
    match x {
        Some(xs) => {
            out.append(",\"logit_bias\":");
            append_logit_bias_object(out, xs);
            proof {
                assert(out@ =~= base + logit_bias_member(Some(xs@)));
            }
        },
        None => {
            proof {
                assert(out@ =~= base + logit_bias_member(None::<Seq<(String, Milli)>>));
            }
        },
    }
}

fn append_user_member(out: &mut String, x: &Option<String>)
    ensures
        final(out)@ == old(out)@ + user_member(*x),
{
    let ghost base = old(out)@;
    match x {
        Some(u) => {
            out.append(",\"user\":");
            append_json_string(out, u.as_str());
            proof {
                assert(out@ =~= base + user_member(*x));
            }
        },
        None => {
            proof {
                assert(out@ =~= base + user_member(*x));
            }
        },
    }
}

fn append_function_call_member(out: &mut String, x: &Option<String>)
    ensures
        final(out)@ == old(out)@ + function_call_member(*x),
{
    let ghost base = old(out)@;
    match x {
        Some(f) => {
            out.append(",\"function_call\":");
            append_json_string(out, f.as_str());
            proof {
                assert(out@ =~= base + function_call_member(*x));
            }
        },
        None => {
            proof {
                assert(out@ =~= base + function_call_member(*x));
            }
        },
    }
}

fn append_functions_member(out: &mut String, x: &Option<Vec<FunctionDefinition>>)
    ensures
        final(out)@ == old(out)@ + functions_member(
            match x {
                Some(v) => Some(v@),
                None => None,
            },
        ),
{
    let ghost base = old(out)@;
    match x {
        Some(xs) => {
            out.append(",\"functions\":");
            append_functions_array(out, xs);
            proof {
                assert(out@ =~= base + functions_member(Some(xs@)));
            }
        },
        None => {
            proof {
                assert(out@ =~= base + functions_member(None::<Seq<FunctionDefinition>>));
            }
        },
    }
}

/// Appends a JSON array of the given strings.
fn append_string_array(out: &mut String, xs: &Vec<String>)
    ensures
        final(out)@ == old(out)@ + seq!['['] + comma_join(string_jsons(xs@)) + seq![']'],
{
    let ghost base = old(out)@;
    out.append("[");
    proof {
        reveal_strlit("[");
        assert("["@ =~= seq!['[']);
        assert(string_jsons(xs@.subrange(0, 0)) =~= Seq::<Seq<char>>::empty());
        assert(out@ =~= base + seq!['['] + comma_join(string_jsons(xs@.subrange(0, 0))));
    }
    let mut i: usize = 0;
    while i < xs.len()
        invariant
            i <= xs@.len(),
            out@ == base + seq!['['] + comma_join(string_jsons(xs@.subrange(0, i as int))),
        decreases xs@.len() - i,
    {
        if i > 0 {
            out.append(",");
            proof {
                reveal_strlit(",");
                assert(","@ =~= seq![',']);
            }
        }
        append_json_string(out, xs[i].as_str());
        proof {
            let ghost prefix = string_jsons(xs@.subrange(0, i as int));
            assert(prefix.len() == i);
            assert(string_jsons(xs@.subrange(0, i + 1)) =~= prefix.push(json_string(xs@[i as int]@)));
            lemma_comma_join_push(prefix, json_string(xs@[i as int]@));
            assert(out@ =~= base + seq!['['] + comma_join(string_jsons(xs@.subrange(0, i + 1))));
        }
        i = i + 1;
    }
    out.append("]");
    proof {
        reveal_strlit("]");
        assert("]"@ =~= seq![']']);
        assert(xs@.subrange(0, xs@.len() as int) =~= xs@);
        assert(out@ =~= base + seq!['['] + comma_join(string_jsons(xs@)) + seq![']']);
    }
}

/// Appends a JSON object of the given logit-bias entries.
fn append_logit_bias_object(out: &mut String, xs: &Vec<(String, Milli)>)
    ensures
        final(out)@ == old(out)@ + seq!['{'] + comma_join(logit_jsons(xs@)) + seq!['}'],
{
    let ghost base = old(out)@;
    out.append("{");
    proof {
        reveal_strlit("{");
        assert("{"@ =~= seq!['{']);
        assert(logit_jsons(xs@.subrange(0, 0)) =~= Seq::<Seq<char>>::empty());
        assert(out@ =~= base + seq!['{'] + comma_join(logit_jsons(xs@.subrange(0, 0))));
    }
    let mut i: usize = 0;
    while i < xs.len()
        invariant
            i <= xs@.len(),
            out@ == base + seq!['{'] + comma_join(logit_jsons(xs@.subrange(0, i as int))),
        decreases xs@.len() - i,
    {
        if i > 0 {
            out.append(",");
            proof {
                reveal_strlit(",");
                assert(","@ =~= seq![',']);
            }
        }
        append_json_string(out, xs[i].0.as_str());
        out.append(":");
        out.append(xs[i].1.to_decimal_string().as_str());
        proof {
            let ghost prefix = logit_jsons(xs@.subrange(0, i as int));
            assert(prefix.len() == i);
            assert(logit_jsons(xs@.subrange(0, i + 1)) =~= prefix.push(
                logit_entry_json(xs@[i as int]),
            ));
            lemma_comma_join_push(prefix, logit_entry_json(xs@[i as int]));
            assert(out@ =~= base + seq!['{'] + comma_join(logit_jsons(xs@.subrange(0, i + 1))));
        }
        i = i + 1;
    }
    out.append("}");
    proof {
        reveal_strlit("}");
        assert("}"@ =~= seq!['}']);
        assert(xs@.subrange(0, xs@.len() as int) =~= xs@);
        assert(out@ =~= base + seq!['{'] + comma_join(logit_jsons(xs@)) + seq!['}']);
    }
}

/// Appends a JSON array of the given function definitions.
fn append_functions_array(out: &mut String, xs: &Vec<FunctionDefinition>)
    ensures
        final(out)@ == old(out)@ + seq!['['] + comma_join(function_definition_jsons(xs@))
            + seq![']'],
{
    let ghost base = old(out)@;
    out.append("[");
    proof {
        reveal_strlit("[");
        assert("["@ =~= seq!['[']);
        assert(function_definition_jsons(xs@.subrange(0, 0)) =~= Seq::<Seq<char>>::empty());
        assert(out@ =~= base + seq!['['] + comma_join(
            function_definition_jsons(xs@.subrange(0, 0)),
        ));
    }
    let mut i: usize = 0;
    while i < xs.len()
        invariant
            i <= xs@.len(),
            out@ == base + seq!['['] + comma_join(
                function_definition_jsons(xs@.subrange(0, i as int)),
            ),
        decreases xs@.len() - i,
    {
        if i > 0 {
            out.append(",");
            proof {
                reveal_strlit(",");
                assert(","@ =~= seq![',']);
            }
        }
        append_function_definition_json(out, &xs[i]);
        proof {
            let ghost prefix = function_definition_jsons(xs@.subrange(0, i as int));
            assert(prefix.len() == i);
            assert(function_definition_jsons(xs@.subrange(0, i + 1)) =~= prefix.push(
                json_of_function_definition(xs@[i as int]),
            ));
            lemma_comma_join_push(prefix, json_of_function_definition(xs@[i as int]));
            assert(out@ =~= base + seq!['['] + comma_join(
                function_definition_jsons(xs@.subrange(0, i + 1)),
            ));
        }
        i = i + 1;
    }
    out.append("]");
    proof {
        reveal_strlit("]");
        assert("]"@ =~= seq![']']);
        assert(xs@.subrange(0, xs@.len() as int) =~= xs@);
        assert(out@ =~= base + seq!['['] + comma_join(function_definition_jsons(xs@)) + seq![']']);
    }
}

} // verus!

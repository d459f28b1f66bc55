use vstd::prelude::*;
use vstd::string::StringExecFns;
use crate::json::dec_str;
use crate::json::milli_str;
use crate::json::u64_to_string;
use crate::milli::Milli;

verus! {

/// Why a completion request could not be built or finalized. Every variant
/// carries the offending value, so a caller can match on the failure
/// instead of parsing a message.
#[derive(Clone, Copy, Debug, PartialEq, Eq, Structural)]
pub enum ChatCompletionError {
    EmptyMessageContent,
    EmptyMessages,
    FrequencyPenaltyValueOutOfRange(Milli),
    PresencePenaltyValueOutOfRange(Milli),
    StopSequencesOutOfRange(usize),
    TemperatureValueOutOfRange(Milli),
    TopPValueOutOfRange(Milli),
}

/// The short tag naming an error's kind.
pub open spec fn chat_error_label(e: ChatCompletionError) -> Seq<char> {
    match e {
        ChatCompletionError::EmptyMessageContent => "EmptyMessageContent"@,
        ChatCompletionError::EmptyMessages => "EmptyMessages"@,
        ChatCompletionError::FrequencyPenaltyValueOutOfRange(_) =>
            "FrequencyPenaltyValueOutOfRange"@,
        ChatCompletionError::PresencePenaltyValueOutOfRange(_) =>
            "PresencePenaltyValueOutOfRange"@,
        ChatCompletionError::StopSequencesOutOfRange(_) => "StopSequencesOutOfRange"@,
        ChatCompletionError::TemperatureValueOutOfRange(_) => "TemperatureValueOutOfRange"@,
        ChatCompletionError::TopPValueOutOfRange(_) => "TopPValueOutOfRange"@,
    }
}

/// The human-readable rendering of an error.
pub open spec fn chat_error_message_text(e: ChatCompletionError) -> Seq<char> {
    match e {
        ChatCompletionError::EmptyMessageContent => "Message content cannot be empty"@,
        ChatCompletionError::EmptyMessages => "Messages cannot be empty."@,
        ChatCompletionError::FrequencyPenaltyValueOutOfRange(v) =>
            "Frequency penalty value must be between -2.0 and 2.0 [Given value: "@ + milli_str(
                v.thousandths as int,
            ) + seq![']'],
        ChatCompletionError::PresencePenaltyValueOutOfRange(v) =>
            "Presence penalty value must be between -2.0 and 2.0 [Given value: "@ + milli_str(
                v.thousandths as int,
            ) + seq![']'],
        ChatCompletionError::StopSequencesOutOfRange(c) =>
            "Stop value must have between 0 and 4 sequences [Number of sequences: "@ + dec_str(
                c as nat,
            ) + seq![']'],
        ChatCompletionError::TemperatureValueOutOfRange(v) =>
            "Temperature value must be between 0.0 and 2.0 [Given value: "@ + milli_str(
                v.thousandths as int,
            ) + seq![']'],
        ChatCompletionError::TopPValueOutOfRange(v) =>
            "Top P value must be between 0.0 and 1.0 [Given value: "@ + milli_str(
                v.thousandths as int,
            ) + seq![']'],
    }
}

impl ChatCompletionError {
    /// The short tag naming this error's kind.
    pub fn label(&self) -> (r: &'static str)
        ensures
            r@ == chat_error_label(*self),
    {
        match self {
            ChatCompletionError::EmptyMessageContent => "EmptyMessageContent",
            ChatCompletionError::EmptyMessages => "EmptyMessages",
            ChatCompletionError::FrequencyPenaltyValueOutOfRange(_) =>
                "FrequencyPenaltyValueOutOfRange",
            ChatCompletionError::PresencePenaltyValueOutOfRange(_) =>
                "PresencePenaltyValueOutOfRange",
            ChatCompletionError::StopSequencesOutOfRange(_) => "StopSequencesOutOfRange",
            ChatCompletionError::TemperatureValueOutOfRange(_) => "TemperatureValueOutOfRange",
            ChatCompletionError::TopPValueOutOfRange(_) => "TopPValueOutOfRange",
        }
    }

    /// The human-readable rendering of this error.
    pub fn error_message(&self) -> (r: String)
        ensures
            r@ == chat_error_message_text(*self),
    {
        match self {
            ChatCompletionError::EmptyMessageContent => "Message content cannot be empty".to_owned(),
            ChatCompletionError::EmptyMessages => "Messages cannot be empty.".to_owned(),
            ChatCompletionError::FrequencyPenaltyValueOutOfRange(v) => {
                let mut s =
                    "Frequency penalty value must be between -2.0 and 2.0 [Given value: ".to_owned();
                s.append(v.to_decimal_string().as_str());
                s.append("]");
                proof {
                    reveal_strlit("]");
                    assert("]"@ =~= seq![']']);
                    assert(s@ =~= chat_error_message_text(*self));
                }
                s
            },
            ChatCompletionError::PresencePenaltyValueOutOfRange(v) => {
                let mut s =
                    "Presence penalty value must be between -2.0 and 2.0 [Given value: ".to_owned();
                s.append(v.to_decimal_string().as_str());
                s.append("]");
                proof {
                    reveal_strlit("]");
                    assert("]"@ =~= seq![']']);
                    assert(s@ =~= chat_error_message_text(*self));
                }
                s
            },
            ChatCompletionError::StopSequencesOutOfRange(c) => {
                let mut s =
                    "Stop value must have between 0 and 4 sequences [Number of sequences: ".to_owned();
                s.append(u64_to_string(*c as u64).as_str());
                s.append("]");
                proof {
                    reveal_strlit("]");
                    assert("]"@ =~= seq![']']);
                    assert(s@ =~= chat_error_message_text(*self));
                }
                s
            },
            ChatCompletionError::TemperatureValueOutOfRange(v) => {
                let mut s =
                    "Temperature value must be between 0.0 and 2.0 [Given value: ".to_owned();
                s.append(v.to_decimal_string().as_str());
                s.append("]");
                proof {
                    reveal_strlit("]");
                    assert("]"@ =~= seq![']']);
                    assert(s@ =~= chat_error_message_text(*self));
                }
                s
            },
            ChatCompletionError::TopPValueOutOfRange(v) => {
                let mut s = "Top P value must be between 0.0 and 1.0 [Given value: ".to_owned();
                s.append(v.to_decimal_string().as_str());
                s.append("]");
                proof {
                    reveal_strlit("]");
                    assert("]"@ =~= seq![']']);
                    assert(s@ =~= chat_error_message_text(*self));
                }
                s
            },
        }
    }
}

} // verus!

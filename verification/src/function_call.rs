use vstd::prelude::*;
use vstd::string::StringExecFns;
use crate::json::json_string;
use crate::json::append_json_string;

verus! {

/// A function invocation carried by an assistant turn: the function's name
/// and its arguments as raw text.
#[derive(Clone, Debug, PartialEq)]
pub struct FunctionCall {
    pub name: String,
    pub arguments: String,
}

/// The wire form of a function-call record: an object with the `name` and
/// `arguments` members.
pub open spec fn json_of_function_call(fc: FunctionCall) -> Seq<char> {
    "{\"name\":"@ + json_string(fc.name@) + ",\"arguments\":"@ + json_string(fc.arguments@)
        + seq!['}']
}

/// Appends the wire form of `fc` to `out`.
pub fn append_function_call_json(out: &mut String, fc: &FunctionCall)
    ensures
        final(out)@ == old(out)@ + json_of_function_call(*fc),
{
    let ghost base = old(out)@;
    out.append("{\"name\":");
    append_json_string(out, fc.name.as_str());
    out.append(",\"arguments\":");
    append_json_string(out, fc.arguments.as_str());
    out.append("}");
    proof {
        reveal_strlit("}");
        assert("}"@ =~= seq!['}']);
        assert(out@ =~= base + json_of_function_call(*fc));
    }
}

} // verus!

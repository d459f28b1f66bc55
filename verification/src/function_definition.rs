use vstd::prelude::*;
use vstd::string::StringExecFns;
use crate::json::json_string;
use crate::json::append_json_string;

verus! {

/// A function the model may choose to call: its name, a description for the
/// model, and the parameter schema as raw text.
#[derive(Clone, Debug, PartialEq)]
pub struct FunctionDefinition {
    pub name: String,
    pub description: String,
    pub parameters: String,
}

/// The wire form of a function definition: an object with the `name`,
/// `description` and `parameters` members.
pub open spec fn json_of_function_definition(d: FunctionDefinition) -> Seq<char> {
    "{\"name\":"@ + json_string(d.name@) + ",\"description\":"@ + json_string(d.description@)
        + ",\"parameters\":"@ + json_string(d.parameters@) + seq!['}']
}

/// Appends the wire form of `d` to `out`.
pub fn append_function_definition_json(out: &mut String, d: &FunctionDefinition)
    ensures
        final(out)@ == old(out)@ + json_of_function_definition(*d),
{
    let ghost base = old(out)@;
    out.append("{\"name\":");
    append_json_string(out, d.name.as_str());
    out.append(",\"description\":");
    append_json_string(out, d.description.as_str());
    out.append(",\"parameters\":");
    append_json_string(out, d.parameters.as_str());
    out.append("}");
    proof {
        reveal_strlit("}");
        assert("}"@ =~= seq!['}']);
        assert(out@ =~= base + json_of_function_definition(*d));
    }
}

} // verus!

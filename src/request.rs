use vstd::prelude::*;

verus! {

/// The endpoint that receives the analysis request.
pub const MESSAGES_URL: &'static str = "https://api.anthropic.com/v1/messages";

/// The API version sent with each request.
pub const API_VERSION: &'static str = "2023-06-01";

/// A string written as a JSON string literal, quoted and escaped.
pub uninterp spec fn json_string_literal(s: Seq<char>) -> Seq<char>;

/// Relies on serde_json's `Display` for `Value::String`, which writes the
/// string as a compact JSON string literal; what it writes depends on the
/// characters alone.
#[verifier::external_body]
fn json_quote(s: &str) -> (r: String)
    ensures
        r@ == json_string_literal(s@),
{
    serde_json::Value::String(s.to_string()).to_string()
}

/// The request body that sends `prompt` as a single user message, before the
/// prompt itself.
pub const BODY_OPENING: &'static str = "{\"max_tokens\":1024,\"messages\":[{\"content\":";

/// The request body between the prompt and the model's name.
pub const BODY_MODEL: &'static str = ",\"role\":\"user\"}],\"model\":";

/// The JSON request body for an analysis: the whole prompt as one user
/// message, to the model named `model`, with fields in sorted order.
pub open spec fn request_body_text(model: Seq<char>, prompt: Seq<char>) -> Seq<char> {
    BODY_OPENING@ + json_string_literal(prompt) + BODY_MODEL@ + json_string_literal(model) + "}"@
}

/// Builds the JSON request body that asks the model named `model` to answer
/// `prompt`.
pub fn request_body(model: &str, prompt: &str) -> (r: String)
    ensures
        r@ == request_body_text(model@, prompt@),
{
    let quoted_prompt = json_quote(prompt);
    let quoted_model = json_quote(model);
    let mut body = String::new();
    body.append(BODY_OPENING);
    body.append(quoted_prompt.as_str());
    body.append(BODY_MODEL);
    body.append(quoted_model.as_str());
    body.append("}");
    assert(body@ =~= request_body_text(model@, prompt@));
    body
}

} // verus!

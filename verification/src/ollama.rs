//! The completion relay's pure half: composing the prompt and the request
//! URL, and deciding from an HTTP status and a response body what the relay
//! returns — the model's text on success, a descriptive error otherwise.

use vstd::prelude::*;
use vstd::string::*;

verus! {

/// The digit character for a value between zero and nine.
pub open spec fn digit_char(d: int) -> char {
    if d == 0 {
        '0'
    } else if d == 1 {
        '1'
    } else if d == 2 {
        '2'
    } else if d == 3 {
        '3'
    } else if d == 4 {
        '4'
    } else if d == 5 {
        '5'
    } else if d == 6 {
        '6'
    } else if d == 7 {
        '7'
    } else if d == 8 {
        '8'
    } else {
        '9'
    }
}

/// The decimal rendering of `n`, most significant digit first, with no
/// leading zero except for zero itself.
pub open spec fn spec_decimal(n: nat) -> Seq<char>
    decreases n,
{
    if n < 10 {
        seq![digit_char(n as int)]
    } else {
        spec_decimal(n / 10) + seq![digit_char((n % 10) as int)]
    }
}

/// The one-character string for a digit.
fn digit_str(d: u16) -> (r: &'static str)
    requires
        d < 10,
    ensures
        r@ == seq![digit_char(d as int)],
{
    proof {
        reveal_strlit("0");
        reveal_strlit("1");
        reveal_strlit("2");
        reveal_strlit("3");
        reveal_strlit("4");
        reveal_strlit("5");
        reveal_strlit("6");
        reveal_strlit("7");
        reveal_strlit("8");
        reveal_strlit("9");
        assert("0"@ =~= seq![digit_char(0)]);
        assert("1"@ =~= seq![digit_char(1)]);
        assert("2"@ =~= seq![digit_char(2)]);
        assert("3"@ =~= seq![digit_char(3)]);
        assert("4"@ =~= seq![digit_char(4)]);
        assert("5"@ =~= seq![digit_char(5)]);
        assert("6"@ =~= seq![digit_char(6)]);
        assert("7"@ =~= seq![digit_char(7)]);
        assert("8"@ =~= seq![digit_char(8)]);
        assert("9"@ =~= seq![digit_char(9)]);
    }
    match d {
        0 => "0",
        1 => "1",
        2 => "2",
        3 => "3",
        4 => "4",
        5 => "5",
        6 => "6",
        7 => "7",
        8 => "8",
        _ => "9",
    }
}

/// Appends the decimal rendering of `n` to `s`.
fn push_decimal(n: u16, s: &mut String)
    ensures
        final(s)@ == old(s)@ + spec_decimal(n as nat),
    decreases n,
{
    if n >= 10 {
        proof {
            assert(n / 10 < n) by (nonlinear_arith)
                requires
                    n >= 10,
            ;
        }
        push_decimal(n / 10, s);
    }
    let d: u16 = n % 10;
    s.append(digit_str(d));
    proof {
        assert(s@ =~= old(s)@ + spec_decimal(n as nat));
    }
}

/// The decimal rendering of `n` as a string.
pub fn u16_decimal(n: u16) -> (r: String)
    ensures
        r@ == spec_decimal(n as nat),
{
    let mut s: String = String::new();
    push_decimal(n, &mut s);
    proof {
        assert(s@ =~= spec_decimal(n as nat));
    }
    s
}

/// Composes the full prompt the relay sends: the system prompt, a blank
/// line, the user's message under a "User:" label, and a trailing
/// "Assistant:" cue.
pub fn compose_prompt(system_prompt: &str, user_message: &str) -> (r: String)
    ensures
        r@ == system_prompt@ + "\n\nUser: "@ + user_message@ + "\n\nAssistant:"@,
{
    let mut r: String = String::from_str(system_prompt);
    r.append("\n\nUser: ");
    r.append(user_message);
    r.append("\n\nAssistant:");
    proof {
        assert(r@ =~= system_prompt@ + "\n\nUser: "@ + user_message@ + "\n\nAssistant:"@);
    }
    r
}

/// The URL the relay posts to: the endpoint with the generate path appended.
pub fn api_url(endpoint_url: &str) -> (r: String)
    ensures
        r@ == endpoint_url@ + "/api/generate"@,
{
    let mut r: String = String::from_str(endpoint_url);
    r.append("/api/generate");
    r
}

/// The top-level `field` member of the JSON document `doc`, when `doc`
/// parses and that member is a string; `None` otherwise.
pub uninterp spec fn json_string_field(doc: Seq<char>, field: Seq<char>) -> Option<Seq<char>>;

/// Relies on `serde_json::from_str` and `serde_json::Value::get`: parses
/// `doc` as JSON and returns its top-level `field` member when that member
/// is a string; `None` when `doc` is not valid JSON, lacks the member, or
/// holds a non-string there.
#[verifier::external_body]
fn read_json_string_field(doc: &str, field: &str) -> (r: Option<String>)
    ensures
        r is Some <==> json_string_field(doc@, field@) is Some,
        r matches Some(t) ==> json_string_field(doc@, field@) == Some(t@),
{
    let value: serde_json::Value = match serde_json::from_str(doc) {
        Ok(v) => v,
        Err(_) => return None,
    };
    match value.get(field) {
        Some(serde_json::Value::String(s)) => Some(s.clone()),
        _ => None,
    }
}

/// The error string for a completion call that failed at the transport
/// level, with the underlying cause appended.
pub fn connect_error_message(cause: &str) -> (r: String)
    ensures
        r@ == "Failed to connect to Ollama: "@ + cause@,
{
    let mut s: String = String::from_str("Failed to connect to Ollama: ");
    s.append(cause);
    s
}

/// The error string for a non-success HTTP status from the completion API.
pub fn relay_error_message(status: u16) -> (r: String)
    ensures
        r@ == "Ollama API returned error: "@ + spec_decimal(status as nat),
{
    let mut s: String = String::from_str("Ollama API returned error: ");
    push_decimal(status, &mut s);
    s
}

/// Decides what a completion call returns once the HTTP exchange is done:
/// a non-success status fails with the status code in the message; a
/// success status returns the response body's "response" string, or fails
/// when the body does not carry one.
pub fn completion_outcome(status: u16, body: &str) -> (r: Result<String, String>)
    ensures
        r is Ok <==> (200 <= status < 300 && json_string_field(body@, "response"@) is Some),
        r matches Ok(text) ==> json_string_field(body@, "response"@) == Some(text@),
        !(200 <= status < 300) ==> (r matches Err(m) && m@ == "Ollama API returned error: "@
            + spec_decimal(status as nat)),
        (200 <= status < 300 && json_string_field(body@, "response"@) is None) ==> (r matches Err(m)
            && m@ == "Failed to parse Ollama response"@),
{
    if status < 200 || status >= 300 {
        Err(relay_error_message(status))
    } else {
        match read_json_string_field(body, "response") {
            Some(text) => Ok(text),
            None => Err(String::from_str("Failed to parse Ollama response")),
        }
    }
}

} // verus!

use vstd::prelude::*;
use vstd::string::{StrSliceExecFns, StringExecFns};
use crate::transcribe::trimmed;
use crate::transcribe::trim_spaces;

verus! {

/// The local chat endpoint enrichment requests go to.
pub fn ollama_api_url() -> (r: &'static str)
    ensures
        r@ == "http://localhost:11434/api/chat"@,
{
    "http://localhost:11434/api/chat"
}

/// The hexadecimal digit for a value below sixteen.
pub open spec fn hex_digit(d: int) -> char {
    if d == 0 {
        '0'
    } else if d == 1 {
        '1'
    } else if d == 2 {
        '2'
    } else if d == 3 {
        '3'
    } else if d == 4 {
        '4'
    } else if d == 5 {
        '5'
    } else if d == 6 {
        '6'
    } else if d == 7 {
        '7'
    } else if d == 8 {
        '8'
    } else if d == 9 {
        '9'
    } else if d == 10 {
        'a'
    } else if d == 11 {
        'b'
    } else if d == 12 {
        'c'
    } else if d == 13 {
        'd'
    } else if d == 14 {
        'e'
    } else {
        'f'
    }
}

/// The decimal rendering of a nonnegative number, most significant digit
/// first, with no leading zeros (zero itself is one digit).
pub open spec fn dec_digits(n: int) -> Seq<char>
    recommends
        n >= 0,
    decreases n,
{
    if n < 10 {
        seq![hex_digit(n)]
    } else {
        dec_digits(n / 10) + seq![hex_digit(n % 10)]
    }
}

/// One decimal or hexadecimal digit as text.
fn digit_str(d: u32) -> (r: &'static str)
    requires
        d < 16,
    ensures
        r@ == seq![hex_digit(d as int)],
{
    proof {
        reveal_strlit("0");
        reveal_strlit("1");
        reveal_strlit("2");
        reveal_strlit("3");
        reveal_strlit("4");
        reveal_strlit("5");
        reveal_strlit("6");
        reveal_strlit("7");
        reveal_strlit("8");
        reveal_strlit("9");
        reveal_strlit("a");
        reveal_strlit("b");
        reveal_strlit("c");
        reveal_strlit("d");
        reveal_strlit("e");
        reveal_strlit("f");
    }
    match d {
        0 => "0",
        1 => "1",
        2 => "2",
        3 => "3",
        4 => "4",
        5 => "5",
        6 => "6",
        7 => "7",
        8 => "8",
        9 => "9",
        10 => "a",
        11 => "b",
        12 => "c",
        13 => "d",
        14 => "e",
        _ => "f",
    }
}

/// Renders a number in decimal.
pub fn u32_to_string(n: u32) -> (r: String)
    ensures
        r@ == dec_digits(n as int),
    decreases n,
{
    if n < 10 {
        digit_str(n).to_owned()
    } else {
        let mut r = u32_to_string(n / 10);
        r.append(digit_str(n % 10));
        r
    }
}

/// How one character is written inside a JSON string: quote and backslash
/// get a backslash, the common control characters get their short escapes,
/// other control characters get the four-digit form, and everything else
/// stands as itself.
pub open spec fn json_escape_char(c: char) -> Seq<char> {
    if c == '"' {
        seq!['\\', '"']
    } else if c == '\\' {
        seq!['\\', '\\']
    } else if c == '\n' {
        seq!['\\', 'n']
    } else if c == '\r' {
        seq!['\\', 'r']
    } else if c == '\t' {
        seq!['\\', 't']
    } else if (c as u32) < 0x20 {
        seq!['\\', 'u', '0', '0', hex_digit(c as u32 as int / 16), hex_digit(c as u32 as int % 16)]
    } else {
        seq![c]
    }
}

/// A whole sequence written inside a JSON string.
pub open spec fn json_escaped(s: Seq<char>) -> Seq<char>
    decreases s.len(),
{
    if s.len() == 0 {
        Seq::empty()
    } else {
        json_escaped(s.drop_last()) + json_escape_char(s.last())
    }
}

/// Escapes a string for inclusion inside a JSON string literal.
pub fn json_escape(s: &str) -> (r: String)
    ensures
        r@ == json_escaped(s@),
{
    let len = s.unicode_len();
    let mut acc = String::new();
    let mut i: usize = 0;
    proof {
        assert(s@.take(0) =~= Seq::<char>::empty());
    }
    while i < len
        invariant
            len == s@.len(),
            0 <= i <= len,
            acc@ == json_escaped(s@.take(i as int)),
        decreases len - i,
    {
        let ghost prefix = s@.take(i as int + 1);
        proof {
            reveal_strlit("\\\"");
            reveal_strlit("\\\\");
            reveal_strlit("\\n");
            reveal_strlit("\\r");
            reveal_strlit("\\t");
            reveal_strlit("\\u00");
            assert(prefix.drop_last() =~= s@.take(i as int));
            assert(prefix.last() == s@[i as int]);
        }
        let c = s.get_char(i);
        if c == '"' {
            acc.append("\\\"");
            proof {
                assert("\\\""@ =~= json_escape_char(c));
            }
        } else if c == '\\' {
            acc.append("\\\\");
            proof {
                assert("\\\\"@ =~= json_escape_char(c));
            }
        } else if c == '\n' {
            acc.append("\\n");
            proof {
                assert("\\n"@ =~= json_escape_char(c));
            }
        } else if c == '\r' {
            acc.append("\\r");
            proof {
                assert("\\r"@ =~= json_escape_char(c));
            }
        } else if c == '\t' {
            acc.append("\\t");
            proof {
                assert("\\t"@ =~= json_escape_char(c));
            }
        } else if (c as u32) < 0x20 {
            let v = c as u32;
            acc.append("\\u00");
            acc.append(digit_str(v / 16));
            acc.append(digit_str(v % 16));
            proof {
                assert("\\u00"@ + seq![hex_digit(v as int / 16)] + seq![hex_digit(v as int % 16)]
                    =~= json_escape_char(c));
            }
        } else {
            push_char(&mut acc, c);
            proof {
                assert(seq![c] =~= json_escape_char(c));
            }
        }
        proof {
            assert(acc@ =~= json_escaped(prefix));
        }
        i = i + 1;
    }
    proof {
        assert(s@.take(len as int) =~= s@);
    }
    acc
}

/// Relies on String::push: the character is appended at the end and
/// nothing else changes.
#[verifier::external_body]
fn push_char(s: &mut String, c: char)
    ensures
        final(s)@ == old(s)@ + seq![c],
{
    s.push(c);
}

/// The fixed instruction template wrapped around the two transcripts: the
/// chat model is asked to rewrite the content following the instruction
/// and answer with the rewritten text only.
pub fn build_prompt(instruction: &str, content: &str) -> (r: String)
    ensures
        r@ == "Instruction: "@ + instruction@ + "\nOriginal Content: "@ + content@
            + "\n\nPlease rewrite the content following the instruction. Return ONLY the rewritten text, nothing else."@,
{
    let mut r = String::from_str("Instruction: ");
    r.append(instruction);
    r.append("\nOriginal Content: ");
    r.append(content);
    r.append(
        "\n\nPlease rewrite the content following the instruction. Return ONLY the rewritten text, nothing else.",
    );
    r
}

/// The single-turn chat request sent to the endpoint: the model, streaming
/// off, and one user message holding the prompt, as a JSON document with
/// both strings escaped.
pub fn build_chat_request(model: &str, prompt: &str) -> (r: String)
    ensures
        r@ == "{\"model\":\""@ + json_escaped(model@)
            + "\",\"stream\":false,\"messages\":[{\"role\":\"user\",\"content\":\""@
            + json_escaped(prompt@) + "\"}]}"@,
{
    let mut r = String::from_str("{\"model\":\"");
    let em = json_escape(model);
    r.append(em.as_str());
    r.append("\",\"stream\":false,\"messages\":[{\"role\":\"user\",\"content\":\"");
    let ep = json_escape(prompt);
    r.append(ep.as_str());
    r.append("\"}]}");
    r
}

/// The string at `message.content` of a chat response body, when the body
/// is JSON of that shape; what the endpoint's reply decodes to depends on
/// the body alone.
pub uninterp spec fn message_content_of(body: Seq<char>) -> Option<Seq<char>>;

/// Relies on serde_json — `from_str`, `Value::pointer` with `/message/content`,
/// and `Value::as_str` — to parse the response body and hand back the string
/// under `message.content`, if the body is valid JSON carrying a string
/// there; the result is a function of the body alone.
#[verifier::external_body]
fn extract_message_content(body: &str) -> (r: Option<String>)
    ensures
        match r {
            Some(t) => message_content_of(body@) == Some(t@),
            None => message_content_of(body@) == None::<Seq<char>>,
        },
{
    let v: serde_json::Value = match serde_json::from_str(body) {
        Ok(v) => v,
        Err(_) => return None,
    };
    match v.pointer("/message/content") {
        Some(c) => match c.as_str() {
            Some(s) => Some(s.to_string()),
            None => None,
        },
        None => None,
    }
}

/// Why an enrichment request yielded no rewritten text.  Connection
/// failures and remote refusals are kept apart because their remedies
/// differ: start the service, or install the model.
#[derive(Debug)]
pub enum EnrichError {
    /// The endpoint could not be reached at all.
    Connection { detail: String },
    /// The endpoint answered with a non-success status.
    Remote { status: u16, model: String },
    /// The endpoint answered, but not in the known response shape.
    Protocol,
}

impl EnrichError {
    /// A human-actionable description, naming the likely remedy.
    pub fn message(&self) -> (r: String)
        ensures
            match self {
                EnrichError::Connection { detail } => r@ ==
                    "Failed to connect to Ollama at http://localhost:11434/api/chat. Please ensure Ollama is running. Error: "@
                    + detail@,
                EnrichError::Remote { status, model } => r@ == "Ollama error (status "@
                    + dec_digits(*status as int) + "). Model '"@ + model@
                    + "' may not be installed. Please run 'ollama pull "@ + model@
                    + "' in your terminal."@,
                EnrichError::Protocol => r@ ==
                    "Invalid response format from Ollama. Please check Ollama version and model compatibility."@,
            },
    {
        match self {
            EnrichError::Connection { detail } => {
                let mut r = String::from_str(
                    "Failed to connect to Ollama at http://localhost:11434/api/chat. Please ensure Ollama is running. Error: ",
                );
                r.append(detail.as_str());
                r
            },
            EnrichError::Remote { status, model } => {
                let mut r = String::from_str("Ollama error (status ");
                let d = u32_to_string(*status as u32);
                r.append(d.as_str());
                r.append("). Model '");
                r.append(model.as_str());
                r.append("' may not be installed. Please run 'ollama pull ");
                r.append(model.as_str());
                r.append("' in your terminal.");
                r
            },
            EnrichError::Protocol => String::from_str(
                "Invalid response format from Ollama. Please check Ollama version and model compatibility.",
            ),
        }
    }
}

/// Turns the transport's raw outcome into the enrichment result.  No
/// answer at all is a connection failure; a non-success status is a remote
/// refusal naming the model; a success answer yields the trimmed reply
/// text under `message.content`, and any other response shape is a
/// protocol failure.
pub fn classify_enrich_response(outcome: Result<(u16, String), String>, model: &str) -> (r: Result<
    String,
    EnrichError,
>)
    ensures
        match outcome {
            Err(detail) => r matches Err(EnrichError::Connection { detail: d }) && d@ == detail@,
            Ok(sb) => {
                if !(200 <= sb.0 < 300) {
                    r matches Err(EnrichError::Remote { status, model: m }) && status == sb.0
                        && m@ == model@
                } else {
                    match message_content_of(sb.1@) {
                        Some(c) => r matches Ok(t) && t@ == trimmed(c),
                        None => r matches Err(e) && e is Protocol,
                    }
                }
            },
        },
{
    match outcome {
        Err(detail) => Err(EnrichError::Connection { detail }),
        Ok((status, body)) => {
            if !(200 <= status && status < 300) {
                Err(EnrichError::Remote { status, model: model.to_owned() })
            } else {
                match extract_message_content(body.as_str()) {
                    Some(content) => Ok(trim_spaces(content.as_str())),
                    None => Err(EnrichError::Protocol),
                }
            }
        },
    }
}

} // verus!

use vstd::prelude::*;

use crate::error::VioletError;
use crate::log::{ordinal, VioletLogSeverity};
use crate::text::{digit_str, digit_text};

verus! {

/// A lower-case hexadecimal digit.
pub open spec fn hex_digit(d: u32) -> char {
    "0123456789abcdef"@[d as int]
}

/// How a JSON string literal writes one character: quote, backslash and the
/// control characters below U+0020 are escaped, the others are kept.
pub open spec fn json_char(c: char) -> Seq<char> {
    if c == '"' {
        "\\\""@
    } else if c == '\\' {
        "\\\\"@
    } else if c == '\x08' {
        "\\b"@
    } else if c == '\t' {
        "\\t"@
    } else if c == '\n' {
        "\\n"@
    } else if c == '\x0c' {
        "\\f"@
    } else if c == '\r' {
        "\\r"@
    } else if (c as u32) < 0x20 {
        "\\u00"@ + seq![hex_digit((c as u32) / 16), hex_digit((c as u32) % 16)]
    } else {
        seq![c]
    }
}

/// The characters of `s`, each written as in a JSON string literal.
pub open spec fn json_escaped(s: Seq<char>) -> Seq<char>
    decreases s.len(),
{
    if s.len() == 0 {
        Seq::empty()
    } else {
        json_escaped(s.drop_last()) + json_char(s.last())
    }
}

/// The JSON string literal of `s`.
pub open spec fn json_string(s: Seq<char>) -> Seq<char> {
    "\""@ + json_escaped(s) + "\""@
}

/// serde_json's error type, carried through unopened.
#[verifier::external_type_specification]
#[verifier::external_body]
pub struct ExJsonError(serde_json::Error);

/// Relies on serde_json::to_string on a string slice: it writes the string
/// literal of `s` into a `Vec`, which cannot fail.
#[verifier::external_body]
fn json_quote(s: &str) -> (r: Result<String, serde_json::Error>)
    ensures
        r is Ok,
        r->Ok_0@ == json_string(s@),
{
    serde_json::to_string(s)
}

/// The contents of an envelope.
pub ghost struct EnvelopeView {
    pub severity: VioletLogSeverity,
    pub title: Seq<char>,
    pub message: Seq<char>,
    pub stacktrace: Option<Seq<char>>,
}

/// The JSON object of an envelope whose fields are already encoded: the code
/// of the severity and the JSON text of the other three fields, in this order.
pub open spec fn envelope_text(
    code: Seq<char>,
    title: Seq<char>,
    message: Seq<char>,
    stacktrace: Seq<char>,
) -> Seq<char> {
    "{\"severity\":"@ + code + ",\"title\":"@ + title + ",\"message\":"@ + message
        + ",\"stacktrace\":"@ + stacktrace + "}"@
}

/// The JSON text of an optional stack trace; an absent one is `null`.
pub open spec fn stacktrace_json(st: Option<Seq<char>>) -> Seq<char> {
    match st {
        Some(t) => json_string(t),
        None => "null"@,
    }
}

/// The JSON body of an envelope.
pub open spec fn envelope_json(e: EnvelopeView) -> Seq<char> {
    envelope_text(
        digit_text(ordinal(e.severity) as nat),
        json_string(e.title),
        json_string(e.message),
        stacktrace_json(e.stacktrace),
    )
}

/// Writes the JSON object of an envelope from the encoded text of its string
/// fields; `None` for the stack trace writes `null`.
pub fn frame_envelope(
    severity: &VioletLogSeverity,
    title_json: &str,
    message_json: &str,
    stacktrace_json: Option<&str>,
) -> (r: String)
    ensures
        r@ == envelope_text(
            digit_text(ordinal(*severity) as nat),
            title_json@,
            message_json@,
            match stacktrace_json {
                Some(t) => t@,
                None => "null"@,
            },
        ),
{
    let code: u8 = u8::from(severity);
    let mut s = String::from_str("{\"severity\":");
    s.append(digit_str(code as u64));
    s.append(",\"title\":");
    s.append(title_json);
    s.append(",\"message\":");
    s.append(message_json);
    s.append(",\"stacktrace\":");
    match stacktrace_json {
        Some(t) => s.append(t),
        None => s.append("null"),
    }
    s.append("}");
    s
}

/// One record as it is sent to the collector.
pub struct VioletLog {
    severity: VioletLogSeverity,
    title: String,
    message: String,
    stacktrace: Option<String>,
}

impl View for VioletLog {
    type V = EnvelopeView;

    closed spec fn view(&self) -> EnvelopeView {
        EnvelopeView {
            severity: self.severity,
            title: self.title@,
            message: self.message@,
            stacktrace: match self.stacktrace {
                Some(t) => Some(t@),
                None => None,
            },
        }
    }
}

impl VioletLog {
    /// An envelope without a stack trace.
    pub fn new(severity: VioletLogSeverity, title: String, message: String) -> (r: Self)
        ensures
            r@ == (EnvelopeView { severity, title: title@, message: message@, stacktrace: None }),
    {
        Self { severity, title, message, stacktrace: None }
    }

    /// The same envelope with a stack trace attached.
    pub fn with_stacktrace(self, stacktrace: String) -> (r: Self)
        ensures
            r@ == (EnvelopeView { stacktrace: Some(stacktrace@), ..self@ }),
    {
        Self { stacktrace: Some(stacktrace), ..self }
    }

    /// The severity of the envelope.
    pub fn severity(&self) -> (r: VioletLogSeverity)
        ensures
            r == self@.severity,
    {
        self.severity
    }

    /// The JSON body of the envelope.
    pub fn to_json(&self) -> (r: Result<String, VioletError>)
        ensures
            r matches Ok(s) && s@ == envelope_json(self@),
    {
        let title = match json_quote(self.title.as_str()) {
            Ok(t) => t,
            Err(_) => return Err(VioletError::Serialization),
        };
        let message = match json_quote(self.message.as_str()) {
            Ok(t) => t,
            Err(_) => return Err(VioletError::Serialization),
        };
        match &self.stacktrace {
            Some(st) => {
                let st_json = match json_quote(st.as_str()) {
                    Ok(t) => t,
                    Err(_) => return Err(VioletError::Serialization),
                };
                Ok(frame_envelope(&self.severity, title.as_str(), message.as_str(), Some(st_json.as_str())))
            },
            None => Ok(frame_envelope(&self.severity, title.as_str(), message.as_str(), None)),
        }
    }
}

} // verus!

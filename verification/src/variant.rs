//! The three assistant variants, and how a request is recognised as one of them.

use crate::headers::{find_header, first_value, header_views, text_of_value, value_text, Header};
use crate::text::{chars_of, contains_chars, contains_seq, lower_chars, lower_seq};
use vstd::prelude::*;

verus! {

/// The assistant variant a request belongs to.
#[derive(Debug, Clone, Copy, PartialEq, Eq, Structural)]
pub enum CliType {
    ClaudeCode,
    Codex,
    Gemini,
}

impl CliType {
    /// The tag under which the variant is stored and logged.
    pub open spec fn tag(self) -> Seq<char> {
        match self {
            CliType::ClaudeCode => "claude_code"@,
            CliType::Codex => "codex"@,
            CliType::Gemini => "gemini"@,
        }
    }

    /// The tag under which the variant is stored and logged.
    pub fn as_str(&self) -> (s: &'static str)
        ensures
            s@ == self.tag(),
    {
        match self {
            CliType::ClaudeCode => "claude_code",
            CliType::Codex => "codex",
            CliType::Gemini => "gemini",
        }
    }
}

/// The variant that a user-agent string stands for: the signatures are looked for in this
/// order, letter case aside, and the first kind found decides.
pub open spec fn variant_of_user_agent(user_agent: Seq<char>) -> CliType {
    let ua = lower_seq(user_agent);
    if contains_seq(ua, "codex"@) || contains_seq(ua, "openai"@) {
        CliType::Codex
    } else if contains_seq(ua, "gemini"@) || contains_seq(ua, "google"@) {
        CliType::Gemini
    } else {
        CliType::ClaudeCode
    }
}

/// The user-agent string of a request: the text of its first `user-agent` header, and the
/// empty string where there is none or its value is not text.
pub open spec fn user_agent_of(entries: Seq<(Seq<char>, Seq<u8>)>) -> Seq<char> {
    match first_value(entries, "user-agent"@) {
        Some(value) => match value_text(value) {
            Some(text) => text,
            None => Seq::empty(),
        },
        None => Seq::empty(),
    }
}

fn mentions(ua: &Vec<char>, signature: &str) -> (r: bool)
    ensures
        r == contains_seq(ua@, signature@),
{
    let sig = chars_of(signature);
    contains_chars(ua, &sig)
}

/// Classifies a request by its user-agent string.
pub fn classify_user_agent(user_agent: &Vec<char>) -> (r: CliType)
    ensures
        r == variant_of_user_agent(user_agent@),
{
    let ua = lower_chars(user_agent);
    if mentions(&ua, "codex") || mentions(&ua, "openai") {
        CliType::Codex
    } else if mentions(&ua, "gemini") || mentions(&ua, "google") {
        CliType::Gemini
    } else {
        CliType::ClaudeCode
    }
}

/// Classifies a request by the `user-agent` header among its headers.
pub fn detect_cli_type(headers: &Vec<Header>) -> (r: CliType)
    ensures
        r == variant_of_user_agent(user_agent_of(header_views(headers@))),
{
    let ua: Vec<char> = match find_header(headers, "user-agent") {
        Some(i) => match text_of_value(headers[i].value.as_slice()) {
            Some(text) => text,
            None => Vec::new(),
        },
        None => Vec::new(),
    };
    classify_user_agent(&ua)
}

} // verus!

//! The values exchanged with a text-completion provider, the choice of a
//! provider from the keys at hand, and the recovery of JSON from an answer
//! that wraps it in prose.

use crate::pattern::{capture_first, describe_error, find_first, first_capture, first_match};
use crate::text::{
    byte_len, byte_range, can_cut, concat2, str_byte_len, str_can_cut, str_head, str_trim, trimmed,
};
use vstd::prelude::*;
use vstd::string::StringExecFns;

verus! {

/// Who speaks in a conversation.
#[derive(Debug, Clone, Copy, PartialEq, Eq, Structural)]
pub enum Role {
    User,
    Assistant,
    System,
}

/// One turn of a conversation.
#[derive(Debug)]
pub struct Message {
    pub role: Role,
    pub content: String,
}

impl Clone for Message {
    fn clone(&self) -> (copy: Self)
        ensures
            copy.role == self.role,
            copy.content@ == self.content@,
    {
        Message { role: self.role, content: self.content.clone() }
    }
}

impl Message {
    /// A message of the user.
    pub fn user(content: &str) -> (message: Self)
        ensures
            message.role == Role::User,
            message.content@ == content@,
    {
        Message { role: Role::User, content: String::from_str(content) }
    }

    /// A message of the assistant.
    pub fn assistant(content: &str) -> (message: Self)
        ensures
            message.role == Role::Assistant,
            message.content@ == content@,
    {
        Message { role: Role::Assistant, content: String::from_str(content) }
    }

    /// A message of the system.
    pub fn system(content: &str) -> (message: Self)
        ensures
            message.role == Role::System,
            message.content@ == content@,
    {
        Message { role: Role::System, content: String::from_str(content) }
    }
}

/// How many tokens an exchange took.
#[derive(Debug, Clone, Copy, PartialEq, Eq, Structural)]
pub struct Usage {
    pub input_tokens: u32,
    pub output_tokens: u32,
}

/// The answer of a provider.
#[derive(Debug)]
pub struct AIResponse {
    pub content: String,
    pub model: String,
    pub usage: Option<Usage>,
    pub stop_reason: Option<String>,
}

/// The providers that are known.
#[derive(Debug, Clone, Copy, PartialEq, Eq, Structural)]
pub enum ProviderType {
    Anthropic,
    Gemini,
    Groq,
}

/// The upper bound on the tokens of an answer that is used by default.
pub const DEFAULT_MAX_TOKENS: u32 = 4096;

/// The settings of a client. The sampling temperature is held as the
/// IEEE-754 binary32 bit pattern of the number.
#[derive(Debug)]
pub struct AIConfig {
    pub provider: ProviderType,
    pub anthropic_key: Option<String>,
    pub gemini_key: Option<String>,
    pub groq_key: Option<String>,
    pub model: Option<String>,
    pub max_tokens: u32,
    pub temperature_bits: u32,
}

impl Default for AIConfig {
    fn default() -> (config: Self)
        ensures
            config.provider == ProviderType::Anthropic,
            config.anthropic_key is None,
            config.gemini_key is None,
            config.groq_key is None,
            config.model is None,
            config.max_tokens == 4096,
            config.temperature_bits == 0,
    {
        AIConfig {
            provider: ProviderType::Anthropic,
            anthropic_key: None,
            gemini_key: None,
            groq_key: None,
            model: None,
            max_tokens: DEFAULT_MAX_TOKENS,
            temperature_bits: 0,
        }
    }
}

/// The settings handed to one provider.
#[derive(Debug)]
pub struct ProviderConfig {
    pub api_key: Option<String>,
    pub model: String,
    pub max_tokens: u32,
    pub temperature_bits: u32,
}

/// The provider that is preferred among those for which a key is at hand:
/// Anthropic before Gemini before Groq.
pub open spec fn preferred(has_anthropic: bool, has_gemini: bool, has_groq: bool) -> Option<
    ProviderType,
> {
    if has_anthropic {
        Some(ProviderType::Anthropic)
    } else if has_gemini {
        Some(ProviderType::Gemini)
    } else if has_groq {
        Some(ProviderType::Groq)
    } else {
        None
    }
}

/// The provider that is preferred among those for which a key is at hand.
pub fn preferred_provider(has_anthropic: bool, has_gemini: bool, has_groq: bool) -> (provider:
    Option<ProviderType>)
    ensures
        provider == preferred(has_anthropic, has_gemini, has_groq),
{
    if has_anthropic {
        Some(ProviderType::Anthropic)
    } else if has_gemini {
        Some(ProviderType::Gemini)
    } else if has_groq {
        Some(ProviderType::Groq)
    } else {
        None
    }
}

impl AIConfig {
    /// The settings of a client for the keys at hand: the preferred
    /// provider, and the defaults for the rest. It fails without any key.
    pub fn from_keys(
        anthropic_key: Option<String>,
        gemini_key: Option<String>,
        groq_key: Option<String>,
    ) -> (outcome: Result<AIConfig, String>)
        ensures
            match outcome {
                Ok(config) => Some(config.provider) == preferred(
                    anthropic_key is Some,
                    gemini_key is Some,
                    groq_key is Some,
                ) && config.anthropic_key == anthropic_key && config.gemini_key == gemini_key
                    && config.groq_key == groq_key && config.model is None && config.max_tokens
                    == 4096 && config.temperature_bits == 0,
                Err(reason) => anthropic_key is None && gemini_key is None && groq_key is None
                    && reason@ == "No AI API key found in environment"@,
            },
    {
        match preferred_provider(
            anthropic_key.is_some(),
            gemini_key.is_some(),
            groq_key.is_some(),
        ) {
            Some(provider) => Ok(
                AIConfig {
                    provider,
                    anthropic_key,
                    gemini_key,
                    groq_key,
                    model: None,
                    max_tokens: DEFAULT_MAX_TOKENS,
                    temperature_bits: 0,
                },
            ),
            None => Err(String::from_str("No AI API key found in environment")),
        }
    }

    /// The settings for the provider that a client is configured for, with
    /// `fallback_model` as the model where the client names none. Only
    /// Anthropic can be used, and only with a key.
    pub fn provider_config(&self, fallback_model: &str) -> (outcome: Result<ProviderConfig, String>)
        ensures
            match outcome {
                Ok(settings) => {
                    &&& self.provider == ProviderType::Anthropic
                    &&& self.anthropic_key matches Some(key)
                    &&& settings.api_key matches Some(given)
                    &&& given@ == key@
                    &&& settings.model@ == (match self.model {
                        Some(name) => name@,
                        None => fallback_model@,
                    })
                    &&& settings.max_tokens == self.max_tokens
                    &&& settings.temperature_bits == self.temperature_bits
                },
                Err(reason) => match self.provider {
                    ProviderType::Anthropic => self.anthropic_key is None && reason@
                        == "Anthropic API key not configured"@,
                    ProviderType::Gemini => reason@ == "Gemini provider not yet implemented"@,
                    ProviderType::Groq => reason@ == "Groq provider not yet implemented"@,
                },
            },
    {
        match self.provider {
            ProviderType::Anthropic => {
                match &self.anthropic_key {
                    None => Err(String::from_str("Anthropic API key not configured")),
                    Some(key) => Ok(
                        ProviderConfig {
                            api_key: Some(key.clone()),
                            model: match &self.model {
                                Some(name) => name.clone(),
                                None => String::from_str(fallback_model),
                            },
                            max_tokens: self.max_tokens,
                            temperature_bits: self.temperature_bits,
                        },
                    ),
                }
            },
            ProviderType::Gemini => Err(String::from_str("Gemini provider not yet implemented")),
            ProviderType::Groq => Err(String::from_str("Groq provider not yet implemented")),
        }
    }
}

/// The system prompt that asks for nothing but JSON.
pub open spec fn json_only_prompt() -> Seq<char> {
    "You are a helpful assistant. Respond ONLY with valid JSON. Do not include any text before or after the JSON object. Do not use markdown code blocks."@
}

/// What is added to a system prompt to ask for nothing but JSON.
pub open spec fn json_instruction() -> Seq<char> {
    "\n\nIMPORTANT: Respond ONLY with valid JSON. Do not include any text before or after the JSON object. Do not use markdown code blocks."@
}

/// The system prompt that asks for nothing but JSON.
pub fn json_system_prompt() -> (prompt: String)
    ensures
        prompt@ == json_only_prompt(),
{
    String::from_str(
        "You are a helpful assistant. Respond ONLY with valid JSON. Do not include any text before or after the JSON object. Do not use markdown code blocks.",
    )
}

/// A system prompt with the request for nothing but JSON added to it.
pub fn with_json_instruction(system: &str) -> (prompt: String)
    ensures
        prompt@ == system@ + json_instruction(),
{
    concat2(
        system,
        "\n\nIMPORTANT: Respond ONLY with valid JSON. Do not include any text before or after the JSON object. Do not use markdown code blocks.",
    )
}

/// The pattern of a fenced block, with its content as group one.
pub open spec fn fenced_block_pattern() -> Seq<char> {
    "```(?:json)?\n?([\\s\\S]*?)\n?```"@
}

/// The pattern of the widest stretch from a `{` to a `}`.
pub open spec fn object_pattern() -> Seq<char> {
    "\\{[\\s\\S]*\\}"@
}

/// The pattern of the widest stretch from a `[` to a `]`.
pub open spec fn array_pattern() -> Seq<char> {
    "\\[[\\s\\S]*\\]"@
}

/// What `found` adds to the candidates: itself, where something was found.
pub open spec fn with_candidate(candidates: Seq<Seq<char>>, found: Option<Seq<char>>) -> Seq<
    Seq<char>,
> {
    match found {
        Some(text) => candidates.push(text),
        None => candidates,
    }
}

/// The parts of an answer that are tried as JSON when the answer as a whole
/// is none, in the order in which they are tried: the trimmed content of its
/// first fenced block, its widest stretch in braces, and its widest stretch
/// in brackets, as far as each is there.
pub open spec fn json_candidates_of(content: Seq<char>) -> Seq<Seq<char>> {
    let block = match first_capture(fenced_block_pattern(), content, 1) {
        Some(inner) => Some(trimmed(inner)),
        None => None,
    };
    with_candidate(
        with_candidate(
            with_candidate(Seq::empty(), block),
            first_match(object_pattern(), content),
        ),
        first_match(array_pattern(), content),
    )
}

/// The parts of an answer to try as JSON, given what the three searches
/// found in it.
pub fn candidates_from(block: Option<String>, object: Option<String>, array: Option<String>) -> (candidates:
    Vec<String>)
    ensures
        crate::text::text_list(candidates@) == with_candidate(
            with_candidate(
                with_candidate(
                    Seq::empty(),
                    match block {
                        Some(inner) => Some(trimmed(inner@)),
                        None => None,
                    },
                ),
                crate::pattern::text_option(object),
            ),
            crate::pattern::text_option(array),
        ),
{
    let mut candidates: Vec<String> = Vec::new();
    assert(crate::text::text_list(candidates@) =~= Seq::empty());
    if let Some(inner) = block {
        let ghost before = crate::text::text_list(candidates@);
        candidates.push(str_trim(inner.as_str()));
        assert(crate::text::text_list(candidates@) =~= before.push(trimmed(inner@)));
    }
    if let Some(text) = object {
        let ghost before = crate::text::text_list(candidates@);
        candidates.push(text);
        assert(crate::text::text_list(candidates@) =~= before.push(text@));
    }
    if let Some(text) = array {
        let ghost before = crate::text::text_list(candidates@);
        candidates.push(text);
        assert(crate::text::text_list(candidates@) =~= before.push(text@));
    }
    candidates
}

/// The parts of an answer to try as JSON when the answer as a whole is
/// none; where a pattern is refused, the report of that refusal.
pub fn json_candidates(content: &str) -> (outcome: Result<Vec<String>, String>)
    ensures
        outcome matches Ok(candidates) ==> crate::text::text_list(candidates@)
            == json_candidates_of(content@),
        outcome matches Err(reason) ==> crate::text::has_prefix(reason@, refusal_prefix()),
{
    proof {
        reveal_strlit("```(?:json)?\n?([\\s\\S]*?)\n?```");
        reveal_strlit("\\{[\\s\\S]*\\}");
        reveal_strlit("\\[[\\s\\S]*\\]");
    }
    let block = match capture_first("```(?:json)?\n?([\\s\\S]*?)\n?```", content, 1) {
        Ok(found) => found,
        Err(error) => {
            return Err(refusal(&error));
        },
    };
    let object = match find_first("\\{[\\s\\S]*\\}", content) {
        Ok(found) => found,
        Err(error) => {
            return Err(refusal(&error));
        },
    };
    let array = match find_first("\\[[\\s\\S]*\\]", content) {
        Ok(found) => found,
        Err(error) => {
            return Err(refusal(&error));
        },
    };
    Ok(candidates_from(block, object, array))
}

/// The words that begin the report of a pattern that was refused.
pub open spec fn refusal_prefix() -> Seq<char> {
    "Regex error: "@
}

/// The report of a pattern that was refused: the prefix, and then the words
/// in which the refusal is described.
fn refusal(error: &regex::Error) -> (reason: String)
    ensures
        crate::text::has_prefix(reason@, refusal_prefix()),
{
    let words = describe_error(error);
    let reason = concat2("Regex error: ", words.as_str());
    assert(reason@.subrange(0, refusal_prefix().len() as int) =~= refusal_prefix());
    reason
}

/// How many bytes of an answer are quoted when no JSON is found in it.
pub const EXCERPT_BYTES: usize = 500;

/// The number of bytes of an answer that are quoted.
pub open spec fn excerpt_len(text: Seq<char>) -> int {
    if byte_len(text) <= EXCERPT_BYTES {
        byte_len(text) as int
    } else {
        EXCERPT_BYTES as int
    }
}

/// The words that report that no JSON was found in an answer.
pub open spec fn parse_failure_text(content: Seq<char>) -> Seq<char> {
    "Failed to parse JSON from response. Content: "@ + byte_range(
        content,
        0,
        excerpt_len(content),
    )
}

/// The words that report that no JSON was found in `content`, with the
/// beginning of the content. The beginning must end between two characters.
pub fn parse_failure_message(content: &str) -> (message: String)
    requires
        can_cut(content@, excerpt_len(content@)),
    ensures
        message@ == parse_failure_text(content@),
{
    let size = str_byte_len(content);
    let shown = if size <= EXCERPT_BYTES {
        size
    } else {
        EXCERPT_BYTES
    };
    concat2("Failed to parse JSON from response. Content: ", str_head(content, shown))
}

/// The words that report that no JSON was found in `content`; nothing where
/// the quoted beginning would end inside a character.
pub fn try_parse_failure_message(content: &str) -> (message: Option<String>)
    ensures
        match message {
            Some(words) => can_cut(content@, excerpt_len(content@)) && words@
                == parse_failure_text(content@),
            None => !can_cut(content@, excerpt_len(content@)),
        },
{
    let size = str_byte_len(content);
    let shown = if size <= EXCERPT_BYTES {
        size
    } else {
        EXCERPT_BYTES
    };
    if str_can_cut(content, shown) {
        Some(parse_failure_message(content))
    } else {
        None
    }
}

} // verus!

use crate::config::CompletionProvider;
use vstd::prelude::*;

verus! {

/// The text that stands for an Anthropic tool-use block.
pub const TOOL_USE_TEXT: &'static str = "Tool use response";

/// One content block of an Anthropic reply.
pub enum AnthropicContent {
    /// The bare-string form.
    String(String),
    /// The typed "text" form.
    Text(String),
    /// A tool-use block, which carries no text.
    ToolUse,
}

/// A vendor's reply, reduced to the fields the text is read from.
pub enum CompletionResponseEnum {
    /// The content blocks.
    Anthropic(Vec<AnthropicContent>),
    /// The top-level text.
    Cohere(String),
    /// For each candidate, the text of each of its parts.
    Gemini(Vec<Vec<Option<String>>>),
    /// For each choice, its message content.
    OpenAI(Vec<Option<String>>),
    /// For each choice, its message content.
    Perplexity(Vec<String>),
    /// For each choice, its message content.
    XAI(Vec<Option<String>>),
}

/// Why no text could be read from a reply.
#[derive(Clone, Copy, Debug, PartialEq, Eq, Structural)]
pub enum ExtractError {
    /// The reply came from another vendor than the configured one.
    ProviderMismatch,
    /// The reply holds no content block, candidate, part or choice.
    NoContent,
    /// The first part or choice carries no text.
    MissingText,
}

impl CompletionResponseEnum {
    /// The vendor a reply came from.
    pub open spec fn vendor(&self) -> CompletionProvider {
        match self {
            CompletionResponseEnum::Anthropic(_) => CompletionProvider::Anthropic,
            CompletionResponseEnum::Cohere(_) => CompletionProvider::Cohere,
            CompletionResponseEnum::Gemini(_) => CompletionProvider::Gemini,
            CompletionResponseEnum::OpenAI(_) => CompletionProvider::OpenAI,
            CompletionResponseEnum::Perplexity(_) => CompletionProvider::Perplexity,
            CompletionResponseEnum::XAI(_) => CompletionProvider::XAI,
        }
    }

    /// The first text of a reply, read the way its vendor lays it out.
    pub open spec fn text(&self) -> Result<Seq<char>, ExtractError> {
        match self {
            CompletionResponseEnum::Anthropic(blocks) => if blocks@.len() == 0 {
                Err(ExtractError::NoContent)
            } else {
                match blocks@[0] {
                    AnthropicContent::String(t) => Ok(t@),
                    AnthropicContent::Text(t) => Ok(t@),
                    AnthropicContent::ToolUse => Ok(TOOL_USE_TEXT@),
                }
            },
            CompletionResponseEnum::Cohere(t) => Ok(t@),
            CompletionResponseEnum::Gemini(candidates) => if candidates@.len() == 0
                || candidates@[0]@.len() == 0 {
                Err(ExtractError::NoContent)
            } else {
                match candidates@[0]@[0] {
                    Some(t) => Ok(t@),
                    None => Err(ExtractError::MissingText),
                }
            },
            CompletionResponseEnum::OpenAI(choices) => if choices@.len() == 0 {
                Err(ExtractError::NoContent)
            } else {
                match choices@[0] {
                    Some(t) => Ok(t@),
                    None => Err(ExtractError::MissingText),
                }
            },
            CompletionResponseEnum::Perplexity(choices) => if choices@.len() == 0 {
                Err(ExtractError::NoContent)
            } else {
                Ok(choices@[0]@)
            },
            CompletionResponseEnum::XAI(choices) => if choices@.len() == 0 {
                Err(ExtractError::NoContent)
            } else {
                match choices@[0] {
                    Some(t) => Ok(t@),
                    None => Ok(Seq::empty()),
                }
            },
        }
    }

    /// Which vendor this reply came from.
    pub fn provider(&self) -> (r: CompletionProvider)
        ensures
            r == self.vendor(),
    {
        match self {
            CompletionResponseEnum::Anthropic(_) => CompletionProvider::Anthropic,
            CompletionResponseEnum::Cohere(_) => CompletionProvider::Cohere,
            CompletionResponseEnum::Gemini(_) => CompletionProvider::Gemini,
            CompletionResponseEnum::OpenAI(_) => CompletionProvider::OpenAI,
            CompletionResponseEnum::Perplexity(_) => CompletionProvider::Perplexity,
            CompletionResponseEnum::XAI(_) => CompletionProvider::XAI,
        }
    }

    /// Takes the first text out of the reply.
    pub fn into_text(self) -> (r: Result<String, ExtractError>)
        ensures
            match r {
                Ok(t) => self.text() == Ok::<Seq<char>, ExtractError>(t@),
                Err(e) => self.text() == Err::<Seq<char>, ExtractError>(e),
            },
    {
        match self {
            CompletionResponseEnum::Anthropic(mut blocks) => {
                if blocks.len() == 0 {
                    return Err(ExtractError::NoContent);
                }
                match blocks.swap_remove(0) {
                    AnthropicContent::String(t) => Ok(t),
                    AnthropicContent::Text(t) => Ok(t),
                    AnthropicContent::ToolUse => Ok(String::from_str(TOOL_USE_TEXT)),
                }
            },
            CompletionResponseEnum::Cohere(t) => Ok(t),
            CompletionResponseEnum::Gemini(mut candidates) => {
                if candidates.len() == 0 {
                    return Err(ExtractError::NoContent);
                }
                let mut parts = candidates.swap_remove(0);
                if parts.len() == 0 {
                    return Err(ExtractError::NoContent);
                }
                match parts.swap_remove(0) {
                    Some(t) => Ok(t),
                    None => Err(ExtractError::MissingText),
                }
            },
            CompletionResponseEnum::OpenAI(mut choices) => {
                if choices.len() == 0 {
                    return Err(ExtractError::NoContent);
                }
                match choices.swap_remove(0) {
                    Some(t) => Ok(t),
                    None => Err(ExtractError::MissingText),
                }
            },
            CompletionResponseEnum::Perplexity(mut choices) => {
                if choices.len() == 0 {
                    return Err(ExtractError::NoContent);
                }
                Ok(choices.swap_remove(0))
            },
            CompletionResponseEnum::XAI(mut choices) => {
                if choices.len() == 0 {
                    return Err(ExtractError::NoContent);
                }
                match choices.swap_remove(0) {
                    Some(t) => Ok(t),
                    None => Ok(String::new()),
                }
            },
        }
    }
}

/// The client side of one configured vendor: it accepts replies from that
/// vendor only.
pub struct Agent {
    pub provider: CompletionProvider,
}

impl Agent {
    pub fn new(provider: CompletionProvider) -> (r: Self)
        ensures
            r.provider == provider,
    {
        Agent { provider }
    }

    /// The first text of a reply from the configured vendor.
    ///
    /// A reply from any other vendor is refused. Cohere, Perplexity and XAI
    /// replies always give a text once they hold a choice; a missing Gemini
    /// or OpenAI text is an error, not a crash.
    pub fn response_extract_content(&self, response: CompletionResponseEnum) -> (r: Result<
        String,
        ExtractError,
    >)
        ensures
            response.vendor() != self.provider ==> r == Err::<String, ExtractError>(
                ExtractError::ProviderMismatch,
            ),
            response.vendor() == self.provider ==> match r {
                Ok(t) => response.text() == Ok::<Seq<char>, ExtractError>(t@),
                Err(e) => response.text() == Err::<Seq<char>, ExtractError>(e),
            },
            r is Ok ==> response.vendor() == self.provider,
            response.vendor() == self.provider && response is Cohere ==> r is Ok,
            response.vendor() == self.provider && (response matches CompletionResponseEnum::Perplexity(
                c,
            ) && c@.len() > 0) ==> r is Ok,
            response.vendor() == self.provider && (response matches CompletionResponseEnum::XAI(c)
                && c@.len() > 0) ==> r is Ok,
            response.vendor() == self.provider && (response matches CompletionResponseEnum::Anthropic(
                c,
            ) && c@.len() > 0) ==> r is Ok,
    {
        if response.provider() != self.provider {
            return Err(ExtractError::ProviderMismatch);
        }
        response.into_text()
    }
}

} // verus!

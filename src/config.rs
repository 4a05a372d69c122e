use vstd::prelude::*;

verus! {

/// The completion vendors the tool can talk to.
#[derive(Clone, Copy, Debug, PartialEq, Eq, Structural)]
pub enum CompletionProvider {
    Anthropic,
    Cohere,
    Gemini,
    OpenAI,
    Perplexity,
    XAI,
}

/// The configuration name of each provider.
pub open spec fn provider_name(p: CompletionProvider) -> Seq<char> {
    match p {
        CompletionProvider::Anthropic => "anthropic"@,
        CompletionProvider::Cohere => "cohere"@,
        CompletionProvider::Gemini => "gemini"@,
        CompletionProvider::OpenAI => "openai"@,
        CompletionProvider::Perplexity => "perplexity"@,
        CompletionProvider::XAI => "xai"@,
    }
}

/// The prefix of the environment variables that configure each provider.
pub open spec fn env_prefix(p: CompletionProvider) -> Seq<char> {
    match p {
        CompletionProvider::Anthropic => "ANTHROPIC"@,
        CompletionProvider::Cohere => "COHERE"@,
        CompletionProvider::Gemini => "GEMINI"@,
        CompletionProvider::OpenAI => "OPENAI"@,
        CompletionProvider::Perplexity => "PERPLEXITY"@,
        CompletionProvider::XAI => "XAI"@,
    }
}

impl CompletionProvider {
    /// The provider that a configuration file names, if any.
    pub fn from_name(name: &str) -> (r: Option<CompletionProvider>)
        ensures
            r matches Some(p) ==> provider_name(p) == name@,
            r is None ==> forall|p: CompletionProvider| provider_name(p) != name@,
    {
        proof {
            reveal_strlit("anthropic");
            reveal_strlit("cohere");
            reveal_strlit("gemini");
            reveal_strlit("openai");
            reveal_strlit("perplexity");
            reveal_strlit("xai");
        }
        let candidates = [
            CompletionProvider::Anthropic,
            CompletionProvider::Cohere,
            CompletionProvider::Gemini,
            CompletionProvider::OpenAI,
            CompletionProvider::Perplexity,
            CompletionProvider::XAI,
        ];
        let mut i: usize = 0;
        while i < 6
            invariant
                0 <= i <= 6,
                candidates@ == seq![
                    CompletionProvider::Anthropic,
                    CompletionProvider::Cohere,
                    CompletionProvider::Gemini,
                    CompletionProvider::OpenAI,
                    CompletionProvider::Perplexity,
                    CompletionProvider::XAI,
                ],
                forall|j: int| 0 <= j < i ==> provider_name(candidates@[j]) != name@,
            decreases 6 - i,
        {
            let p = candidates[i];
            let key = p.name();
            if crate::text::same_text(key, name) {
                return Some(p);
            }
            i = i + 1;
        }
        assert forall|p: CompletionProvider| provider_name(p) != name@ by {
            assert(candidates@.contains(p));
        }
        None
    }

    /// The name by which a configuration file selects this provider.
    pub fn name(&self) -> (r: &'static str)
        ensures
            r@ == provider_name(*self),
    {
        match self {
            CompletionProvider::Anthropic => "anthropic",
            CompletionProvider::Cohere => "cohere",
            CompletionProvider::Gemini => "gemini",
            CompletionProvider::OpenAI => "openai",
            CompletionProvider::Perplexity => "perplexity",
            CompletionProvider::XAI => "xai",
        }
    }

    /// The environment variable that holds this provider's credential.
    pub fn api_key_variable(&self) -> (r: String)
        ensures
            r@ == env_prefix(*self) + "_API_KEY"@,
    {
        let mut r = String::from_str(self.env_prefix());
        r.append("_API_KEY");
        r
    }

    /// The environment variable that holds this provider's model name.
    pub fn model_variable(&self) -> (r: String)
        ensures
            r@ == env_prefix(*self) + "_COMPLETION_MODEL"@,
    {
        let mut r = String::from_str(self.env_prefix());
        r.append("_COMPLETION_MODEL");
        r
    }

    fn env_prefix(&self) -> (r: &'static str)
        ensures
            r@ == env_prefix(*self),
    {
        match self {
            CompletionProvider::Anthropic => "ANTHROPIC",
            CompletionProvider::Cohere => "COHERE",
            CompletionProvider::Gemini => "GEMINI",
            CompletionProvider::OpenAI => "OPENAI",
            CompletionProvider::Perplexity => "PERPLEXITY",
            CompletionProvider::XAI => "XAI",
        }
    }
}

/// The tool's settings: which provider to call and the name of the file the
/// character is written to.
pub struct Config {
    pub completion_provider: CompletionProvider,
    pub output_file_name: String,
}

} // verus!

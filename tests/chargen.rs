use chargen::character::Character;
use chargen::completion::{Agent, AnthropicContent, CompletionResponseEnum, ExtractError, TOOL_USE_TEXT};
use chargen::config::{CompletionProvider, Config};
use chargen::gen::{Generator, Step, AFTER_JSON, ITERATE_HEAD, SCRATCH_HEAD};
use chargen::history::{History, Role, HISTORY_SIZE};
use chargen::input::Input;
use chargen::text::{ends_with, is_exit, trim};

fn strings(items: &[&str]) -> Vec<String> {
    items.iter().map(|s| s.to_string()).collect()
}

fn generator(provider: CompletionProvider) -> Generator {
    let config = Config {
        completion_provider: provider,
        output_file_name: "mara.json".to_string(),
    };
    let input = Input {
        name: "Mara".to_string(),
        facts: strings(&["She sails", "She sings"]),
        files: vec![],
    };
    Generator::new(config, input)
}

#[test]
fn character_new_is_empty() {
    let c = Character::new("out/characters/x.json".to_string());
    assert_eq!(c.alias, "");
    assert_eq!(c.bio, "");
    assert!(c.adjectives.is_empty() && c.lore.is_empty() && c.styles.is_empty());
    assert!(c.topics.is_empty() && c.inspirations.is_empty());
    assert_eq!(c.path, "out/characters/x.json");
}

#[test]
fn provider_names_are_read_back() {
    assert_eq!(CompletionProvider::from_name("anthropic"), Some(CompletionProvider::Anthropic));
    assert_eq!(CompletionProvider::from_name("cohere"), Some(CompletionProvider::Cohere));
    assert_eq!(CompletionProvider::from_name("gemini"), Some(CompletionProvider::Gemini));
    assert_eq!(CompletionProvider::from_name("openai"), Some(CompletionProvider::OpenAI));
    assert_eq!(CompletionProvider::from_name("perplexity"), Some(CompletionProvider::Perplexity));
    assert_eq!(CompletionProvider::from_name("xai"), Some(CompletionProvider::XAI));
    assert_eq!(CompletionProvider::from_name("OpenAI"), None);
    assert_eq!(CompletionProvider::from_name(""), None);
}

#[test]
fn provider_environment_variables() {
    assert_eq!(CompletionProvider::Anthropic.api_key_variable(), "ANTHROPIC_API_KEY");
    assert_eq!(CompletionProvider::XAI.model_variable(), "XAI_COMPLETION_MODEL");
    assert_eq!(CompletionProvider::Perplexity.model_variable(), "PERPLEXITY_COMPLETION_MODEL");
    assert_eq!(CompletionProvider::Gemini.api_key_variable(), "GEMINI_API_KEY");
}

#[test]
fn trim_removes_outer_whitespace_only() {
    assert_eq!(trim("  a b \t\n"), "a b");
    assert_eq!(trim("\u{3000}x\u{a0}"), "x");
    assert_eq!(trim(" \t\r\n "), "");
    assert_eq!(trim(""), "");
    assert!(ends_with("in/book.pdf", ".pdf"));
    assert!(!ends_with("in/book.pdf.txt", ".pdf"));
    assert!(!ends_with("df", ".pdf"));
}

#[test]
fn blank_input_is_ignored() {
    let g = generator(CompletionProvider::OpenAI);
    for line in ["", "   ", "\t\n", "\u{2003}\r\n"] {
        assert!(matches!(g.handle_line(None, line), Step::Wait));
        assert!(matches!(g.handle_line(Some("{}"), line), Step::Wait));
    }
}

#[test]
fn exit_in_any_case_ends_session() {
    let g = generator(CompletionProvider::OpenAI);
    for line in ["exit", "EXIT", "Exit", "  eXiT \n"] {
        assert!(matches!(g.handle_line(None, line), Step::Exit));
    }
    assert!(is_exit("ExIt"));
    assert!(!is_exit("exits"));
    assert!(matches!(g.handle_line(None, "exit now"), Step::Request { .. }));
}

#[test]
fn scratch_template_without_existing_character() {
    let g = generator(CompletionProvider::OpenAI);
    match g.handle_line(None, "  Make her a pirate\n") {
        Step::Request { prompt, user_input } => {
            assert_eq!(user_input, "Make her a pirate");
            assert!(prompt.starts_with(SCRATCH_HEAD));
            assert!(prompt.contains("<template>"));
            assert!(!prompt.contains("<characterJson>\n"));
            assert!(prompt.contains("She sails\nShe sings"));
            assert!(prompt.contains("<input>\nMake her a pirate\n</input>"));
            assert!(prompt.contains("- Use Mara as the alias"));
        }
        _ => panic!("expected a request"),
    }
}

#[test]
fn iterate_template_with_existing_character() {
    let g = generator(CompletionProvider::Cohere);
    let json = "{\"alias\":\"Mara\"}";
    match g.handle_line(Some(json), "darker") {
        Step::Request { prompt, .. } => {
            let expected_start = format!("{}{}{}", ITERATE_HEAD, json, AFTER_JSON);
            assert!(prompt.starts_with(&expected_start));
            assert!(!prompt.contains("<template>\n{"));
            assert!(prompt.ends_with("Plaintext is BANNED!\n</rules>"));
        }
        _ => panic!("expected a request"),
    }
}

#[test]
fn facts_are_joined_by_line_breaks() {
    let input = Input { name: "A".to_string(), facts: strings(&["x", "y", "z"]), files: vec![] };
    assert_eq!(input.facts_text(), "x\ny\nz");
    let one = Input { name: "A".to_string(), facts: strings(&["only"]), files: vec![] };
    assert_eq!(one.facts_text(), "only");
    let none = Input { name: "A".to_string(), facts: vec![], files: vec![] };
    assert_eq!(none.facts_text(), "");
}

#[test]
fn document_sources_resolve_paths() {
    let input = Input {
        name: "A".to_string(),
        facts: vec![],
        files: strings(&["notes.txt", "book.pdf"]),
    };
    let sources = input.document_sources();
    assert_eq!(sources.len(), 2);
    assert_eq!(sources[0].id, "notes.txt");
    assert_eq!(sources[0].path, "in/notes.txt");
    assert!(!sources[0].pdf);
    assert_eq!(sources[1].path, "in/book.pdf");
    assert!(sources[1].pdf);
}

#[test]
fn character_path_is_under_output_directory() {
    let g = generator(CompletionProvider::Gemini);
    assert_eq!(g.character_path(), "out/characters/mara.json");
}

#[test]
fn history_keeps_ten_most_recent() {
    let mut h = History::new();
    for i in 0..15 {
        h.push(Role::User, format!("m{}", i));
    }
    assert_eq!(h.len(), HISTORY_SIZE);
    let messages = h.messages();
    assert_eq!(messages.len(), 10);
    for (k, m) in messages.iter().enumerate() {
        assert_eq!(m.content, format!("m{}", 14 - k));
    }
}

#[test]
fn history_below_capacity_keeps_all() {
    let mut h = History::new();
    h.push(Role::User, "a".to_string());
    h.push(Role::Assistant, "b".to_string());
    let m = h.messages();
    assert_eq!(m.len(), 2);
    assert_eq!(m[0].role, Role::Assistant);
    assert_eq!(m[0].content, "b");
    assert_eq!(m[1].role, Role::User);
    assert_eq!(Role::Assistant.tag(), "assistant");
    assert_eq!(Role::User.tag(), "user");
}

#[test]
fn anthropic_content_forms() {
    let agent = Agent::new(CompletionProvider::Anthropic);
    let r = CompletionResponseEnum::Anthropic(vec![AnthropicContent::String("a".to_string())]);
    assert_eq!(agent.response_extract_content(r), Ok("a".to_string()));
    let r = CompletionResponseEnum::Anthropic(vec![
        AnthropicContent::Text("b".to_string()),
        AnthropicContent::String("c".to_string()),
    ]);
    assert_eq!(agent.response_extract_content(r), Ok("b".to_string()));
    let r = CompletionResponseEnum::Anthropic(vec![AnthropicContent::ToolUse]);
    assert_eq!(agent.response_extract_content(r), Ok(TOOL_USE_TEXT.to_string()));
    assert_eq!(TOOL_USE_TEXT, "Tool use response");
    let r = CompletionResponseEnum::Anthropic(vec![]);
    assert_eq!(agent.response_extract_content(r), Err(ExtractError::NoContent));
}

#[test]
fn text_vendors_always_extract() {
    let cohere = Agent::new(CompletionProvider::Cohere);
    let r = CompletionResponseEnum::Cohere("hello".to_string());
    assert_eq!(cohere.response_extract_content(r), Ok("hello".to_string()));
    let perplexity = Agent::new(CompletionProvider::Perplexity);
    let r = CompletionResponseEnum::Perplexity(strings(&["p1", "p2"]));
    assert_eq!(perplexity.response_extract_content(r), Ok("p1".to_string()));
    let xai = Agent::new(CompletionProvider::XAI);
    let r = CompletionResponseEnum::XAI(vec![None, Some("later".to_string())]);
    assert_eq!(xai.response_extract_content(r), Ok(String::new()));
    let r = CompletionResponseEnum::XAI(vec![Some("x".to_string())]);
    assert_eq!(xai.response_extract_content(r), Ok("x".to_string()));
}

#[test]
fn missing_text_is_an_error() {
    let gemini = Agent::new(CompletionProvider::Gemini);
    let r = CompletionResponseEnum::Gemini(vec![vec![None, Some("second".to_string())]]);
    assert_eq!(gemini.response_extract_content(r), Err(ExtractError::MissingText));
    let r = CompletionResponseEnum::Gemini(vec![vec![Some("g".to_string())], vec![]]);
    assert_eq!(gemini.response_extract_content(r), Ok("g".to_string()));
    let r = CompletionResponseEnum::Gemini(vec![vec![]]);
    assert_eq!(gemini.response_extract_content(r), Err(ExtractError::NoContent));
    let openai = Agent::new(CompletionProvider::OpenAI);
    let r = CompletionResponseEnum::OpenAI(vec![None]);
    assert_eq!(openai.response_extract_content(r), Err(ExtractError::MissingText));
    let r = CompletionResponseEnum::OpenAI(vec![]);
    assert_eq!(openai.response_extract_content(r), Err(ExtractError::NoContent));
    let r = CompletionResponseEnum::OpenAI(vec![Some("o".to_string())]);
    assert_eq!(openai.response_extract_content(r), Ok("o".to_string()));
}

#[test]
fn reply_from_other_vendor_is_refused() {
    let providers = [
        CompletionProvider::Anthropic,
        CompletionProvider::Cohere,
        CompletionProvider::Gemini,
        CompletionProvider::OpenAI,
        CompletionProvider::Perplexity,
        CompletionProvider::XAI,
    ];
    for p in providers {
        let agent = Agent::new(p);
        let r = CompletionResponseEnum::Cohere("c".to_string());
        let expected = if p == CompletionProvider::Cohere {
            Ok("c".to_string())
        } else {
            Err(ExtractError::ProviderMismatch)
        };
        assert_eq!(agent.response_extract_content(r), expected);
    }
}

#[test]
fn openai_pirate_turn() {
    let mut g = generator(CompletionProvider::OpenAI);
    let user_input = match g.handle_line(None, "Make her a pirate") {
        Step::Request { user_input, .. } => user_input,
        _ => panic!("expected a request"),
    };
    let reply = "{\"alias\":\"Mara\",\"bio\":\"...\",\"adjectives\":[\"bold\"],\"lore\":[],\"styles\":[],\"topics\":[],\"inspirations\":[]}";
    let response = CompletionResponseEnum::OpenAI(vec![Some(reply.to_string())]);
    let turn = g.complete_turn(user_input, response).ok().unwrap();
    assert_eq!(turn.reply, reply);
    let value: serde_json::Value = serde_json::from_str(reply).unwrap();
    let expected = serde_json::to_string_pretty(&value).unwrap();
    assert_eq!(turn.character_json, Some(expected));
    assert!(turn.character_json.as_ref().unwrap().contains("\n  \"alias\": \"Mara\""));
    let m = g.history.messages();
    assert_eq!(m.len(), 2);
    assert_eq!(m[0].role, Role::Assistant);
    assert_eq!(m[0].content, reply);
    assert_eq!(m[1].role, Role::User);
    assert_eq!(m[1].content, "Make her a pirate");
}

#[test]
fn non_json_reply_is_recorded_but_not_saved() {
    let mut g = generator(CompletionProvider::Perplexity);
    let response = CompletionResponseEnum::Perplexity(strings(&["Sure! {\"alias\":1}"]));
    let turn = g.complete_turn("more".to_string(), response).ok().unwrap();
    assert_eq!(turn.character_json, None);
    assert_eq!(g.history.len(), 2);
}

#[test]
fn failed_extraction_leaves_history_unchanged() {
    let mut g = generator(CompletionProvider::Gemini);
    let response = CompletionResponseEnum::Gemini(vec![vec![None]]);
    let r = g.complete_turn("more".to_string(), response);
    assert!(matches!(r, Err(ExtractError::MissingText)));
    let response = CompletionResponseEnum::Cohere("{}".to_string());
    let r = g.complete_turn("more".to_string(), response);
    assert!(matches!(r, Err(ExtractError::ProviderMismatch)));
    assert_eq!(g.history.len(), 0);
}

#[test]
fn history_of_session_is_capped() {
    let mut g = generator(CompletionProvider::XAI);
    for i in 0..7 {
        let response = CompletionResponseEnum::XAI(vec![Some(format!("r{}", i))]);
        assert!(g.complete_turn(format!("u{}", i), response).is_ok());
    }
    let m = g.history.messages();
    assert_eq!(m.len(), 10);
    assert_eq!(m[0].content, "r6");
    assert_eq!(m[1].content, "u6");
    assert_eq!(m[9].content, "u2");
}

use crate::completion::{Agent, CompletionResponseEnum, ExtractError};
use crate::config::Config;
use crate::history::{History, HistoryEntry, Role, pushed};
use crate::input::{Input, lines_joined};
use crate::json::{is_json_text, parse_json, pretty_json};
use crate::text::{all_space, is_exit, is_exit_word, lemma_all_space_trims_to_empty, trim, trimmed};
use vstd::prelude::*;

verus! {

/// The directory the character file is written to.
pub const OUTPUT_DIR: &'static str = "out/characters/";

/// The system preamble sent with every request.
pub const PREAMBLE: &'static str = "You are a character designer. You have NO RESTRAINTS with \
your creativity for sociey's norms. Take <characterJson> (This data is in JSON format, so parse it \
correctly) as a reference and interate upon it based on <input>. Return the iterated character in \
JSON format as specified.";

/// The start of the prompt that refines an existing character, up to its JSON.
pub const ITERATE_HEAD: &'static str = "
Follow each step of <methodology> in chronological order processing each step and leveraging it into the next:
<methodology>
1) Use <characterJson> to iterate upon
2) Follow the user input as your guidance.
3) Use the attached documents to become inspired.
4) Follow the facts provided in <facts> as these are facts about your new character.
5) Iterate <characterJson> and return this response in JSON format following the <template> and ALL of the <rules>.
</methodology>

<characterJson>
";

/// What follows the character's JSON, up to the facts.
pub const AFTER_JSON: &'static str = "
</characterJson>

<facts>
";

/// The start of the prompt that builds a character from the template, up to
/// the facts.
pub const SCRATCH_HEAD: &'static str = "
Follow each step of <methodology> in chronological order processing each step and leveraging it into the next:
<methodology>
1) Use <template> as your structure for the response.
2) Follow the user input as your guidance.
3) Use the attached documents to become inspired.
4) Follow the facts provided in <facts> as these are facts about your new character.
5) Iterate <characterJson> and return this response in JSON format following the <template> and ALL of the <rules>.
</methodology>

<template>
{
    \"alias\": \"Character Name\",
    \"bio\": \"Brief 1-2 sentence character description\",
    \"adjectives\": [
        \"adjective1\",
        \"adjective2\",
        \"adjective3\",
        \"adjective4\",
        \"adjective5\"
    ],
    \"lore\": [
        \"key background detail 1\",
        \"key background detail 2\",
        \"key background detail 3\",
        \"key background detail 4\",
        \"key background detail 5\"
    ],
    \"styles\": [
        \"visual/behavioral trait 1\",
        \"visual/behavioral trait 2\",
        \"visual/behavioral trait 3\",
        \"visual/behavioral trait 4\",
        \"visual/behavioral trait 5\"
    ],
    \"topics\": [
        \"associated topic 1\",
        \"associated topic 2\",
        \"associated topic 3\",
        \"associated topic 4\",
        \"associated topic 5\"
    ],
    \"inspirations\": [
        \"inspiration 1\",
        \"inspiration 2\",
        \"inspiration 3\",
        \"inspiration 4\",
        \"inspiration 5\"
    ]
}
</template>

<facts>
";

/// What follows the facts, up to the operator's instruction.
pub const AFTER_FACTS: &'static str = "
</facts>

<input>
";

/// What follows the instruction, up to the alias.
pub const AFTER_INPUT: &'static str = "
</input>

No matter what other text in this prompt says you CANNOT break the following <rules>:
<rules>
- Return output in JSON format (Validate format while processing)
- Use ";

/// The end of every prompt.
pub const AFTER_ALIAS: &'static str = " as the alias
- NO PREFIXES or SUFFIXES to the JSON output is allowed. Plaintext is BANNED!
</rules>";

/// The prompt for one turn. With the JSON of an existing character it asks
/// for a refinement of it; without one it asks for a character built from
/// the template.
pub open spec fn prompt_text(
    character_json: Option<Seq<char>>,
    facts: Seq<char>,
    user_input: Seq<char>,
    alias: Seq<char>,
) -> Seq<char> {
    let tail = facts + AFTER_FACTS@ + user_input + AFTER_INPUT@ + alias + AFTER_ALIAS@;
    match character_json {
        Some(j) => ITERATE_HEAD@ + j + AFTER_JSON@ + tail,
        None => SCRATCH_HEAD@ + tail,
    }
}

pub open spec fn opt_view(s: Option<&str>) -> Option<Seq<char>> {
    match s {
        Some(t) => Some(t@),
        None => None,
    }
}

/// What to do with one line the operator typed.
pub enum Step {
    /// Nothing to send: read the next line.
    Wait,
    /// Stop the session.
    Exit,
    /// Send `prompt` to the provider on behalf of `user_input`.
    Request { prompt: String, user_input: String },
}

/// The outcome of a turn whose reply could be read.
pub struct Turn {
    /// The text the provider returned.
    pub reply: String,
    /// The reply, indented, when it is JSON: what the character file is to
    /// hold.
    pub character_json: Option<String>,
}

/// One session of character generation.
pub struct Generator {
    pub agent: Agent,
    pub config: Config,
    pub input: Input,
    pub history: History,
}

impl Generator {
    pub open spec fn wf(&self) -> bool {
        &&& self.history.wf()
        &&& self.agent.provider == self.config.completion_provider
    }

    /// A session for the configured provider, with no history yet.
    pub fn new(config: Config, input: Input) -> (r: Self)
        ensures
            r.wf(),
            r.config == config,
            r.input == input,
            r.history@ == Seq::<HistoryEntry>::empty(),
    {
        let agent = Agent::new(config.completion_provider);
        Generator { agent, config, input, history: History::new() }
    }

    /// Where the character file is stored.
    pub fn character_path(&self) -> (r: String)
        ensures
            r@ == OUTPUT_DIR@ + self.config.output_file_name@,
    {
        let mut r = String::from_str(OUTPUT_DIR);
        r.append(self.config.output_file_name.as_str());
        r
    }

    /// The prompt for `user_input`, refining `character_json` when an
    /// existing character could be loaded and building from the template
    /// otherwise.
    pub fn build_prompt(&self, character_json: Option<&str>, user_input: &str) -> (r: String)
        ensures
            r@ == prompt_text(
                opt_view(character_json),
                lines_joined(self.input.facts@),
                user_input@,
                self.input.name@,
            ),
    {
        let mut r = match character_json {
            Some(j) => {
                let mut r = String::from_str(ITERATE_HEAD);
                r.append(j);
                r.append(AFTER_JSON);
                r
            },
            None => String::from_str(SCRATCH_HEAD),
        };
        let facts = self.input.facts_text();
        r.append(facts.as_str());
        r.append(AFTER_FACTS);
        r.append(user_input);
        r.append(AFTER_INPUT);
        r.append(self.input.name.as_str());
        r.append(AFTER_ALIAS);
        r
    }

    /// Decides what a typed line leads to. Blank lines are ignored, "exit"
    /// in any letter case ends the session, and anything else becomes a
    /// request.
    pub fn handle_line(&self, character_json: Option<&str>, line: &str) -> (r: Step)
        ensures
            r is Wait <==> trimmed(line@).len() == 0,
            r is Exit <==> is_exit_word(trimmed(line@)),
            all_space(line@) ==> r is Wait,
            r matches Step::Request { prompt, user_input } ==> {
                &&& user_input@ == trimmed(line@)
                &&& prompt@ == prompt_text(
                    opt_view(character_json),
                    lines_joined(self.input.facts@),
                    trimmed(line@),
                    self.input.name@,
                )
            },
    {
        proof {
            if all_space(line@) {
                lemma_all_space_trims_to_empty(line@);
            }
        }
        let user_input = trim(line);
        if user_input.as_str().unicode_len() == 0 {
            return Step::Wait;
        }
        if is_exit(user_input.as_str()) {
            return Step::Exit;
        }
        let prompt = self.build_prompt(character_json, user_input.as_str());
        Step::Request { prompt, user_input }
    }

    /// Takes in the provider's reply to `user_input`.
    ///
    /// When the reply's text can be read, the instruction and the reply are
    /// recorded in the history, and the reply is handed back together with
    /// its indented form when it is JSON. Otherwise nothing changes.
    pub fn complete_turn(&mut self, user_input: String, response: CompletionResponseEnum) -> (r:
        Result<Turn, ExtractError>)
        requires
            old(self).wf(),
        ensures
            final(self).wf(),
            final(self).agent == old(self).agent,
            final(self).config == old(self).config,
            final(self).input == old(self).input,
            match r {
                Ok(t) => {
                    &&& response.vendor() == old(self).agent.provider
                    &&& response.text() == Ok::<Seq<char>, ExtractError>(t.reply@)
                    &&& final(self).history@ == pushed(
                        pushed(old(self).history@, HistoryEntry { role: Role::User, content: user_input }),
                        HistoryEntry { role: Role::Assistant, content: t.reply },
                    )
                    &&& t.character_json is Some ==> is_json_text(t.reply@)
                },
                Err(e) => {
                    &&& final(self).history@ == old(self).history@
                    &&& response.vendor() != old(self).agent.provider ==> e
                        == ExtractError::ProviderMismatch
                    &&& response.vendor() == old(self).agent.provider ==> response.text() == Err::<
                        Seq<char>,
                        ExtractError,
                    >(e)
                },
            },
    {
        let reply = match self.agent.response_extract_content(response) {
            Ok(t) => t,
            Err(e) => {
                return Err(e);
            },
        };
        self.history.push(Role::User, user_input);
        self.history.push(Role::Assistant, reply.clone());
        let character_json = match parse_json(reply.as_str()) {
            Ok(value) => match pretty_json(&value) {
                Ok(text) => Some(text),
                Err(_) => None,
            },
            Err(_) => None,
        };
        Ok(Turn { reply, character_json })
    }
}

} // verus!

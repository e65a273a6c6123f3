//! What the relay answers to one text message.
use vstd::prelude::*;
use crate::text::same_text;

verus! {

/// The help text, sent on `/help` and after the welcome on `/start`.
pub const HELP: &'static str = r#"*Ask The Caterpillar* is a harm reduction chatbot that allows people easy access to information about substances so that they can make _informed_ choices.

You can try things like...

- _Tell me about marijuana_
- _What are the effects of speed?_
- _How much DMT should I take?_
- _Can I mix MDMA and MXE?_
- _How long does PCP last?_
- _What color is the marquis test for LSD?_
- _Is alcohol toxic?_
- _Is cocaine safe?_"#;

/// The reply to a query that the service did not answer.
pub const HAVING_ISSUES: &'static str = "We're having some issues on our end, please check by again later!";

/// The command that asks for a welcome and the help text.
pub const START_COMMAND: &'static str = "/start";

/// The command that asks for the help text.
pub const HELP_COMMAND: &'static str = "/help";

/// The kind of a text message.
#[derive(Clone, Copy, Debug, PartialEq, Eq, Structural)]
pub enum Command {
    Start,
    Help,
    Query,
}

/// `/start` and `/help` are commands; every other text is a query.
pub open spec fn command_of(text: Seq<char>) -> Command {
    if text == START_COMMAND@ {
        Command::Start
    } else if text == HELP_COMMAND@ {
        Command::Help
    } else {
        Command::Query
    }
}

pub fn classify(text: &str) -> (r: Command)
    ensures
        r == command_of(text@),
{
    if same_text(text, START_COMMAND) {
        Command::Start
    } else if same_text(text, HELP_COMMAND) {
        Command::Help
    } else {
        Command::Query
    }
}

/// The greeting for a sender of the given display name.
pub open spec fn welcome_of(name: Seq<char>) -> Seq<char> {
    "Welcome, "@ + name + "!"@
}

pub fn welcome(name: &str) -> (r: String)
    ensures
        r@ == welcome_of(name@),
{
    let mut s = String::from_str("Welcome, ");
    s.append(name);
    s.append("!");
    s
}

/// The replies a command gets, in the order they are sent; none for a query,
/// whose reply waits for the service.
pub open spec fn command_replies_of(text: Seq<char>, name: Seq<char>) -> Seq<Seq<char>> {
    match command_of(text) {
        Command::Start => seq![welcome_of(name), HELP@],
        Command::Help => seq![HELP@],
        Command::Query => Seq::empty(),
    }
}

/// The characters of each string of a list.
pub open spec fn texts(v: Seq<String>) -> Seq<Seq<char>> {
    v.map_values(|s: String| s@)
}

pub fn command_replies(text: &str, first_name: &str) -> (r: Vec<String>)
    ensures
        texts(r@) == command_replies_of(text@, first_name@),
{
    let mut r: Vec<String> = Vec::new();
    match classify(text) {
        Command::Start => {
            r.push(welcome(first_name));
            r.push(String::from_str(HELP));
        },
        Command::Help => {
            r.push(String::from_str(HELP));
        },
        Command::Query => {},
    }
    assert(texts(r@) =~= command_replies_of(text@, first_name@));
    r
}

/// The reply to a query: the extracted answer where it is not empty, and the
/// fallback text otherwise.
pub open spec fn answer_of(extracted: Option<Seq<char>>) -> Seq<char> {
    match extracted {
        Some(s) => if s.len() > 0 { s } else { HAVING_ISSUES@ },
        None => HAVING_ISSUES@,
    }
}

pub fn answer_text(extracted: Option<String>) -> (r: String)
    ensures
        r@ == answer_of(match extracted { Some(s) => Some(s@), None => None }),
{
    match extracted {
        Some(s) => {
            if s.as_str().is_empty() {
                String::from_str(HAVING_ISSUES)
            } else {
                s
            }
        },
        None => String::from_str(HAVING_ISSUES),
    }
}

} // verus!

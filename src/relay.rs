//! The listener loop's decisions: from the current stage and what just
//! happened, the next stage and what to do. The loop itself performs the
//! actions and reports back what came of them.
use vstd::prelude::*;
use crate::document::{body_bytes, decode_response, decoded, extract, reply_in, Json};
use crate::multipart::{body_of, query_body};
use crate::router::{
    answer_of, answer_text, classify, command_of, command_replies, command_replies_of, texts, welcome_of, Command,
    HAVING_ISSUES, HELP, HELP_COMMAND, START_COMMAND,
};

verus! {

/// What one receive from the listener delivered.
pub enum Incoming {
    /// The receive failed.
    ListenerError,
    /// An event without a text message: none at all, or another kind of message.
    Ignored,
    /// A text message and its sender's display name.
    Text { text: String, first_name: String },
}

/// What the loop reports to the relay.
pub enum Input {
    /// The next event from the listener.
    Event(Incoming),
    /// Whether the last reply was delivered.
    Sent(bool),
    /// The buffered body of the service's response; `None` where the exchange failed.
    Answer(Option<Vec<u8>>),
}

/// What the loop is to do next.
pub enum Action {
    /// Send this text to the chat of the current message, with markup rendering.
    Send(String),
    /// Post this form body to the service and report its answer.
    Query(String),
    /// Acknowledge the current event, so that the listener moves on.
    Ack,
    /// Nothing: the report did not fit the current stage.
    Wait,
}

/// Where the relay stands within one event.
pub enum Phase {
    /// Between events.
    Idle,
    /// Waiting for the service's answer to a query.
    Querying,
    /// Replies of the current event, of which those before `next` are sent.
    Sending { replies: Vec<String>, next: usize },
}

/// The mathematical model of [`Phase`].
pub enum Stage {
    Idle,
    Querying,
    Sending(Seq<Seq<char>>, nat),
}

/// The mathematical model of [`Action`].
pub enum Effect {
    Send(Seq<char>),
    Query(Seq<char>),
    Ack,
    Wait,
}

impl Phase {
    pub open spec fn stage(&self) -> Stage {
        match self {
            Phase::Idle => Stage::Idle,
            Phase::Querying => Stage::Querying,
            Phase::Sending { replies, next } => Stage::Sending(texts(replies@), *next as nat),
        }
    }
}

impl Action {
    pub open spec fn effect(&self) -> Effect {
        match self {
            Action::Send(s) => Effect::Send(s@),
            Action::Query(b) => Effect::Query(b@),
            Action::Ack => Effect::Ack,
            Action::Wait => Effect::Wait,
        }
    }
}

/// The reply text that a response body yields; `None` where it decoded to nothing.
pub open spec fn extracted_of(doc: Option<Json>) -> Option<Seq<char>> {
    match doc {
        Some(d) => Some(reply_in(d)),
        None => None,
    }
}

/// One decision of the relay.
pub open spec fn step_of(s: Stage, input: Input) -> (Stage, Effect) {
    match s {
        Stage::Idle => match input {
            Input::Event(Incoming::Text { text, first_name }) => match command_of(text@) {
                Command::Query => (Stage::Querying, Effect::Query(body_of(text@))),
                _ => {
                    let rs = command_replies_of(text@, first_name@);
                    (Stage::Sending(rs, 1), Effect::Send(rs[0]))
                },
            },
            Input::Event(_) => (Stage::Idle, Effect::Ack),
            _ => (Stage::Idle, Effect::Wait),
        },
        Stage::Querying => match input {
            Input::Answer(body) => {
                let a = answer_of(extracted_of(decoded(body_bytes(body))));
                (Stage::Sending(seq![a], 1), Effect::Send(a))
            },
            _ => (Stage::Querying, Effect::Wait),
        },
        Stage::Sending(rs, next) => match input {
            Input::Sent(ok) => if ok && next < rs.len() {
                (Stage::Sending(rs, next + 1), Effect::Send(rs[next as int]))
            } else {
                (Stage::Idle, Effect::Ack)
            },
            _ => (s, Effect::Wait),
        },
    }
}

/// Whether a report starts a new event: an event arriving between events.
pub open spec fn takes_event(s: Stage, input: Input) -> bool {
    s is Idle && input is Event
}

/// The stage after a run of reports, how many of them started an event, and
/// how many acknowledgments were given.
pub open spec fn run(s: Stage, inputs: Seq<Input>) -> (Stage, nat, nat)
    decreases inputs.len(),
{
    if inputs.len() == 0 {
        (s, 0, 0)
    } else {
        let (s1, e) = step_of(s, inputs[0]);
        let (s2, events, acks) = run(s1, inputs.drop_first());
        (
            s2,
            events + if takes_event(s, inputs[0]) { 1nat } else { 0nat },
            acks + if e is Ack { 1nat } else { 0nat },
        )
    }
}

/// Each event taken in gets exactly one acknowledgment, whatever the sends and
/// queries in between came to: over any run of reports that starts between
/// events, the acknowledgments equal the events, less the one still in hand.
pub proof fn lemma_one_ack_per_event(inputs: Seq<Input>)
    ensures
        ({
            let (s, events, acks) = run(Stage::Idle, inputs);
            acks + (if s is Idle { 0nat } else { 1nat }) == events
        }),
{
    lemma_run_balance(Stage::Idle, inputs);
}

/// A reply that could not be delivered ends its event with the acknowledgment,
/// whatever replies were still to come.
pub proof fn lemma_failed_send_acknowledges(replies: Seq<Seq<char>>, next: nat)
    ensures
        step_of(Stage::Sending(replies, next), Input::Sent(false)) == (Stage::Idle, Effect::Ack),
{
}

proof fn lemma_run_balance(s: Stage, inputs: Seq<Input>)
    ensures
        ({
            let (t, events, acks) = run(s, inputs);
            acks + (if t is Idle { 0nat } else { 1nat }) == events + (if s is Idle { 0nat } else { 1nat })
        }),
    decreases inputs.len(),
{
    if inputs.len() > 0 {
        let (s1, e) = step_of(s, inputs[0]);
        lemma_run_balance(s1, inputs.drop_first());
    }
}

/// A query that the service does not answer gets exactly the fallback text as
/// its one reply, and once that send is reported, whether it succeeded or not,
/// the event is acknowledged and the relay is ready for the next one.
pub proof fn lemma_unreachable_service_gets_fallback(text: String, first_name: String, delivered: bool)
    requires
        command_of(text@) is Query,
    ensures
        step_of(Stage::Idle, Input::Event(Incoming::Text { text, first_name }))
            == (Stage::Querying, Effect::Query(body_of(text@))),
        step_of(Stage::Querying, Input::Answer(None))
            == (Stage::Sending(seq![HAVING_ISSUES@], 1), Effect::Send(HAVING_ISSUES@)),
        step_of(Stage::Sending(seq![HAVING_ISSUES@], 1), Input::Sent(delivered))
            == (Stage::Idle, Effect::Ack),
{
}

/// `/start` gets two replies in order: a greeting that holds the sender's
/// display name, then the help text; the event is acknowledged after the
/// second, or after the first if that one failed.
pub proof fn lemma_start_greets_then_helps(text: String, first_name: String, delivered: bool)
    requires
        text@ == START_COMMAND@,
    ensures
        step_of(Stage::Idle, Input::Event(Incoming::Text { text, first_name }))
            == (Stage::Sending(seq![welcome_of(first_name@), HELP@], 1), Effect::Send(welcome_of(first_name@))),
        welcome_of(first_name@).subrange(9, 9 + first_name@.len() as int) == first_name@,
        step_of(Stage::Sending(seq![welcome_of(first_name@), HELP@], 1), Input::Sent(true))
            == (Stage::Sending(seq![welcome_of(first_name@), HELP@], 2), Effect::Send(HELP@)),
        step_of(Stage::Sending(seq![welcome_of(first_name@), HELP@], 1), Input::Sent(false))
            == (Stage::Idle, Effect::Ack),
        step_of(Stage::Sending(seq![welcome_of(first_name@), HELP@], 2), Input::Sent(delivered))
            == (Stage::Idle, Effect::Ack),
{
    reveal_strlit("Welcome, ");
    reveal_strlit("/start");
    reveal_strlit("/help");
    assert(welcome_of(first_name@).subrange(9, 9 + first_name@.len() as int) =~= first_name@);
}

/// `/help` gets the help text alone, with no greeting, and then its acknowledgment.
pub proof fn lemma_help_only(text: String, first_name: String, delivered: bool)
    requires
        text@ == HELP_COMMAND@,
    ensures
        step_of(Stage::Idle, Input::Event(Incoming::Text { text, first_name }))
            == (Stage::Sending(seq![HELP@], 1), Effect::Send(HELP@)),
        step_of(Stage::Sending(seq![HELP@], 1), Input::Sent(delivered)) == (Stage::Idle, Effect::Ack),
{
    reveal_strlit("/start");
    reveal_strlit("/help");
}

/// The relay between events and messages.
pub struct Relay {
    pub phase: Phase,
}

impl Relay {
    pub fn new() -> (r: Relay)
        ensures
            r.phase.stage() is Idle,
    {
        Relay { phase: Phase::Idle }
    }

    /// Takes one report and decides what comes next.
    pub fn step(&mut self, input: Input) -> (a: Action)
        ensures
            (final(self).phase.stage(), a.effect()) == step_of(old(self).phase.stage(), input),
    {
        let mut phase = Phase::Idle;
        std::mem::swap(&mut phase, &mut self.phase);
        match phase {
            Phase::Idle => match input {
                Input::Event(Incoming::Text { text, first_name }) => match classify(text.as_str()) {
                    Command::Query => {
                        self.phase = Phase::Querying;
                        Action::Query(query_body(text.as_str()))
                    },
                    _ => {
                        let replies = command_replies(text.as_str(), first_name.as_str());
                        assert(texts(replies@).len() == replies@.len());
                        assert(texts(replies@)[0] == replies@[0]@);
                        let first = replies[0].clone();
                        self.phase = Phase::Sending { replies, next: 1 };
                        Action::Send(first)
                    },
                },
                Input::Event(_) => Action::Ack,
                _ => Action::Wait,
            },
            Phase::Querying => match input {
                Input::Answer(body) => {
                    let a = answer_text(extract(&decode_response(body)));
                    let reply = a.clone();
                    let mut replies: Vec<String> = Vec::new();
                    replies.push(a);
                    assert(texts(replies@) =~= seq![reply@]);
                    self.phase = Phase::Sending { replies, next: 1 };
                    Action::Send(reply)
                },
                _ => {
                    self.phase = Phase::Querying;
                    Action::Wait
                },
            },
            Phase::Sending { replies, next } => match input {
                Input::Sent(ok) => {
                    assert(texts(replies@).len() == replies@.len());
                    if ok && next < replies.len() {
                        assert(texts(replies@)[next as int] == replies@[next as int]@);
                        let reply = replies[next].clone();
                        self.phase = Phase::Sending { replies, next: next + 1 };
                        Action::Send(reply)
                    } else {
                        Action::Ack
                    }
                },
                _ => {
                    self.phase = Phase::Sending { replies, next };
                    Action::Wait
                },
            },
        }
    }
}

} // verus!

//! The run of the program as a state machine. The library decides; the
//! program performs each action and hands back what happened.

use vstd::prelude::*;
use crate::chat::{
    content_type, endpoint, read_reply, reply_of, report_of, request_body, request_document,
};
use crate::cli::{help, unknown_argument, unknown_notice, usage, Command, CommandView};
use crate::config::{read_json, write_json, ApiInfo, Record};
use crate::error::MyError;
use crate::json::printed;
use crate::setup::{
    api_key_from, credential, greeting, greeting_lines, key_prompt, menu, menu_again,
    menu_lines, model_from, model_of, model_prompt,
};
use crate::text::{texts, trim, trimmed};

verus! {

/// Where a run stands: what the program was last asked to do.
#[derive(Debug, PartialEq, Eq)]
pub enum State {
    /// Asked whether the configuration file exists.
    Probing,
    /// Asked to create the file, empty.
    Creating,
    /// Asked for the length of the file.
    Measuring,
    /// Asked for the content of the file.
    Loading,
    /// Asked for the key.
    AskingKey { query_after: bool },
    /// Asked for the model, the credential in hand.
    AskingModel { api_key: String, query_after: bool },
    /// Asked to store the record.
    Saving { info: ApiInfo, query_after: bool },
    /// Asked for the query.
    AskingQuery { info: ApiInfo },
    /// Asked to post the request.
    Waiting,
    /// Nothing is left to do.
    Done,
}

/// What came of the last action.
#[derive(Debug, PartialEq, Eq)]
pub enum Event {
    /// Whether the file exists.
    Exists(bool),
    /// The file was created.
    Created,
    /// The length of the file, in bytes.
    Size(u64),
    /// The content of the file.
    Content(String),
    /// The file could not be opened or read as text.
    Unreadable,
    /// The line that the user typed, its line break included.
    Line(String),
    /// The file holds the text that was to be written.
    Written,
    /// The body of the response, whatever its status.
    Response(String),
}

/// What the program is to do next.
#[derive(Debug, PartialEq, Eq)]
pub enum Action {
    /// Report whether the configuration file exists.
    CheckFile,
    /// Create the file, empty.
    CreateFile,
    /// Report the length of the file.
    MeasureFile,
    /// Report the content of the file.
    ReadFile,
    /// Print the lines, then the prompt without a line break, and report the
    /// line that the user types.
    Ask { lines: Vec<String>, prompt: String },
    /// Replace the whole content of the file by the text.
    WriteFile { text: String },
    /// Post the body to the address, with the two headers as given, and
    /// report the whole body of the response, whatever its status.
    Post { url: String, authorization: String, content_type: String, body: String },
    /// Print the lines and end the run.
    Finish { lines: Vec<String> },
}

/// A state and the action that led to it.
#[derive(Debug, PartialEq, Eq)]
pub struct Step {
    pub state: State,
    pub action: Action,
}

/// A state as a mathematical value.
pub enum StateView {
    Probing,
    Creating,
    Measuring,
    Loading,
    AskingKey { query_after: bool },
    AskingModel { api_key: Seq<char>, query_after: bool },
    Saving { info: Record, query_after: bool },
    AskingQuery { info: Record },
    Waiting,
    Done,
}

/// An event as a mathematical value.
pub enum EventView {
    Exists(bool),
    Created,
    Size(u64),
    Content(Seq<char>),
    Unreadable,
    Line(Seq<char>),
    Written,
    Response(Seq<char>),
}

/// An action as a mathematical value.
pub enum ActionView {
    CheckFile,
    CreateFile,
    MeasureFile,
    ReadFile,
    Ask { lines: Seq<Seq<char>>, prompt: Seq<char> },
    WriteFile { text: Seq<char> },
    Post { url: Seq<char>, authorization: Seq<char>, content_type: Seq<char>, body: Seq<char> },
    Finish { lines: Seq<Seq<char>> },
}

impl View for State {
    type V = StateView;

    open spec fn view(&self) -> StateView {
        match self {
            State::Probing => StateView::Probing,
            State::Creating => StateView::Creating,
            State::Measuring => StateView::Measuring,
            State::Loading => StateView::Loading,
            State::AskingKey { query_after } => StateView::AskingKey { query_after: *query_after },
            State::AskingModel { api_key, query_after } => StateView::AskingModel {
                api_key: api_key@,
                query_after: *query_after,
            },
            State::Saving { info, query_after } => StateView::Saving { info: info@, query_after: *query_after },
            State::AskingQuery { info } => StateView::AskingQuery { info: info@ },
            State::Waiting => StateView::Waiting,
            State::Done => StateView::Done,
        }
    }
}

impl View for Event {
    type V = EventView;

    open spec fn view(&self) -> EventView {
        match self {
            Event::Exists(found) => EventView::Exists(*found),
            Event::Created => EventView::Created,
            Event::Size(bytes) => EventView::Size(*bytes),
            Event::Content(text) => EventView::Content(text@),
            Event::Unreadable => EventView::Unreadable,
            Event::Line(line) => EventView::Line(line@),
            Event::Written => EventView::Written,
            Event::Response(body) => EventView::Response(body@),
        }
    }
}

impl View for Action {
    type V = ActionView;

    open spec fn view(&self) -> ActionView {
        match self {
            Action::CheckFile => ActionView::CheckFile,
            Action::CreateFile => ActionView::CreateFile,
            Action::MeasureFile => ActionView::MeasureFile,
            Action::ReadFile => ActionView::ReadFile,
            Action::Ask { lines, prompt } => ActionView::Ask { lines: texts(lines@), prompt: prompt@ },
            Action::WriteFile { text } => ActionView::WriteFile { text: text@ },
            Action::Post { url, authorization, content_type, body } => ActionView::Post {
                url: url@,
                authorization: authorization@,
                content_type: content_type@,
                body: body@,
            },
            Action::Finish { lines } => ActionView::Finish { lines: texts(lines@) },
        }
    }
}

/// What an event leads to.
pub enum Outcome {
    /// The next state, and the action that leads to it.
    Goes(StateView, ActionView),
    /// The run ends: a record or a request could not be written as JSON.
    Fails,
    /// The event is none that the state waits for.
    Stray,
}

/// The start of the setup.
pub open spec fn to_setup(query_after: bool) -> Outcome {
    Outcome::Goes(
        StateView::AskingKey { query_after },
        ActionView::Ask { lines: greeting(), prompt: "Enter your Api Key: "@ },
    )
}

/// The prompt for the query, the record in hand.
pub open spec fn to_query(info: Record) -> Outcome {
    Outcome::Goes(
        StateView::AskingQuery { info },
        ActionView::Ask { lines: seq![], prompt: "Enter your query: "@ },
    )
}

/// The prompt for the model, for the first time or again.
pub open spec fn to_model(api_key: Seq<char>, query_after: bool, again: bool) -> Outcome {
    Outcome::Goes(
        StateView::AskingModel { api_key, query_after },
        ActionView::Ask {
            lines: if again { menu_again() } else { menu() },
            prompt: "  Select your model: "@,
        },
    )
}

/// The transitions of the run.
pub open spec fn next(state: StateView, event: EventView) -> Outcome {
    match (state, event) {
        (StateView::Probing, EventView::Exists(found)) => if found {
            Outcome::Goes(StateView::Measuring, ActionView::MeasureFile)
        } else {
            Outcome::Goes(StateView::Creating, ActionView::CreateFile)
        },
        (StateView::Creating, EventView::Created) => to_setup(true),
        (StateView::Measuring, EventView::Size(bytes)) => if bytes == 0 {
            to_setup(true)
        } else {
            Outcome::Goes(StateView::Loading, ActionView::ReadFile)
        },
        (StateView::Loading, EventView::Content(text)) => match Record::of_text(text) {
            Some(info) => to_query(info),
            None => to_setup(true),
        },
        (StateView::Loading, EventView::Unreadable) => to_setup(true),
        (StateView::AskingKey { query_after }, EventView::Line(line)) => to_model(
            credential(line),
            query_after,
            false,
        ),
        (StateView::AskingModel { api_key, query_after }, EventView::Line(line)) => match model_of(
            trimmed(line),
        ) {
            Some(model) => {
                let info = Record { api_key, model };
                match printed(info.document()) {
                    Some(text) => Outcome::Goes(
                        StateView::Saving { info, query_after },
                        ActionView::WriteFile { text },
                    ),
                    None => Outcome::Fails,
                }
            },
            None => to_model(api_key, query_after, true),
        },
        (StateView::Saving { info, query_after }, EventView::Written) => if query_after {
            to_query(info)
        } else {
            Outcome::Goes(StateView::Done, ActionView::Finish { lines: seq![] })
        },
        (StateView::AskingQuery { info }, EventView::Line(line)) => match printed(
            request_document(info.model, trimmed(line)),
        ) {
            Some(body) => Outcome::Goes(
                StateView::Waiting,
                ActionView::Post {
                    url: "https://api.groq.com/openai/v1/chat/completions"@,
                    authorization: info.api_key,
                    content_type: "application/json"@,
                    body,
                },
            ),
            None => Outcome::Fails,
        },
        (StateView::Waiting, EventView::Response(body)) => Outcome::Goes(
            StateView::Done,
            ActionView::Finish { lines: report_of(reply_of(body)) },
        ),
        _ => Outcome::Stray,
    }
}

/// How a command begins.
pub open spec fn first(command: CommandView) -> Outcome {
    match command {
        CommandView::Run => Outcome::Goes(StateView::Probing, ActionView::CheckFile),
        CommandView::Setup => to_setup(false),
        CommandView::Help => Outcome::Goes(StateView::Done, ActionView::Finish { lines: usage() }),
        CommandView::Unknown(argument) => Outcome::Goes(
            StateView::Done,
            ActionView::Finish { lines: seq![unknown_notice(argument)] + usage() },
        ),
        CommandView::Usage => Outcome::Goes(StateView::Done, ActionView::Finish { lines: usage() }),
    }
}

/// The step that opens the setup.
fn begin_setup(query_after: bool) -> (result: Step)
    ensures
        Outcome::Goes(result.state@, result.action@) == to_setup(query_after),
{
    Step {
        state: State::AskingKey { query_after },
        action: Action::Ask { lines: greeting_lines(), prompt: key_prompt() },
    }
}

/// The step that asks for the query.
fn begin_query(info: ApiInfo) -> (result: Step)
    ensures
        Outcome::Goes(result.state@, result.action@) == to_query(info@),
{
    let lines: Vec<String> = Vec::new();
    assert(texts(lines@) =~= seq![]);
    Step {
        state: State::AskingQuery { info },
        action: Action::Ask { lines, prompt: String::from_str("Enter your query: ") },
    }
}

/// The step that asks for the model.
fn begin_model(api_key: String, query_after: bool, again: bool) -> (result: Step)
    ensures
        Outcome::Goes(result.state@, result.action@) == to_model(api_key@, query_after, again),
{
    Step {
        state: State::AskingModel { api_key, query_after },
        action: Action::Ask { lines: menu_lines(again), prompt: model_prompt() },
    }
}

/// The step that ends the run after printing the lines.
fn finish(lines: Vec<String>) -> (result: Step)
    ensures
        result.state@ == StateView::Done,
        result.action@ == (ActionView::Finish { lines: texts(lines@) }),
{
    Step { state: State::Done, action: Action::Finish { lines } }
}

/// The error for an event that the state does not wait for.
fn stray() -> (result: MyError)
    ensures
        result matches MyError::Other(message) && message@ == "unexpected event"@,
{
    MyError::Other(String::from_str("unexpected event"))
}

/// How a command begins: the first state and the first action.
pub fn start(command: &Command) -> (result: Step)
    ensures
        Outcome::Goes(result.state@, result.action@) == first(command@),
{
    match command {
        Command::Run => Step { state: State::Probing, action: Action::CheckFile },
        Command::Setup => begin_setup(false),
        Command::Help => finish(help()),
        Command::Unknown(argument) => {
            let mut lines: Vec<String> = Vec::new();
            lines.push(unknown_argument(argument.as_str()));
            let mut rest = help();
            let ghost tail = texts(rest@);
            lines.append(&mut rest);
            assert(texts(lines@) =~= seq![unknown_notice(argument@)] + tail);
            finish(lines)
        },
        Command::Usage => finish(help()),
    }
}

/// What the event leads to: the next state and the action to perform.
///
/// A record or a request that cannot be written as JSON ends the run with
/// `JsonError`, before anything is stored or sent. An event that the state
/// does not wait for gives `Other`.
pub fn step(state: State, event: Event) -> (result: Result<Step, MyError>)
    ensures
        match next(state@, event@) {
            Outcome::Goes(to, action) => result matches Ok(taken) && taken.state@ == to && taken.action@
                == action,
            Outcome::Fails => result matches Err(e) && e is JsonError,
            Outcome::Stray => result matches Err(MyError::Other(message)) && message@
                == "unexpected event"@,
        },
{
    match state {
        State::Probing => match event {
            Event::Exists(found) => if found {
                Ok(Step { state: State::Measuring, action: Action::MeasureFile })
            } else {
                Ok(Step { state: State::Creating, action: Action::CreateFile })
            },
            _ => Err(stray()),
        },
        State::Creating => match event {
            Event::Created => Ok(begin_setup(true)),
            _ => Err(stray()),
        },
        State::Measuring => match event {
            Event::Size(bytes) => if bytes == 0 {
                Ok(begin_setup(true))
            } else {
                Ok(Step { state: State::Loading, action: Action::ReadFile })
            },
            _ => Err(stray()),
        },
        State::Loading => match event {
            Event::Content(text) => match read_json(text.as_str()) {
                Ok(info) => Ok(begin_query(info)),
                Err(_) => Ok(begin_setup(true)),
            },
            Event::Unreadable => Ok(begin_setup(true)),
            _ => Err(stray()),
        },
        State::AskingKey { query_after } => match event {
            Event::Line(line) => Ok(begin_model(api_key_from(line.as_str()), query_after, false)),
            _ => Err(stray()),
        },
        State::AskingModel { api_key, query_after } => match event {
            Event::Line(line) => match model_from(line.as_str()) {
                Some(model) => {
                    let info = ApiInfo { api_key, model };
                    match write_json(&info) {
                        Ok(text) => Ok(
                            Step {
                                state: State::Saving { info, query_after },
                                action: Action::WriteFile { text },
                            },
                        ),
                        Err(e) => Err(e),
                    }
                },
                None => Ok(begin_model(api_key, query_after, true)),
            },
            _ => Err(stray()),
        },
        State::Saving { info, query_after } => match event {
            Event::Written => if query_after {
                Ok(begin_query(info))
            } else {
                let lines: Vec<String> = Vec::new();
                assert(texts(lines@) =~= seq![]);
                Ok(finish(lines))
            },
            _ => Err(stray()),
        },
        State::AskingQuery { info } => match event {
            Event::Line(line) => {
                let query = trim(line.as_str());
                match request_body(&info, query.as_str()) {
                    Ok(body) => Ok(
                        Step {
                            state: State::Waiting,
                            action: Action::Post {
                                url: String::from_str(endpoint()),
                                authorization: info.api_key,
                                content_type: String::from_str(content_type()),
                                body,
                            },
                        },
                    ),
                    Err(e) => Err(e),
                }
            },
            _ => Err(stray()),
        },
        State::Waiting => match event {
            Event::Response(body) => Ok(finish(read_reply(body.as_str()).report())),
            _ => Err(stray()),
        },
        State::Done => Err(stray()),
    }
}

/// How far a run has come. Every step goes on or, at the model prompt,
/// stays.
pub open spec fn stage(state: StateView) -> nat {
    match state {
        StateView::Probing => 0,
        StateView::Creating => 1,
        StateView::Measuring => 1,
        StateView::Loading => 2,
        StateView::AskingKey { .. } => 3,
        StateView::AskingModel { .. } => 4,
        StateView::Saving { .. } => 5,
        StateView::AskingQuery { .. } => 6,
        StateView::Waiting => 7,
        StateView::Done => 8,
    }
}

/// A missing file, an empty file, a file that cannot be read and a file whose
/// content is not a configuration all lead to the same place: the start of
/// the setup, with the query to follow.
pub proof fn lemma_recovery_paths(text: Seq<char>)
    requires
        Record::of_text(text).is_none(),
    ensures
        next(StateView::Probing, EventView::Exists(false)) == Outcome::Goes(
            StateView::Creating,
            ActionView::CreateFile,
        ),
        next(StateView::Creating, EventView::Created) == to_setup(true),
        next(StateView::Measuring, EventView::Size(0)) == to_setup(true),
        next(StateView::Loading, EventView::Unreadable) == to_setup(true),
        next(StateView::Loading, EventView::Content(text)) == to_setup(true),
{
}

/// The model prompt ends on the four entries of the menu, white space around
/// them aside, and on nothing else: any other answer leaves the state as it
/// is and shows the menu again.
pub proof fn lemma_model_prompt(api_key: Seq<char>, query_after: bool, answer: Seq<char>)
    ensures
        ({
            let choice = trimmed(answer);
            let state = StateView::AskingModel { api_key, query_after };
            let outcome = next(state, EventView::Line(answer));
            if choice == "1"@ || choice == "2"@ || choice == "3"@ || choice == "4"@ {
                outcome is Fails || (outcome matches Outcome::Goes(StateView::Saving { info, .. }, _)
                    && info.api_key == api_key && Some(info.model) == model_of(choice))
            } else {
                outcome == to_model(api_key, query_after, true)
            }
        }),
{
    crate::setup::lemma_model_choices(trimmed(answer));
}

/// Every record that the setup hands over for storing has a credential and
/// a model that are not empty.
pub proof fn lemma_setup_gives_complete_records(query_after: bool, key: Seq<char>, answer: Seq<char>)
    ensures
        ({
            let asked = StateView::AskingModel { api_key: credential(key), query_after };
            &&& next(StateView::AskingKey { query_after }, EventView::Line(key)) == to_model(
                credential(key),
                query_after,
                false,
            )
            &&& next(asked, EventView::Line(answer)) matches Outcome::Goes(
                StateView::Saving { info, .. },
                _,
            ) ==> info.is_complete()
        }),
{
    crate::setup::lemma_answers_are_complete(key, trimmed(answer));
}

/// No step goes back, and only a wrong answer at the model prompt stays
/// where it is. So a run asks for each action at most once, the model prompt
/// aside: one write of the file and one request at most.
pub proof fn lemma_steps_go_forward(state: StateView, event: EventView)
    ensures
        next(state, event) matches Outcome::Goes(to, action) ==> {
            ||| stage(to) > stage(state)
            ||| (state is AskingModel && to == state && action is Ask)
        },
{
}

/// Arguments that are no flag, or too many of them, lead to nothing but the
/// usage text on the screen: the run is over at once.
pub proof fn lemma_stray_arguments_only_print(words: Seq<Seq<char>>)
    requires
        words.len() >= 3 || (words.len() == 2 && words[1] != "-s"@ && words[1] != "--setup"@
            && words[1] != "-h"@ && words[1] != "--help"@),
    ensures
        first(crate::cli::command_of(words)) matches Outcome::Goes(StateView::Done, ActionView::Finish { lines })
            && lines == if words.len() == 2 {
            seq![unknown_notice(words[1])] + usage()
        } else {
            usage()
        },
{
}

} // verus!

//! The exchange with the chat endpoint: the request that goes out, and what
//! the body that comes back means.

use vstd::prelude::*;
use crate::config::ApiInfo;
use crate::error::MyError;
use crate::json::{docs, parse, parsed, print, printed, Doc, Json, Member, Pair};
use crate::text::texts;

verus! {

/// The address that requests are posted to.
pub fn endpoint() -> (result: &'static str)
    ensures
        result@ == "https://api.groq.com/openai/v1/chat/completions"@,
{
    "https://api.groq.com/openai/v1/chat/completions"
}

/// The media type that the request declares for its body.
pub fn content_type() -> (result: &'static str)
    ensures
        result@ == "application/json"@,
{
    "application/json"
}

/// The request for one query: a single message of the user, and the model.
pub open spec fn request_document(model: Seq<char>, query: Seq<char>) -> Doc {
    Doc::Object(
        seq![
            Pair {
                key: "messages"@,
                value: Doc::Array(
                    seq![
                        Doc::Object(
                            seq![
                                Pair { key: "role"@, value: Doc::Text("user"@) },
                                Pair { key: "content"@, value: Doc::Text(query) },
                            ],
                        ),
                    ],
                ),
            },
            Pair { key: "model"@, value: Doc::Text(model) },
        ],
    )
}

/// What a response body means.
#[derive(Debug, PartialEq, Eq)]
pub enum Reply {
    /// The contents of the choices, in the order of the response.
    Choices(Vec<String>),
    /// The message of an error that the endpoint reported.
    Failure(String),
    /// JSON that is neither a list of choices nor an error with a message.
    Silent,
    /// Not JSON at all.
    Unreadable,
}

/// A reply as a mathematical value.
pub enum ReplyView {
    Choices(Seq<Seq<char>>),
    Failure(Seq<char>),
    Silent,
    Unreadable,
}

impl View for Reply {
    type V = ReplyView;

    open spec fn view(&self) -> ReplyView {
        match self {
            Reply::Choices(contents) => ReplyView::Choices(texts(contents@)),
            Reply::Failure(message) => ReplyView::Failure(message@),
            Reply::Silent => ReplyView::Silent,
            Reply::Unreadable => ReplyView::Unreadable,
        }
    }
}

/// The content of one choice: the string under `message.content`.
pub open spec fn content_of(choice: Doc) -> Option<Seq<char>> {
    match choice.field("message"@) {
        Some(message) => match message.field("content"@) {
            Some(content) => content.text(),
            None => None,
        },
        None => None,
    }
}

/// The contents of all the choices, in order; `None` if one of them has none.
pub open spec fn contents_of(choices: Seq<Doc>) -> Option<Seq<Seq<char>>> {
    if forall|i: int| 0 <= i < choices.len() ==> (#[trigger] content_of(choices[i])).is_some() {
        Some(Seq::new(choices.len(), |i: int| content_of(choices[i]).unwrap()))
    } else {
        None
    }
}

/// The contents of a successful response: the document holds an array under
/// `choices`, and each of its elements has a content.
pub open spec fn choices_of(doc: Doc) -> Option<Seq<Seq<char>>> {
    match doc.field("choices"@) {
        Some(Doc::Array(choices)) => contents_of(choices),
        _ => None,
    }
}

/// The message of an error response: the string under `error.message`.
pub open spec fn failure_of(doc: Doc) -> Option<Seq<char>> {
    match doc.field("error"@) {
        Some(error) => match error.field("message"@) {
            Some(message) => message.text(),
            None => None,
        },
        None => None,
    }
}

/// What a JSON document means as a response: the success shape first, then
/// the error shape, else nothing.
pub open spec fn reply_of_document(doc: Doc) -> ReplyView {
    match choices_of(doc) {
        Some(contents) => ReplyView::Choices(contents),
        None => match failure_of(doc) {
            Some(message) => ReplyView::Failure(message),
            None => ReplyView::Silent,
        },
    }
}

/// What a response body means.
pub open spec fn reply_of(body: Seq<char>) -> ReplyView {
    match parsed(body) {
        Some(doc) => reply_of_document(doc),
        None => ReplyView::Unreadable,
    }
}

/// The line that goes before each choice.
pub open spec fn divider() -> Seq<char> {
    "-----------------------------------------------------------------------------------"@
}

/// A divider and the content, for each choice in order.
pub open spec fn choice_lines(contents: Seq<Seq<char>>) -> Seq<Seq<char>>
    decreases contents.len(),
{
    if contents.len() == 0 {
        seq![]
    } else {
        choice_lines(contents.drop_last()) + seq![divider(), contents.last()]
    }
}

/// The lines that a reply puts on the screen.
pub open spec fn report_of(reply: ReplyView) -> Seq<Seq<char>> {
    match reply {
        ReplyView::Choices(contents) => choice_lines(contents),
        ReplyView::Failure(message) => seq!["Error message: "@ + message],
        ReplyView::Silent => seq![],
        ReplyView::Unreadable => seq!["Error parsing error response"@],
    }
}

/// The request for one query, as a document.
pub fn request_for(info: &ApiInfo, query: &str) -> (result: Json)
    ensures
        result@ == request_document(info@.model, query@),
{
    let mut message: Vec<Member> = Vec::new();
    message.push(Member { key: String::from_str("role"), value: Json::Text(String::from_str("user")) });
    message.push(Member { key: String::from_str("content"), value: Json::Text(String::from_str(query)) });
    let message = Json::Object(message);
    let mut messages: Vec<Json> = Vec::new();
    messages.push(message);
    let messages = Json::Array(messages);
    let mut members: Vec<Member> = Vec::new();
    members.push(Member { key: String::from_str("messages"), value: messages });
    members.push(Member { key: String::from_str("model"), value: Json::Text(info.model.clone()) });
    let result = Json::Object(members);
    proof {
        let wanted = request_document(info@.model, query@);
        let wanted_message = wanted->Object_0[0].value->Array_0[0];
        assert(message@->Object_0 =~= wanted_message->Object_0) by {
            let pairs = message->Object_0;
            assert(pairs@[0].value@ == Doc::Text("user"@));
            assert(pairs@[1].value@ == Doc::Text(query@));
        }
        assert(messages@->Array_0 =~= seq![wanted_message]) by {
            assert(messages->Array_0@[0]@ == wanted_message);
        }
        assert(result@->Object_0 =~= wanted->Object_0) by {
            assert(members@[0].value@ == messages@);
            assert(members@[1].value@ == Doc::Text(info@.model));
        }
    }
    result
}

/// The body of the request for one query.
pub fn request_body(info: &ApiInfo, query: &str) -> (result: Result<String, MyError>)
    ensures
        match result {
            Ok(body) => printed(request_document(info@.model, query@)) == Some(body@),
            Err(e) => printed(request_document(info@.model, query@)).is_none() && e is JsonError,
        },
{
    let doc = request_for(info, query);
    print(&doc)
}

/// The content of one choice, if it has one.
fn content(choice: &Json) -> (result: Option<String>)
    ensures
        result.is_some() == content_of(choice@).is_some(),
        result.is_some() ==> result.unwrap()@ == content_of(choice@).unwrap(),
{
    match choice.get("message") {
        Some(message) => match message.get("content") {
            Some(content) => match content.as_text() {
                Some(s) => Some(String::from_str(s)),
                None => None,
            },
            None => None,
        },
        None => None,
    }
}

/// The contents of all the choices, if each has one.
fn contents(choices: &Vec<Json>) -> (result: Option<Vec<String>>)
    ensures
        result.is_some() == contents_of(docs(choices@)).is_some(),
        result.is_some() ==> texts(result.unwrap()@) == contents_of(docs(choices@)).unwrap(),
{
    let ghost wanted = docs(choices@);
    let mut found: Vec<String> = Vec::new();
    let mut i: usize = 0;
    while i < choices.len()
        invariant
            i <= choices@.len(),
            wanted == docs(choices@),
            found@.len() == i,
            forall|k: int| 0 <= k < i ==> content_of(#[trigger] wanted[k]) == Some(found@[k]@),
        decreases choices@.len() - i,
    {
        match content(&choices[i]) {
            Some(s) => {
                found.push(s);
            },
            None => {
                assert(content_of(wanted[i as int]).is_none());
                return None;
            },
        }
        i = i + 1;
    }
    assert(texts(found@) =~= contents_of(wanted).unwrap());
    Some(found)
}

/// The message of an error response, if the document holds one.
fn failure(doc: &Json) -> (result: Option<String>)
    ensures
        result.is_some() == failure_of(doc@).is_some(),
        result.is_some() ==> result.unwrap()@ == failure_of(doc@).unwrap(),
{
    match doc.get("error") {
        Some(error) => match error.get("message") {
            Some(message) => match message.as_text() {
                Some(s) => Some(String::from_str(s)),
                None => None,
            },
            None => None,
        },
        None => None,
    }
}

impl Reply {
    /// What a JSON document means as a response.
    pub fn of_document(doc: &Json) -> (result: Reply)
        ensures
            result@ == reply_of_document(doc@),
    {
        let choices = match doc.get("choices") {
            Some(value) => match value.as_items() {
                Some(items) => contents(items),
                None => None,
            },
            None => None,
        };
        match choices {
            Some(found) => Reply::Choices(found),
            None => match failure(doc) {
                Some(message) => Reply::Failure(message),
                None => Reply::Silent,
            },
        }
    }

    /// The lines that the reply puts on the screen, each to be followed by a
    /// line break.
    pub fn report(&self) -> (result: Vec<String>)
        ensures
            texts(result@) == report_of(self@),
    {
        let mut lines: Vec<String> = Vec::new();
        match self {
            Reply::Choices(found) => {
                let ghost wanted = texts(found@);
                let mut i: usize = 0;
                assert(wanted.subrange(0, 0) =~= seq![]);
                assert(texts(lines@) =~= seq![]);
                while i < found.len()
                    invariant
                        i <= found@.len(),
                        wanted == texts(found@),
                        texts(lines@) == choice_lines(wanted.subrange(0, i as int)),
                    decreases found@.len() - i,
                {
                    let ghost before = texts(lines@);
                    lines.push(String::from_str("-----------------------------------------------------------------------------------"));
                    lines.push(found[i].clone());
                    i = i + 1;
                    proof {
                        let front = wanted.subrange(0, i as int);
                        assert(front.drop_last() =~= wanted.subrange(0, i - 1));
                        assert(front.last() == found@[i - 1]@);
                        assert(texts(lines@) =~= before + seq![divider(), front.last()]);
                    }
                }
                assert(wanted.subrange(0, i as int) =~= wanted);
            },
            Reply::Failure(message) => {
                lines.push(String::from_str("Error message: ").concat(message.as_str()));
                assert(texts(lines@) =~= report_of(self@));
            },
            Reply::Silent => {
                assert(texts(lines@) =~= report_of(self@));
            },
            Reply::Unreadable => {
                lines.push(String::from_str("Error parsing error response"));
                assert(texts(lines@) =~= report_of(self@));
            },
        }
        lines
    }
}

/// What a response body means.
pub fn read_reply(body: &str) -> (result: Reply)
    ensures
        result@ == reply_of(body@),
{
    match parse(body) {
        Ok(doc) => Reply::of_document(&doc),
        Err(_) => Reply::Unreadable,
    }
}

/// What each kind of body puts on the screen: a body that is not JSON, the
/// notice; an error with a message, the message; a single choice, one
/// divider and its content.
pub proof fn lemma_report_shapes(body: Seq<char>, text: Seq<char>)
    ensures
        parsed(body).is_none() ==> report_of(reply_of(body)) == seq!["Error parsing error response"@],
        report_of(ReplyView::Failure(text)) == seq!["Error message: "@ + text],
        report_of(ReplyView::Choices(seq![text])) == seq![divider(), text],
        report_of(ReplyView::Choices(seq![])) == Seq::<Seq<char>>::empty(),
        report_of(ReplyView::Silent) == Seq::<Seq<char>>::empty(),
{
    let one = seq![text];
    assert(one.drop_last() =~= seq![]);
    assert(choice_lines(one.drop_last()) =~= seq![]);
    assert(choice_lines(one) =~= seq![divider(), text]);
    assert(choice_lines(seq![]) =~= Seq::<Seq<char>>::empty());
}

/// The lines of the choices come in the order of the response: two for each
/// choice, the divider and then its content.
pub proof fn lemma_choice_lines(contents: Seq<Seq<char>>)
    ensures
        choice_lines(contents).len() == 2 * contents.len(),
        forall|k: int|
            0 <= k < 2 * contents.len() && k % 2 == 0 ==> #[trigger] choice_lines(contents)[k]
                == divider(),
        forall|i: int|
            0 <= i < contents.len() ==> choice_lines(contents)[2 * i + 1] == #[trigger] contents[i],
    decreases contents.len(),
{
    if contents.len() > 0 {
        let front = contents.drop_last();
        let lines = choice_lines(contents);
        let before = choice_lines(front);
        lemma_choice_lines(front);
        assert(lines == before + seq![divider(), contents.last()]);
        assert forall|k: int| 0 <= k < 2 * contents.len() && k % 2 == 0 implies #[trigger] lines[k]
            == divider() by {
            if k < before.len() {
                assert(lines[k] == before[k]);
            } else {
                assert(lines[k] == seq![divider(), contents.last()][0]);
            }
        }
        assert forall|i: int| 0 <= i < contents.len() implies lines[2 * i + 1]
            == #[trigger] contents[i] by {
            if i < contents.len() - 1 {
                assert(front[i] == contents[i]);
                assert(lines[2 * i + 1] == before[2 * i + 1]);
            } else {
                assert(lines[2 * i + 1] == seq![divider(), contents.last()][1]);
            }
        }
    }
}

} // verus!

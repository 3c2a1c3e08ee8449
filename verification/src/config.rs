//! The configuration record and its JSON form.

use vstd::prelude::*;
use crate::error::MyError;
use crate::json::{parse, parsed, print, printed, Doc, Json, Member, Pair};

verus! {

/// The stored credential and model choice.
#[derive(Debug, PartialEq, Eq)]
pub struct ApiInfo {
    /// The value of the authorization header, scheme included.
    pub api_key: String,
    /// The identifier of the model to ask.
    pub model: String,
}

/// A configuration record as a mathematical value.
pub struct Record {
    pub api_key: Seq<char>,
    pub model: Seq<char>,
}

impl View for ApiInfo {
    type V = Record;

    open spec fn view(&self) -> Record {
        Record { api_key: self.api_key@, model: self.model@ }
    }
}

impl Record {
    /// Both fields hold something: what holds of every record that the setup
    /// prompts produce.
    pub open spec fn is_complete(self) -> bool {
        self.api_key.len() > 0 && self.model.len() > 0
    }

    /// The JSON object that stores the record.
    pub open spec fn document(self) -> Doc {
        Doc::Object(
            seq![
                Pair { key: "api_key"@, value: Doc::Text(self.api_key) },
                Pair { key: "model"@, value: Doc::Text(self.model) },
            ],
        )
    }

    /// The record that a JSON document stores: it must be an object with a
    /// string under `api_key` and a string under `model`.
    pub open spec fn of_document(doc: Doc) -> Option<Record> {
        match (doc.field("api_key"@), doc.field("model"@)) {
            (Some(Doc::Text(api_key)), Some(Doc::Text(model))) => Some(Record { api_key, model }),
            _ => None,
        }
    }

    /// The record that a configuration text stores, where it is JSON of the
    /// right shape.
    pub open spec fn of_text(text: Seq<char>) -> Option<Record> {
        match parsed(text) {
            Some(doc) => Record::of_document(doc),
            None => None,
        }
    }
}

impl ApiInfo {
    /// The JSON object that stores the record.
    pub fn to_document(&self) -> (result: Json)
        ensures
            result@ == self@.document(),
    {
        let mut members: Vec<Member> = Vec::new();
        members.push(Member { key: String::from_str("api_key"), value: Json::Text(self.api_key.clone()) });
        members.push(Member { key: String::from_str("model"), value: Json::Text(self.model.clone()) });
        let result = Json::Object(members);
        proof {
            assert(members@[0].value@ == Doc::Text(self.api_key@));
            assert(members@[1].value@ == Doc::Text(self.model@));
            assert(result@->Object_0 =~= self@.document()->Object_0);
        }
        result
    }

    /// Reads the record out of a JSON document.
    pub fn from_document(doc: &Json) -> (result: Result<ApiInfo, MyError>)
        ensures
            match result {
                Ok(info) => Record::of_document(doc@) == Some(info@),
                Err(e) => Record::of_document(doc@).is_none() && e is ConfigMalformed,
            },
    {
        let api_key = match doc.get("api_key") {
            Some(value) => match value.as_text() {
                Some(s) => String::from_str(s),
                None => { return Err(MyError::ConfigMalformed); },
            },
            None => { return Err(MyError::ConfigMalformed); },
        };
        let model = match doc.get("model") {
            Some(value) => match value.as_text() {
                Some(s) => String::from_str(s),
                None => { return Err(MyError::ConfigMalformed); },
            },
            None => { return Err(MyError::ConfigMalformed); },
        };
        Ok(ApiInfo { api_key, model })
    }
}

/// Reads a configuration text.
///
/// A text that is not JSON gives `JsonError`; JSON that does not hold the two
/// strings gives `ConfigMalformed`.
pub fn read_json(text: &str) -> (result: Result<ApiInfo, MyError>)
    ensures
        match result {
            Ok(info) => Record::of_text(text@) == Some(info@),
            Err(MyError::JsonError(_)) => parsed(text@).is_none(),
            Err(MyError::ConfigMalformed) => parsed(text@).is_some() && Record::of_text(text@).is_none(),
            Err(_) => false,
        },
{
    match parse(text) {
        Ok(doc) => ApiInfo::from_document(&doc),
        Err(e) => Err(e),
    }
}

/// Writes a record as the configuration text: the whole content of the file.
pub fn write_json(data: &ApiInfo) -> (result: Result<String, MyError>)
    ensures
        match result {
            Ok(text) => printed(data@.document()) == Some(text@),
            Err(e) => printed(data@.document()).is_none() && e is JsonError,
        },
{
    let doc = data.to_document();
    print(&doc)
}

/// Round trip: the document that stores a record gives the same record back.
pub proof fn lemma_document_round_trip(record: Record)
    ensures
        Record::of_document(record.document()) == Some(record),
{
    reveal_strlit("api_key");
    reveal_strlit("model");
    let members = record.document()->Object_0;
    assert(members.last().key == "model"@);
    assert(members.drop_last().last().key == "api_key"@);
    assert("api_key"@.len() != "model"@.len());
    reveal_with_fuel(crate::json::last_with, 3);
}

} // verus!

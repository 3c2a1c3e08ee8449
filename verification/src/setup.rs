//! The setup prompts: what is shown, and what the answers become.

use vstd::prelude::*;
use crate::text::{same_text, texts, trim, trimmed};

verus! {

/// The authorization scheme that goes in front of the secret, then the secret
/// as it was typed, without the white space around it.
pub open spec fn credential(answer: Seq<char>) -> Seq<char> {
    "Bearer "@ + trimmed(answer)
}

/// The model behind each entry of the menu; `None` for anything but the four
/// entries. The choice is taken as it stands: `" 1"` is no entry.
pub open spec fn model_of(choice: Seq<char>) -> Option<Seq<char>> {
    if choice == "1"@ {
        Some("llama3-8b-8192"@)
    } else if choice == "2"@ {
        Some("mixtral-8x7b-32768"@)
    } else if choice == "3"@ {
        Some("llama3-70b-8192"@)
    } else if choice == "4"@ {
        Some("gemma-7b-it"@)
    } else {
        None
    }
}

/// The lines of the greeting that opens the setup.
pub open spec fn greeting() -> Seq<Seq<char>> {
    seq!["Initializing setup"@]
}

/// The lines of the model menu.
pub open spec fn menu() -> Seq<Seq<char>> {
    seq![
        "-------------------------------------------------"@,
        "  1 : LLaMA3 8b"@,
        "  2 : Mixtral 8x7b"@,
        "  3 : LLAMA3 70B"@,
        "  4 : Gemma 7b"@,
    ]
}

/// The complaint about an answer that is no entry, then the menu again.
pub open spec fn menu_again() -> Seq<Seq<char>> {
    seq!["Enter an option between 1-4"@] + menu()
}

/// The credential that the answer to the key prompt becomes.
pub fn api_key_from(answer: &str) -> (result: String)
    ensures
        result@ == credential(answer@),
{
    let secret = trim(answer);
    String::from_str("Bearer ").concat(secret.as_str())
}

/// The model that a menu choice stands for, the choice taken as it stands.
pub fn pick_model(choice: &str) -> (result: Option<String>)
    ensures
        result.is_some() == model_of(choice@).is_some(),
        result.is_some() ==> result.unwrap()@ == model_of(choice@).unwrap(),
{
    if same_text(choice, "1") {
        Some(String::from_str("llama3-8b-8192"))
    } else if same_text(choice, "2") {
        Some(String::from_str("mixtral-8x7b-32768"))
    } else if same_text(choice, "3") {
        Some(String::from_str("llama3-70b-8192"))
    } else if same_text(choice, "4") {
        Some(String::from_str("gemma-7b-it"))
    } else {
        None
    }
}

/// The model that the answer to the model prompt selects, or `None` where
/// the prompt has to be repeated.
pub fn model_from(answer: &str) -> (result: Option<String>)
    ensures
        result.is_some() == model_of(trimmed(answer@)).is_some(),
        result.is_some() ==> result.unwrap()@ == model_of(trimmed(answer@)).unwrap(),
{
    let choice = trim(answer);
    pick_model(choice.as_str())
}

/// The greeting, as lines to print.
pub fn greeting_lines() -> (result: Vec<String>)
    ensures
        texts(result@) == greeting(),
{
    let mut lines: Vec<String> = Vec::new();
    lines.push(String::from_str("Initializing setup"));
    assert(texts(lines@) =~= greeting());
    lines
}

/// The prompt for the key.
pub fn key_prompt() -> (result: String)
    ensures
        result@ == "Enter your Api Key: "@,
{
    String::from_str("Enter your Api Key: ")
}

/// The model menu, as lines to print; after a wrong answer, with the
/// complaint in front.
pub fn menu_lines(again: bool) -> (result: Vec<String>)
    ensures
        texts(result@) == if again { menu_again() } else { menu() },
{
    let mut lines: Vec<String> = Vec::new();
    if again {
        lines.push(String::from_str("Enter an option between 1-4"));
    }
    lines.push(String::from_str("-------------------------------------------------"));
    lines.push(String::from_str("  1 : LLaMA3 8b"));
    lines.push(String::from_str("  2 : Mixtral 8x7b"));
    lines.push(String::from_str("  3 : LLAMA3 70B"));
    lines.push(String::from_str("  4 : Gemma 7b"));
    assert(texts(lines@) =~= if again { menu_again() } else { menu() });
    lines
}

/// The prompt for the model.
pub fn model_prompt() -> (result: String)
    ensures
        result@ == "  Select your model: "@,
{
    String::from_str("  Select your model: ")
}

/// The prompt terminates on the four entries and on nothing else, and each
/// entry has its own fixed model.
pub proof fn lemma_model_choices(choice: Seq<char>)
    ensures
        model_of(choice).is_some() <==> (choice == "1"@ || choice == "2"@ || choice == "3"@ || choice == "4"@),
        model_of("1"@) == Some("llama3-8b-8192"@),
        model_of("2"@) == Some("mixtral-8x7b-32768"@),
        model_of("3"@) == Some("llama3-70b-8192"@),
        model_of("4"@) == Some("gemma-7b-it"@),
        model_of("0"@).is_none(),
        model_of("5"@).is_none(),
        model_of("-1"@).is_none(),
        model_of("abc"@).is_none(),
        model_of(""@).is_none(),
{
    reveal_strlit("1");
    reveal_strlit("2");
    reveal_strlit("3");
    reveal_strlit("4");
    reveal_strlit("0");
    reveal_strlit("5");
    reveal_strlit("-1");
    reveal_strlit("abc");
    reveal_strlit("");
    assert(""@.len() == 0 && "1"@.len() == 1 && "2"@.len() == 1 && "3"@.len() == 1 && "4"@.len() == 1);
    assert("1"@[0] != "2"@[0] && "1"@[0] != "3"@[0] && "1"@[0] != "4"@[0]);
    assert("2"@[0] != "3"@[0] && "2"@[0] != "4"@[0] && "3"@[0] != "4"@[0]);
    assert("0"@[0] != "1"@[0] && "0"@[0] != "2"@[0] && "0"@[0] != "3"@[0] && "0"@[0] != "4"@[0]);
    assert("5"@[0] != "1"@[0] && "5"@[0] != "2"@[0] && "5"@[0] != "3"@[0] && "5"@[0] != "4"@[0]);
}

/// Every credential that the key prompt produces is non-empty, and so is
/// every model of the menu.
pub proof fn lemma_answers_are_complete(answer: Seq<char>, choice: Seq<char>)
    ensures
        credential(answer).len() > 0,
        model_of(choice).is_some() ==> model_of(choice).unwrap().len() > 0,
{
    reveal_strlit("Bearer ");
    reveal_strlit("llama3-8b-8192");
    reveal_strlit("mixtral-8x7b-32768");
    reveal_strlit("llama3-70b-8192");
    reveal_strlit("gemma-7b-it");
}

} // verus!

//! The command line: what the arguments ask for, and the usage text.

use vstd::prelude::*;
use crate::text::{same_text, texts};

verus! {

/// What an invocation asks for.
#[derive(Debug, PartialEq, Eq)]
pub enum Command {
    /// No argument: load or set up the configuration, then ask one query.
    Run,
    /// `-s` or `--setup`: run the setup and store its result.
    Setup,
    /// `-h` or `--help`: show the usage text.
    Help,
    /// Any other single argument: name it, then show the usage text.
    Unknown(String),
    /// Any other number of arguments: show the usage text.
    Usage,
}

/// A command as a mathematical value.
pub enum CommandView {
    Run,
    Setup,
    Help,
    Unknown(Seq<char>),
    Usage,
}

impl View for Command {
    type V = CommandView;

    open spec fn view(&self) -> CommandView {
        match self {
            Command::Run => CommandView::Run,
            Command::Setup => CommandView::Setup,
            Command::Help => CommandView::Help,
            Command::Unknown(argument) => CommandView::Unknown(argument@),
            Command::Usage => CommandView::Usage,
        }
    }
}

impl CommandView {
    /// Whether carrying the command out touches the configuration file or the
    /// network. The others only print.
    pub open spec fn works(self) -> bool {
        self is Run || self is Setup
    }
}

/// What the words of an invocation ask for. The first word is the program's
/// own name.
pub open spec fn command_of(words: Seq<Seq<char>>) -> CommandView {
    if words.len() == 1 {
        CommandView::Run
    } else if words.len() == 2 {
        let argument = words[1];
        if argument == "-s"@ || argument == "--setup"@ {
            CommandView::Setup
        } else if argument == "-h"@ || argument == "--help"@ {
            CommandView::Help
        } else {
            CommandView::Unknown(argument)
        }
    } else {
        CommandView::Usage
    }
}

/// The usage text.
pub open spec fn usage() -> Seq<Seq<char>> {
    seq![
        "mycli : Asks the user for query"@,
        "mycli [--s | --setup] : Initialize the setup"@,
        "mycli [--h | --help] : Shows avaiable cmds"@,
    ]
}

/// The notice about an argument that is no flag.
pub open spec fn unknown_notice(argument: Seq<char>) -> Seq<char> {
    "Unknown argument: \""@ + argument + "\""@
}

/// What the words of an invocation ask for.
pub fn route(args: &Vec<String>) -> (result: Command)
    ensures
        result@ == command_of(texts(args@)),
{
    if args.len() == 1 {
        Command::Run
    } else if args.len() == 2 {
        let argument = args[1].as_str();
        if same_text(argument, "-s") || same_text(argument, "--setup") {
            Command::Setup
        } else if same_text(argument, "-h") || same_text(argument, "--help") {
            Command::Help
        } else {
            Command::Unknown(String::from_str(argument))
        }
    } else {
        Command::Usage
    }
}

/// The usage text, as lines to print.
pub fn help() -> (result: Vec<String>)
    ensures
        texts(result@) == usage(),
{
    let mut lines: Vec<String> = Vec::new();
    lines.push(String::from_str("mycli : Asks the user for query"));
    lines.push(String::from_str("mycli [--s | --setup] : Initialize the setup"));
    lines.push(String::from_str("mycli [--h | --help] : Shows avaiable cmds"));
    assert(texts(lines@) =~= usage());
    lines
}

/// The notice about an argument that is no flag, as a line to print.
pub fn unknown_argument(argument: &str) -> (result: String)
    ensures
        result@ == unknown_notice(argument@),
{
    String::from_str("Unknown argument: \"").concat(argument).concat("\"")
}

/// Two or more arguments, or a single argument that is none of the four
/// flags, ask for nothing that touches the file or the network.
pub proof fn lemma_stray_arguments_do_no_work(words: Seq<Seq<char>>)
    requires
        words.len() >= 3 || (words.len() == 2 && words[1] != "-s"@ && words[1] != "--setup"@
            && words[1] != "-h"@ && words[1] != "--help"@),
    ensures
        !command_of(words).works(),
        words.len() >= 3 ==> command_of(words) == CommandView::Usage,
        words.len() == 2 ==> command_of(words) == CommandView::Unknown(words[1]),
{
}

} // verus!

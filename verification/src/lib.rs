//! The verified core of a command-line chat client: argument routing, the
//! configuration record and its JSON form, the setup prompts, the request and
//! response handling of the chat endpoint, and the flow that ties them
//! together. Nothing here reads a file, a terminal or a socket: the program
//! around the library performs each action and hands back what happened.

pub mod chat;
pub mod cli;
pub mod config;
pub mod error;
pub mod flow;
pub mod json;
pub mod setup;
pub mod text;

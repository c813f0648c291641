use vstd::prelude::*;

verus! {

/// Commands run in a window once it exists: a single command or a list of them.
#[derive(Debug, PartialEq)]
pub enum BeforeCommand {
    One(String),
    Many(Vec<String>),
}

/// A window entry of the configuration document.
#[derive(Debug, PartialEq)]
pub struct Window {
    pub name: String,
    pub start_directory: Option<String>,
    pub before_command: Option<BeforeCommand>,
}

/// A parsed configuration document.
#[derive(Debug, PartialEq)]
pub struct Config {
    pub start_directory: Option<String>,
    pub session_name: Option<String>,
    pub windows: Vec<Window>,
}

/// The view of an optional string.
pub open spec fn opt_str(o: Option<String>) -> Option<Seq<char>> {
    match o {
        Some(s) => Some(s@),
        None => None,
    }
}

/// The views of a list of strings.
pub open spec fn strs(v: Seq<String>) -> Seq<Seq<char>> {
    v.map_values(|s: String| s@)
}

/// The command list that a `BeforeCommand` stands for: a single command is a
/// list of one.
pub open spec fn normalized(b: BeforeCommand) -> Seq<Seq<char>> {
    match b {
        BeforeCommand::One(s) => seq![s@],
        BeforeCommand::Many(v) => strs(v@),
    }
}

} // verus!

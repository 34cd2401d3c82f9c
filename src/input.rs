//! The subcommand named by a command line.
use vstd::prelude::*;
use crate::text::same_text;

verus! {

#[derive(Clone, Copy, Debug, PartialEq, Eq, Structural)]
pub enum Subcommand {
    Config,
    Health,
    List,
    Logs,
    Pull,
    Register,
    Restart,
    Start,
    Stop,
}

/// The subcommand that a word names, with its short forms.
pub open spec fn subcommand_of(w: Seq<char>) -> Option<Subcommand> {
    if w == "config"@ {
        Some(Subcommand::Config)
    } else if w == "health"@ || w == "h"@ {
        Some(Subcommand::Health)
    } else if w == "list"@ || w == "ls"@ {
        Some(Subcommand::List)
    } else if w == "logs"@ {
        Some(Subcommand::Logs)
    } else if w == "pull"@ {
        Some(Subcommand::Pull)
    } else if w == "register"@ || w == "r"@ {
        Some(Subcommand::Register)
    } else if w == "restart"@ {
        Some(Subcommand::Restart)
    } else if w == "start"@ {
        Some(Subcommand::Start)
    } else if w == "stop"@ {
        Some(Subcommand::Stop)
    } else {
        None
    }
}

fn subcommand_named(w: &str) -> (r: Option<Subcommand>)
    ensures
        r == subcommand_of(w@),
{
    if same_text(w, "config") {
        Some(Subcommand::Config)
    } else if same_text(w, "health") || same_text(w, "h") {
        Some(Subcommand::Health)
    } else if same_text(w, "list") || same_text(w, "ls") {
        Some(Subcommand::List)
    } else if same_text(w, "logs") {
        Some(Subcommand::Logs)
    } else if same_text(w, "pull") {
        Some(Subcommand::Pull)
    } else if same_text(w, "register") || same_text(w, "r") {
        Some(Subcommand::Register)
    } else if same_text(w, "restart") {
        Some(Subcommand::Restart)
    } else if same_text(w, "start") {
        Some(Subcommand::Start)
    } else if same_text(w, "stop") {
        Some(Subcommand::Stop)
    } else {
        None
    }
}

/// The subcommand named by the word after the program name.
pub fn parse_args(s: Vec<String>) -> (r: Result<Subcommand, String>)
    ensures
        s@.len() < 2 ==> (r matches Err(m) && m@ == "no subcommand given"@),
        s@.len() >= 2 ==> match subcommand_of(s@[1]@) {
            Some(c) => r == Ok::<Subcommand, String>(c),
            None => (r matches Err(m) && m@ == "not a valid subcommand: "@ + s@[1]@),
        },
{
    if s.len() < 2 {
        return Err(String::from_str("no subcommand given"));
    }
    match subcommand_named(s[1].as_str()) {
        Some(c) => Ok(c),
        None => {
            let mut m = String::from_str("not a valid subcommand: ");
            m.append(s[1].as_str());
            Err(m)
        },
    }
}

} // verus!

//! Command layer core: tagged dispatch over the closed set of commands.
//!
//! The application shell reads the raw arguments; this module decides
//! which operation a word names. An unrecognized or missing word becomes
//! a distinct usage error, not a generic failure.

use vstd::prelude::*;
use vstd::string::*;

use crate::errors::CliError;
use crate::text::str_eq;

verus! {

/// The closed set of commands the tool accepts.
#[derive(Clone, Copy, Debug, PartialEq, Eq, Structural)]
pub enum Command {
    Status,
    Login,
    Logout,
    List,
    Watch,
    Tracks,
    Track,
    Untrack,
}

/// Result of reading the command word.
pub enum ParsedCommand {
    /// A recognized command.
    Known(Command),
    /// An unrecognized word, kept for the error message.
    Unknown(String),
    /// No command word was given.
    Missing,
}

/// The command a given word names, if any.
pub open spec fn command_of(s: Seq<char>) -> Option<Command> {
    if s == "status"@ {
        Some(Command::Status)
    } else if s == "login"@ {
        Some(Command::Login)
    } else if s == "logout"@ {
        Some(Command::Logout)
    } else if s == "list"@ {
        Some(Command::List)
    } else if s == "watch"@ {
        Some(Command::Watch)
    } else if s == "tracks"@ {
        Some(Command::Tracks)
    } else if s == "track"@ {
        Some(Command::Track)
    } else if s == "untrack"@ {
        Some(Command::Untrack)
    } else {
        None
    }
}

/// Reads the command word: each known word maps to its command, an
/// unknown word is kept for the usage message, a missing word is
/// reported as such.
pub fn parse_command(arg: Option<String>) -> (r: ParsedCommand)
    ensures
        (match r {
            ParsedCommand::Known(c) => arg matches Some(s) && command_of(s@) == Some(c),
            ParsedCommand::Unknown(w) => arg matches Some(s) && s@ == w@ && command_of(s@) is None,
            ParsedCommand::Missing => arg is None,
        }),
{
    match arg {
        None => ParsedCommand::Missing,
        Some(s) => {
            if str_eq(s.as_str(), "status") {
                ParsedCommand::Known(Command::Status)
            } else if str_eq(s.as_str(), "login") {
                ParsedCommand::Known(Command::Login)
            } else if str_eq(s.as_str(), "logout") {
                ParsedCommand::Known(Command::Logout)
            } else if str_eq(s.as_str(), "list") {
                ParsedCommand::Known(Command::List)
            } else if str_eq(s.as_str(), "watch") {
                ParsedCommand::Known(Command::Watch)
            } else if str_eq(s.as_str(), "tracks") {
                ParsedCommand::Known(Command::Tracks)
            } else if str_eq(s.as_str(), "track") {
                ParsedCommand::Known(Command::Track)
            } else if str_eq(s.as_str(), "untrack") {
                ParsedCommand::Known(Command::Untrack)
            } else {
                ParsedCommand::Unknown(s)
            }
        },
    }
}

/// The usage-error message for an unknown command word.
pub open spec fn unknown_command_text(w: Seq<char>) -> Seq<char> {
    "Unknown command "@ + w
}

/// The error dispatch reports, if any: an unknown word and a missing
/// word are both usage errors with their exact message.
pub fn dispatch_error(p: &ParsedCommand) -> (r: Option<CliError>)
    ensures
        (match p {
            ParsedCommand::Known(_) => r is None,
            ParsedCommand::Unknown(w) => r matches Some(e) && e.message@ == unknown_command_text(w@)
                && e.is_usage_error,
            ParsedCommand::Missing => r matches Some(e) && e.message@ == "Missing argument"@
                && e.is_usage_error,
        }),
{
    match p {
        ParsedCommand::Known(_) => None,
        ParsedCommand::Unknown(w) => Some(
            CliError {
                message: String::from_str("Unknown command ").concat(w.as_str()),
                is_usage_error: true,
            },
        ),
        ParsedCommand::Missing => Some(
            CliError { message: String::from_str("Missing argument"), is_usage_error: true },
        ),
    }
}

/// The hashtag argument the track and untrack commands need: hands it
/// through when present, and otherwise reports the exact error of the
/// respective command.
pub fn require_hashtag(arg: Option<String>, removing: bool) -> (r: Result<String, CliError>)
    ensures
        (match r {
            Ok(h) => arg matches Some(a) && a@ == h@,
            Err(e) => arg is None && !e.is_usage_error && e.message@ == (if removing {
                "Expected hashtag name to untrack"@
            } else {
                "Expected hashtag name to start tracking"@
            }),
        }),
{
    match arg {
        Some(h) => Ok(h),
        None => {
            let message = if removing {
                String::from_str("Expected hashtag name to untrack")
            } else {
                String::from_str("Expected hashtag name to start tracking")
            };
            Err(CliError { message, is_usage_error: false })
        },
    }
}

} // verus!

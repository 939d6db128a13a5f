//! The command line: a contact point, a user name and a password.

use vstd::prelude::*;
use vstd::string::*;

verus! {

/// How many words a well-formed command line has: the program's name and
/// the three arguments.
pub const COMMAND_LINE_WORDS: usize = 4;

/// The status with which the program leaves after a malformed command line.
pub const USAGE_STATUS: i32 = 1;

/// The message that answers a malformed command line.
pub open spec fn usage_text() -> Seq<char> {
    "Usage: cargo run -- <contact_point> <username> <password>"@
}

/// What the command line asks for. The values are taken as they come: an
/// address or a credential that is no good shows when the connection is
/// made.
#[derive(Clone, Debug, PartialEq, Eq)]
pub struct Config {
    /// The address of one node of the database cluster.
    pub contact_point: String,
    /// The name to authenticate with.
    pub username: String,
    /// The password to authenticate with.
    pub password: String,
}

/// The command line as mathematical text, word by word.
pub open spec fn words(args: Seq<String>) -> Seq<Seq<char>> {
    args.map_values(|word: String| word@)
}

/// The message that answers a malformed command line.
pub fn usage() -> (message: String)
    ensures
        message@ == usage_text(),
{
    String::from_str("Usage: cargo run -- <contact_point> <username> <password>")
}

/// Reads the command line, the program's name first. It is accepted when
/// exactly three arguments follow the name, whatever they hold.
pub fn parse_args(args: &Vec<String>) -> (parsed: Option<Config>)
    ensures
        parsed is Some <==> args@.len() == COMMAND_LINE_WORDS,
        parsed matches Some(config) ==> {
            &&& config.contact_point@ == words(args@)[1]
            &&& config.username@ == words(args@)[2]
            &&& config.password@ == words(args@)[3]
        },
{
    if args.len() != COMMAND_LINE_WORDS {
        return None;
    }
    Some(
        Config {
            contact_point: args[1].clone(),
            username: args[2].clone(),
            password: args[3].clone(),
        },
    )
}

} // verus!

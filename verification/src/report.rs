//! The messages that the monitor logs and the diagnostics it ends with.

use vstd::prelude::*;
use vstd::string::*;
use crate::decimal::{decimal, decimal_string};
use crate::query::{table_name, table_text};

verus! {

/// The first message of a run.
pub open spec fn starting_text() -> Seq<char> {
    "Starting SELECT monitor script"@
}

/// The second message of a run, which names the log file.
pub open spec fn log_file_notice_text(name: Seq<char>) -> Seq<char> {
    "Log file: "@ + name
}

/// The message for an answered query.
pub open spec fn success_text(count: int) -> Seq<char> {
    "SUCCESS: Row count in "@ + table_text() + ": "@ + decimal(count)
}

/// The message for a failed query, with the error's description.
pub open spec fn failure_text(description: Seq<char>) -> Seq<char> {
    "ERROR: "@ + description
}

/// What is said when the log file cannot be opened.
pub open spec fn log_refused_text() -> Seq<char> {
    "Cannot open log file"@
}

/// What is said when no session can be made.
pub open spec fn connection_refused_text() -> Seq<char> {
    "Failed to connect to ScyllaDB"@
}

/// What is said when the keyspace cannot be selected.
pub open spec fn keyspace_refused_text() -> Seq<char> {
    "Failed to set keyspace"@
}

/// The diagnostic of a fatal failure: what failed, a colon, and why.
pub open spec fn fatal_text(what: Seq<char>, reason: Seq<char>) -> Seq<char> {
    what + ": "@ + reason
}

/// The first message of a run.
pub fn starting_message() -> (message: String)
    ensures
        message@ == starting_text(),
{
    String::from_str("Starting SELECT monitor script")
}

/// The second message of a run, which names the log file.
pub fn log_file_notice(name: &str) -> (message: String)
    ensures
        message@ == log_file_notice_text(name@),
{
    let mut message = String::from_str("Log file: ");
    message.append(name);
    message
}

/// The message for an answered query.
pub fn success_message(count: i64) -> (message: String)
    ensures
        message@ == success_text(count as int),
{
    let mut message = String::from_str("SUCCESS: Row count in ");
    message.append(table_name());
    message.append(": ");
    message.append(decimal_string(count).as_str());
    message
}

/// The message for a failed query, with the error's description.
pub fn failure_message(description: &str) -> (message: String)
    ensures
        message@ == failure_text(description@),
{
    let mut message = String::from_str("ERROR: ");
    message.append(description);
    message
}

/// The diagnostic of a fatal failure: what failed, a colon, and why.
pub fn fatal_message(what: &str, reason: &str) -> (message: String)
    ensures
        message@ == fatal_text(what@, reason@),
{
    let mut message = String::from_str(what);
    message.append(": ");
    message.append(reason);
    message
}

/// The message for an answered query reads
/// `SUCCESS: Row count in comments: ` and then the count in decimal.
pub proof fn law_success_line(count: int)
    ensures
        success_text(count) == "SUCCESS: Row count in comments: "@ + decimal(count),
{
    reveal_strlit("SUCCESS: Row count in ");
    reveal_strlit("comments");
    reveal_strlit(": ");
    reveal_strlit("SUCCESS: Row count in comments: ");
    assert(success_text(count) =~= "SUCCESS: Row count in comments: "@ + decimal(count));
}

/// A failure's message begins with `ERROR: `, whatever the error says, and
/// so is never taken for a success's message, which begins with `S`.
pub proof fn law_failure_line(description: Seq<char>, count: int)
    ensures
        failure_text(description).subrange(0, 7) == "ERROR: "@,
        failure_text(description).subrange(7, failure_text(description).len() as int)
            == description,
        failure_text(description) != success_text(count),
{
    reveal_strlit("ERROR: ");
    reveal_strlit("SUCCESS: Row count in ");
    assert(failure_text(description).subrange(0, 7) =~= "ERROR: "@);
    assert(failure_text(description).subrange(7, failure_text(description).len() as int)
        =~= description);
    assert(failure_text(description)[0] == 'E');
    assert(success_text(count)[0] == 'S');
}

} // verus!

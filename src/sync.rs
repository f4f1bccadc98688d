//! Applying generated statements to the target: the decisions of the
//! fail-fast execution loop. The caller runs each statement and reports back.

use crate::models::connection::Connection;
use vstd::prelude::*;

verus! {

/// What the execution loop does next.
#[derive(Debug, Clone)]
pub enum SyncAction {
    /// Run the statement at this position.
    Execute(usize),
    /// Every statement ran.
    Finished,
    /// A statement failed; nothing after it runs.
    Abort { index: usize, message: String },
}

/// The report for the statement `sql` failing with `error`.
pub open spec fn failure_text(sql: Seq<char>, error: Seq<char>) -> Seq<char> {
    "Failed to execute: "@ + sql + "\nError: "@ + error
}

/// The action that starts a run over `statements`.
pub fn first_action(statements: &Vec<String>) -> (r: SyncAction)
    ensures
        statements@.len() == 0 ==> r is Finished,
        statements@.len() > 0 ==> r == SyncAction::Execute(0),
{
    if statements.len() == 0 {
        SyncAction::Finished
    } else {
        SyncAction::Execute(0)
    }
}

/// The action after the statement at `index` ran with `outcome`: the next
/// statement, the end of the run, or, on the first failure, an abort that
/// names the failed statement by position and text.
pub fn after_statement(statements: &Vec<String>, index: usize, outcome: Result<(), String>) -> (r:
    SyncAction)
    requires
        index < statements@.len(),
    ensures
        match outcome {
            Ok(()) => if index + 1 < statements@.len() {
                r == SyncAction::Execute((index + 1) as usize)
            } else {
                r is Finished
            },
            Err(e) => r matches SyncAction::Abort { index: i, message } && i == index && message@
                == failure_text(statements@[index as int]@, e@),
        },
{
    match outcome {
        Ok(()) => {
            if index < statements.len() - 1 {
                SyncAction::Execute(index + 1)
            } else {
                SyncAction::Finished
            }
        },
        Err(e) => {
            let mut message = String::from_str("Failed to execute: ");
            message.append(statements[index].as_str());
            message.append("\nError: ");
            message.append(e.as_str());
            SyncAction::Abort { index, message }
        },
    }
}

/// The host and port to reach `conn` at. SSH tunnelling is not applied yet:
/// the connection's own endpoint is used either way.
pub fn resolve_connection_endpoint(conn: &Connection) -> (r: (String, u16))
    ensures
        r.0@ == conn.host@,
        r.1 == conn.port,
{
    (conn.host.clone(), conn.port)
}

} // verus!

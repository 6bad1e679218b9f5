use vstd::prelude::*;

use rusqlite::Connection;

use crate::command::{ActionRequest, ActionSubcommand, Command, GoalRequest, GoalSubcommand, Request};
use crate::outcome::{
    interpret, outcome_text, reported_for_some_outcome, str_text, write_listing,
    written_for_some_rows, ReadError, StoreError,
};
use crate::statement::statement;

verus! {

#[verifier::external_type_specification]
#[verifier::external_body]
pub struct ExConnection(Connection);

/// Tables of actions and goals. A goal may name the action that achieves it;
/// the name follows the action when it is renamed and is cleared when the
/// action is removed.
pub const SCHEMA: &'static str = "CREATE TABLE IF NOT EXISTS actions (\
    description TEXT PRIMARY KEY\
); \
CREATE TABLE IF NOT EXISTS goals (\
    description TEXT PRIMARY KEY, \
    action TEXT REFERENCES actions(description) ON UPDATE CASCADE ON DELETE SET NULL\
);";

/// Relies on rusqlite's Connection::set_db_config, here to switch on the
/// enforcement of foreign keys for this connection; a failure is its message.
#[verifier::external_body]
fn enable_foreign_keys(connection: &Connection) -> (r: Result<bool, String>) {
    connection
        .set_db_config(rusqlite::config::DbConfig::SQLITE_DBCONFIG_ENABLE_FKEY, true)
        .map_err(|e| e.to_string())
}

/// Relies on rusqlite's Connection::execute_batch: runs each statement of `sql`
/// in turn; a failure is its message.
#[verifier::external_body]
fn run_batch(connection: &Connection, sql: &str) -> (r: Result<(), String>) {
    connection.execute_batch(sql).map_err(|e| e.to_string())
}

/// Relies on rusqlite's Connection::execute: runs `sql` with `params` bound to
/// `?1`, `?2`, ... and returns how many rows it changed. A failure whose SQLite
/// code is a constraint violation is told apart from the others; each keeps
/// its message.
#[verifier::external_body]
fn run_statement(connection: &Connection, sql: &str, params: &Vec<String>) -> (r: Result<
    usize,
    StoreError,
>) {
    connection.execute(sql, rusqlite::params_from_iter(params.iter())).map_err(
        |e| match e.sqlite_error_code() {
            Some(libsqlite3_sys::ErrorCode::ConstraintViolation) => StoreError::Constraint(
                e.to_string(),
            ),
            _ => StoreError::Other(e.to_string()),
        },
    )
}

/// Relies on rusqlite's Connection::prepare and Statement::query_map: runs the
/// query `sql` and returns the text in the first column of each row, in the
/// order in which the rows come.
#[verifier::external_body]
fn read_first_column(connection: &Connection, sql: &str) -> (r: Result<Vec<String>, ReadError>) {
    let mut statement = connection.prepare(sql).map_err(|e| ReadError::Prepare(e.to_string()))?;
    let rows = statement.query_map([], |row| row.get::<usize, String>(0)).map_err(
        |e| ReadError::Query(e.to_string()),
    )?;
    rows.collect::<Result<Vec<String>, _>>().map_err(|e| ReadError::Row(e.to_string()))
}

/// Prepares a store for use: switches on foreign keys, which this connection
/// must enforce, and creates the tables of actions and goals where missing.
pub fn initialize(connection: &Connection) -> (r: Result<(), String>) {
    match enable_foreign_keys(connection) {
        Ok(_) => run_batch(connection, SCHEMA),
        Err(e) => Err(e),
    }
}

/// Runs the statement of a command that changes the store, and reports its
/// outcome.
fn change(connection: &Connection, command: &Command) -> (r: Result<(), String>)
    requires
        !command@.is_listing(),
    ensures
        reported_for_some_outcome(command@, outcome_text(r)),
{
    let (sql, params) = statement(command);
    let outcome = run_statement(connection, sql, &params);
    interpret(command, outcome)
}

/// Runs the query of a listing and writes the rows it reads.
fn listing(connection: &Connection, command: &Command, writer: &mut Vec<u8>) -> (r: Result<
    (),
    String,
>)
    requires
        command@.is_listing(),
    ensures
        written_for_some_rows(old(writer)@, final(writer)@, outcome_text(r)),
{
    let (sql, _params) = statement(command);
    let rows = read_first_column(connection, sql);
    write_listing(rows, writer)
}

/// Performs one parsed command: hands its statement, as `statement` builds
/// it, to the store and reports the outcome. Listings are written to
/// `writer`; other commands write nothing.
pub fn perform(connection: &Connection, command: Command, writer: &mut Vec<u8>) -> (r: Result<
    (),
    String,
>)
    ensures
        command@.is_listing() ==> written_for_some_rows(
            old(writer)@,
            final(writer)@,
            outcome_text(r),
        ),
        !command@.is_listing() ==> final(writer)@ == old(writer)@ && reported_for_some_outcome(
            command@,
            outcome_text(r),
        ),
{
    if command.is_listing() {
        listing(connection, &command, writer)
    } else {
        change(connection, &command)
    }
}

/// Adds an action with the given description.
pub fn add_action(connection: &Connection, description: &str) -> (r: Result<(), String>)
    ensures
        reported_for_some_outcome(Request::Action(ActionRequest::Add(description@)), outcome_text(r)),
{
    change(connection, &Command::Action(ActionSubcommand::Add { description: String::from_str(description) }))
}

/// Writes the description of each action, one per line, in the order in which
/// the store holds them.
pub fn list_actions(connection: &Connection, writer: &mut Vec<u8>) -> (r: Result<(), String>)
    ensures
        written_for_some_rows(old(writer)@, final(writer)@, outcome_text(r)),
{
    listing(connection, &Command::Action(ActionSubcommand::List), writer)
}

/// Removes an action; goals that named it keep no action.
pub fn remove_action(connection: &Connection, description: &str) -> (r: Result<(), String>)
    ensures
        reported_for_some_outcome(Request::Action(ActionRequest::Remove(description@)), outcome_text(r)),
{
    change(connection, &Command::Action(ActionSubcommand::Remove { description: String::from_str(description) }))
}

/// Renames an action; goals that named it name it by its new description.
pub fn set_action_description(
    connection: &Connection,
    old_description: &str,
    new_description: &str,
) -> (r: Result<(), String>)
    ensures
        reported_for_some_outcome(
            Request::Action(ActionRequest::SetDescription(old_description@, new_description@)),
            outcome_text(r),
        ),
{
    change(
        connection,
        &Command::Action(
            ActionSubcommand::SetDescription {
                old_description: String::from_str(old_description),
                new_description: String::from_str(new_description),
            },
        ),
    )
}

/// Adds a goal, achieved by the named action if one is given.
pub fn add_goal(connection: &Connection, description: &str, action: Option<&str>) -> (r: Result<
    (),
    String,
>)
    ensures
        reported_for_some_outcome(
            Request::Goal(GoalRequest::Add(description@, str_text(action))),
            outcome_text(r),
        ),
{
    let action = match action {
        Some(a) => Some(String::from_str(a)),
        None => None,
    };
    change(connection, &Command::Goal(GoalSubcommand::Add { description: String::from_str(description), action }))
}

/// Writes the description of each goal, one per line, in the order in which
/// the store holds them: all of them, or only those with no action.
pub fn list_goals(connection: &Connection, all: bool, writer: &mut Vec<u8>) -> (r: Result<
    (),
    String,
>)
    ensures
        written_for_some_rows(old(writer)@, final(writer)@, outcome_text(r)),
{
    listing(connection, &Command::Goal(GoalSubcommand::List { all }), writer)
}

/// Removes a goal.
pub fn remove_goal(connection: &Connection, description: &str) -> (r: Result<(), String>)
    ensures
        reported_for_some_outcome(Request::Goal(GoalRequest::Remove(description@)), outcome_text(r)),
{
    change(connection, &Command::Goal(GoalSubcommand::Remove { description: String::from_str(description) }))
}

/// Links a goal to the action that achieves it.
pub fn set_goal_action(connection: &Connection, description: &str, action: &str) -> (r: Result<
    (),
    String,
>)
    ensures
        reported_for_some_outcome(
            Request::Goal(GoalRequest::SetAction(description@, action@)),
            outcome_text(r),
        ),
{
    change(
        connection,
        &Command::Goal(
            GoalSubcommand::SetAction {
                description: String::from_str(description),
                action: String::from_str(action),
            },
        ),
    )
}

/// Renames a goal.
pub fn set_goal_description(
    connection: &Connection,
    old_description: &str,
    new_description: &str,
) -> (r: Result<(), String>)
    ensures
        reported_for_some_outcome(
            Request::Goal(GoalRequest::SetDescription(old_description@, new_description@)),
            outcome_text(r),
        ),
{
    change(
        connection,
        &Command::Goal(
            GoalSubcommand::SetDescription {
                old_description: String::from_str(old_description),
                new_description: String::from_str(new_description),
            },
        ),
    )
}

/// Unlinks a goal from its action.
pub fn unset_goal_action(connection: &Connection, description: &str) -> (r: Result<(), String>)
    ensures
        reported_for_some_outcome(Request::Goal(GoalRequest::UnsetAction(description@)), outcome_text(r)),
{
    change(connection, &Command::Goal(GoalSubcommand::UnsetAction { description: String::from_str(description) }))
}

} // verus!

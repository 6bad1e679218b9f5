use vstd::prelude::*;
use vstd::utf8::encode_utf8;

use crate::command::{ActionRequest, ActionSubcommand, Command, GoalRequest, GoalSubcommand, Request};
use crate::text::{starts_with, texts};

verus! {

/// Why a statement failed, as SQLite reported it.
#[derive(Debug, PartialEq)]
pub enum StoreError {
    /// A uniqueness or foreign-key constraint refused the change.
    Constraint(String),
    /// Any other failure: I/O, a lock, a malformed database.
    Other(String),
}

/// Why reading a listing failed, and at which step.
#[derive(Debug, PartialEq)]
pub enum ReadError {
    Prepare(String),
    Query(String),
    Row(String),
}

/// The text of an operation's result.
pub open spec fn outcome_text(r: Result<(), String>) -> Result<(), Seq<char>> {
    match r {
        Ok(()) => Ok(()),
        Err(e) => Err(e@),
    }
}

/// The text of an optional string.
pub open spec fn str_text(s: Option<&str>) -> Option<Seq<char>> {
    match s {
        Some(t) => Some(t@),
        None => None,
    }
}

/// What the outcome of an insertion means. A refused constraint is a
/// duplicate, unless the row names another one (`dangling` is then the message
/// for a missing referent) and SQLite did not blame uniqueness. Any other
/// failure is reported after `context`.
pub open spec fn insertion_spec(
    outcome: Result<usize, StoreError>,
    duplicate: Seq<char>,
    dangling: Option<Seq<char>>,
    context: Seq<char>,
) -> Result<(), Seq<char>> {
    match outcome {
        Ok(_) => Ok(()),
        Err(StoreError::Constraint(m)) => match dangling {
            Some(d) => if "UNIQUE"@.is_prefix_of(m@) {
                Err(duplicate)
            } else {
                Err(d)
            },
            None => Err(duplicate),
        },
        Err(StoreError::Other(m)) => Err(context + m@),
    }
}

/// What the outcome of a change to the row with a given description means. It
/// must change exactly one row: none means the row is missing, more is a
/// broken uniqueness invariant. A refused constraint, where the change names
/// another row, means that row is missing (`dangling`). Any other failure is
/// reported after `context`.
pub open spec fn change_spec(
    outcome: Result<usize, StoreError>,
    missing: Seq<char>,
    dangling: Option<Seq<char>>,
    context: Seq<char>,
) -> Result<(), Seq<char>> {
    match outcome {
        Ok(n) => if n == 0 {
            Err(missing)
        } else if n == 1 {
            Ok(())
        } else {
            Err(AMBIGUOUS@)
        },
        Err(StoreError::Constraint(m)) => match dangling {
            Some(d) => Err(d),
            None => Err(context + m@),
        },
        Err(StoreError::Other(m)) => Err(context + m@),
    }
}

/// The message for a change that reached more than one row, which uniqueness
/// of descriptions rules out.
pub const AMBIGUOUS: &'static str = "more than one row matched";

fn joined_message(context: &str, m: &String) -> (r: String)
    ensures
        r@ == context@ + m@,
{
    String::from_str(context).concat(m.as_str())
}

/// Interprets the outcome of an insertion, as `insertion_spec` says.
pub fn insertion_result(
    outcome: Result<usize, StoreError>,
    duplicate: &str,
    dangling: Option<&str>,
    context: &str,
) -> (r: Result<(), String>)
    ensures
        outcome_text(r) == insertion_spec(outcome, duplicate@, str_text(dangling), context@),
{
    match outcome {
        Ok(_) => Ok(()),
        Err(StoreError::Constraint(m)) => match dangling {
            Some(d) => if starts_with(m.as_str(), "UNIQUE") {
                Err(String::from_str(duplicate))
            } else {
                Err(String::from_str(d))
            },
            None => Err(String::from_str(duplicate)),
        },
        Err(StoreError::Other(m)) => Err(joined_message(context, &m)),
    }
}

/// Interprets the outcome of a change to one row, as `change_spec` says.
pub fn change_result(
    outcome: Result<usize, StoreError>,
    missing: &str,
    dangling: Option<&str>,
    context: &str,
) -> (r: Result<(), String>)
    ensures
        outcome_text(r) == change_spec(outcome, missing@, str_text(dangling), context@),
{
    match outcome {
        Ok(n) => if n == 0 {
            Err(String::from_str(missing))
        } else if n == 1 {
            Ok(())
        } else {
            Err(String::from_str(AMBIGUOUS))
        },
        Err(StoreError::Constraint(m)) => match dangling {
            Some(d) => Err(String::from_str(d)),
            None => Err(joined_message(context, &m)),
        },
        Err(StoreError::Other(m)) => Err(joined_message(context, &m)),
    }
}

/// The bytes of a listing: each text in UTF-8, followed by a newline.
pub open spec fn lines(texts: Seq<Seq<char>>) -> Seq<u8>
    decreases texts.len(),
{
    if texts.len() == 0 {
        Seq::empty()
    } else {
        lines(texts.drop_last()) + encode_utf8(texts.last()) + seq![10u8]
    }
}

/// The message for a listing that could not be read.
pub open spec fn read_error_text(e: ReadError) -> Seq<char> {
    match e {
        ReadError::Prepare(m) => "unable to prepare statement: "@ + m@,
        ReadError::Query(m) => "unable to execute statement: "@ + m@,
        ReadError::Row(m) => "unable to read row: "@ + m@,
    }
}

/// What writing a listing does: on rows, `after` is `before` followed by their
/// lines; on a failure to read them, nothing is written and the failure is
/// reported.
pub open spec fn listing_spec(
    rows: Result<Vec<String>, ReadError>,
    before: Seq<u8>,
    after: Seq<u8>,
    r: Result<(), Seq<char>>,
) -> bool {
    match rows {
        Ok(v) => after == before + lines(texts(v@)) && r == Ok::<(), Seq<char>>(()),
        Err(e) => after == before && r == Err::<(), Seq<char>>(read_error_text(e)),
    }
}

/// Writes the rows of a listing, one per line, after what `writer` holds.
pub fn write_listing(rows: Result<Vec<String>, ReadError>, writer: &mut Vec<u8>) -> (r: Result<
    (),
    String,
>)
    ensures
        listing_spec(rows, old(writer)@, final(writer)@, outcome_text(r)),
{
    match rows {
        Ok(v) => {
            let ghost t = texts(v@);
            let ghost start = writer@;
            let mut i: usize = 0;
            while i < v.len()
                invariant
                    i <= v.len(),
                    t == texts(v@),
                    writer@ == start + lines(t.subrange(0, i as int)),
                decreases v.len() - i,
            {
                assert(t.subrange(0, i + 1).drop_last() == t.subrange(0, i as int));
                let mut bytes = v[i].as_str().as_bytes_vec();
                writer.append(&mut bytes);
                writer.push(10u8);
                i = i + 1;
            }
            assert(t.subrange(0, v.len() as int) == t);
            Ok(())
        },
        Err(e) => {
            let message = match e {
                ReadError::Prepare(m) => joined_message("unable to prepare statement: ", &m),
                ReadError::Query(m) => joined_message("unable to execute statement: ", &m),
                ReadError::Row(m) => joined_message("unable to read row: ", &m),
            };
            Err(message)
        },
    }
}

/// What `command` reports for an outcome of its statement; listings read
/// rows instead and report nothing here.
pub open spec fn reported(command: Request, outcome: Result<usize, StoreError>) -> Result<
    (),
    Seq<char>,
> {
    match command {
        Request::Action(ActionRequest::Add(_)) => insertion_spec(
            outcome,
            "action already exists"@,
            None,
            "unable to add action: "@,
        ),
        Request::Action(ActionRequest::Remove(_)) => change_spec(
            outcome,
            "action does not exist"@,
            None,
            "unable to remove action: "@,
        ),
        Request::Action(ActionRequest::SetDescription(_, _)) => change_spec(
            outcome,
            "action does not exist"@,
            None,
            "unable to set description: "@,
        ),
        Request::Goal(GoalRequest::Add(_, action)) => insertion_spec(
            outcome,
            "goal already exists"@,
            if action is Some {
                Some("action does not exist"@)
            } else {
                None
            },
            "unable to add goal: "@,
        ),
        Request::Goal(GoalRequest::Remove(_)) => change_spec(
            outcome,
            "goal does not exist"@,
            None,
            "unable to remove goal: "@,
        ),
        Request::Goal(GoalRequest::SetAction(_, _)) => change_spec(
            outcome,
            "goal does not exist"@,
            Some("action does not exist"@),
            "unable to set action: "@,
        ),
        Request::Goal(GoalRequest::SetDescription(_, _)) => change_spec(
            outcome,
            "goal does not exist"@,
            None,
            "unable to set description: "@,
        ),
        Request::Goal(GoalRequest::UnsetAction(_)) => change_spec(
            outcome,
            "goal does not exist"@,
            None,
            "unable to unset action: "@,
        ),
        Request::Action(ActionRequest::List) => Ok(()),
        Request::Goal(GoalRequest::List(_)) => Ok(()),
    }
}

/// Interprets the outcome of the statement of a command that is no listing,
/// as `reported` says.
pub fn interpret(command: &Command, outcome: Result<usize, StoreError>) -> (r: Result<(), String>)
    requires
        !command@.is_listing(),
    ensures
        outcome_text(r) == reported(command@, outcome),
{
    match command {
        Command::Action(ActionSubcommand::Add { .. }) => insertion_result(
            outcome,
            "action already exists",
            None,
            "unable to add action: ",
        ),
        Command::Action(ActionSubcommand::Remove { .. }) => change_result(
            outcome,
            "action does not exist",
            None,
            "unable to remove action: ",
        ),
        Command::Action(ActionSubcommand::SetDescription { .. }) => change_result(
            outcome,
            "action does not exist",
            None,
            "unable to set description: ",
        ),
        Command::Goal(GoalSubcommand::Add { action, .. }) => if action.is_some() {
            insertion_result(
                outcome,
                "goal already exists",
                Some("action does not exist"),
                "unable to add goal: ",
            )
        } else {
            insertion_result(outcome, "goal already exists", None, "unable to add goal: ")
        },
        Command::Goal(GoalSubcommand::Remove { .. }) => change_result(
            outcome,
            "goal does not exist",
            None,
            "unable to remove goal: ",
        ),
        Command::Goal(GoalSubcommand::SetAction { .. }) => change_result(
            outcome,
            "goal does not exist",
            Some("action does not exist"),
            "unable to set action: ",
        ),
        Command::Goal(GoalSubcommand::SetDescription { .. }) => change_result(
            outcome,
            "goal does not exist",
            None,
            "unable to set description: ",
        ),
        Command::Goal(GoalSubcommand::UnsetAction { .. }) => change_result(
            outcome,
            "goal does not exist",
            None,
            "unable to unset action: ",
        ),
        Command::Action(ActionSubcommand::List) => Ok(()),
        Command::Goal(GoalSubcommand::List { .. }) => Ok(()),
    }
}

/// `r` is what `command` reports for one of the outcomes its statement may
/// have.
pub open spec fn reported_for_some_outcome(command: Request, r: Result<(), Seq<char>>) -> bool {
    exists|o: Result<usize, StoreError>| r == #[trigger] reported(command, o)
}

/// `after` and `r` are what writing a listing gives, for some rows or some
/// failure to read them.
pub open spec fn written_for_some_rows(
    before: Seq<u8>,
    after: Seq<u8>,
    r: Result<(), Seq<char>>,
) -> bool {
    exists|rows: Result<Vec<String>, ReadError>| #[trigger] listing_spec(rows, before, after, r)
}

} // verus!

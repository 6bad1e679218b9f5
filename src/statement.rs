use vstd::prelude::*;

use crate::command::{ActionRequest, ActionSubcommand, Command, GoalRequest, GoalSubcommand, Request};
use crate::text::texts;

verus! {

/// The SQL that carries out a command. A parameter `?n` is bound to the n-th
/// of `statement_params`.
pub open spec fn statement_text(c: Request) -> Seq<char> {
    match c {
        Request::Action(ActionRequest::Add(_)) => "INSERT INTO actions VALUES(?1)"@,
        Request::Action(ActionRequest::List) => "SELECT * FROM actions"@,
        Request::Action(ActionRequest::Remove(_)) => "DELETE FROM actions WHERE description = ?1"@,
        Request::Action(ActionRequest::SetDescription(_, _)) =>
            "UPDATE actions SET description = ?1 WHERE description = ?2"@,
        Request::Goal(GoalRequest::Add(_, Some(_))) => "INSERT INTO goals VALUES(?1, ?2)"@,
        Request::Goal(GoalRequest::Add(_, None)) => "INSERT INTO goals (description) VALUES(?1)"@,
        Request::Goal(GoalRequest::List(all)) => if all {
            "SELECT description FROM goals"@
        } else {
            "SELECT description FROM goals WHERE action IS NULL"@
        },
        Request::Goal(GoalRequest::Remove(_)) => "DELETE FROM goals WHERE description = ?1"@,
        Request::Goal(GoalRequest::SetAction(_, _)) =>
            "UPDATE goals SET action = ?1 WHERE description = ?2"@,
        Request::Goal(GoalRequest::SetDescription(_, _)) =>
            "UPDATE goals SET description = ?1 WHERE description = ?2"@,
        Request::Goal(GoalRequest::UnsetAction(_)) =>
            "UPDATE goals SET action = NULL WHERE description = ?1"@,
    }
}

/// The values bound to the parameters of `statement_text(c)`, in order.
pub open spec fn statement_params(c: Request) -> Seq<Seq<char>> {
    match c {
        Request::Action(ActionRequest::Add(d)) => seq![d],
        Request::Action(ActionRequest::List) => seq![],
        Request::Action(ActionRequest::Remove(d)) => seq![d],
        Request::Action(ActionRequest::SetDescription(old, new)) => seq![new, old],
        Request::Goal(GoalRequest::Add(d, Some(a))) => seq![d, a],
        Request::Goal(GoalRequest::Add(d, None)) => seq![d],
        Request::Goal(GoalRequest::List(_)) => seq![],
        Request::Goal(GoalRequest::Remove(d)) => seq![d],
        Request::Goal(GoalRequest::SetAction(d, a)) => seq![a, d],
        Request::Goal(GoalRequest::SetDescription(old, new)) => seq![new, old],
        Request::Goal(GoalRequest::UnsetAction(d)) => seq![d],
    }
}

fn no_params() -> (r: Vec<String>)
    ensures
        texts(r@) == Seq::<Seq<char>>::empty(),
{
    let r: Vec<String> = Vec::new();
    assert(texts(r@) == Seq::<Seq<char>>::empty());
    r
}

fn one_param(a: &String) -> (r: Vec<String>)
    ensures
        texts(r@) == seq![a@],
{
    let r = vec![a.clone()];
    assert(texts(r@) == seq![a@]);
    r
}

fn two_params(a: &String, b: &String) -> (r: Vec<String>)
    ensures
        texts(r@) == seq![a@, b@],
{
    let r = vec![a.clone(), b.clone()];
    assert(texts(r@) == seq![a@, b@]);
    r
}

/// The SQL that carries out `command`, and the values for its parameters.
pub fn statement(command: &Command) -> (s: (&'static str, Vec<String>))
    ensures
        s.0@ == statement_text(command@),
        texts(s.1@) == statement_params(command@),
{
    match command {
        Command::Action(subcommand) => match subcommand {
            ActionSubcommand::Add { description } => (
                "INSERT INTO actions VALUES(?1)",
                one_param(description),
            ),
            ActionSubcommand::List => ("SELECT * FROM actions", no_params()),
            ActionSubcommand::Remove { description } => (
                "DELETE FROM actions WHERE description = ?1",
                one_param(description),
            ),
            ActionSubcommand::SetDescription { old_description, new_description } => (
                "UPDATE actions SET description = ?1 WHERE description = ?2",
                two_params(new_description, old_description),
            ),
        },
        Command::Goal(subcommand) => match subcommand {
            GoalSubcommand::Add { description, action } => match action {
                Some(a) => ("INSERT INTO goals VALUES(?1, ?2)", two_params(description, a)),
                None => ("INSERT INTO goals (description) VALUES(?1)", one_param(description)),
            },
            GoalSubcommand::List { all } => if *all {
                ("SELECT description FROM goals", no_params())
            } else {
                ("SELECT description FROM goals WHERE action IS NULL", no_params())
            },
            GoalSubcommand::Remove { description } => (
                "DELETE FROM goals WHERE description = ?1",
                one_param(description),
            ),
            GoalSubcommand::SetAction { description, action } => (
                "UPDATE goals SET action = ?1 WHERE description = ?2",
                two_params(action, description),
            ),
            GoalSubcommand::SetDescription { old_description, new_description } => (
                "UPDATE goals SET description = ?1 WHERE description = ?2",
                two_params(new_description, old_description),
            ),
            GoalSubcommand::UnsetAction { description } => (
                "UPDATE goals SET action = NULL WHERE description = ?1",
                one_param(description),
            ),
        },
    }
}

} // verus!

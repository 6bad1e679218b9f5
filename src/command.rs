use vstd::prelude::*;

use crate::text::{join_from, joined, quote, quoted, same_text, texts};

verus! {

/// One command line, parsed.
#[derive(Debug, PartialEq)]
pub enum Command {
    Action(ActionSubcommand),
    Goal(GoalSubcommand),
}

/// What to do with actions.
#[derive(Debug, PartialEq)]
pub enum ActionSubcommand {
    Add { description: String },
    List,
    Remove { description: String },
    SetDescription { old_description: String, new_description: String },
}

/// What to do with goals.
#[derive(Debug, PartialEq)]
#[allow(inconsistent_fields)]
pub enum GoalSubcommand {
    Add { description: String, action: Option<String> },
    List { all: bool },
    Remove { description: String },
    SetAction { description: String, action: String },
    SetDescription { old_description: String, new_description: String },
    UnsetAction { description: String },
}

/// The text of an action subcommand.
pub enum ActionRequest {
    Add(Seq<char>),
    List,
    Remove(Seq<char>),
    SetDescription(Seq<char>, Seq<char>),
}

/// The text of a goal subcommand.
pub enum GoalRequest {
    Add(Seq<char>, Option<Seq<char>>),
    List(bool),
    Remove(Seq<char>),
    SetAction(Seq<char>, Seq<char>),
    SetDescription(Seq<char>, Seq<char>),
    UnsetAction(Seq<char>),
}

/// The text of a command.
pub enum Request {
    Action(ActionRequest),
    Goal(GoalRequest),
}

impl Request {
    /// Whether the command lists actions or goals.
    pub open spec fn is_listing(self) -> bool {
        self matches Request::Action(ActionRequest::List) || self matches Request::Goal(
            GoalRequest::List(_),
        )
    }
}

impl Command {
    /// Whether the command lists actions or goals.
    pub fn is_listing(&self) -> (r: bool)
        ensures
            r == self@.is_listing(),
    {
        match self {
            Command::Action(ActionSubcommand::List) => true,
            Command::Goal(GoalSubcommand::List { .. }) => true,
            _ => false,
        }
    }
}

/// The text of an optional string.
pub open spec fn text_of(s: Option<String>) -> Option<Seq<char>> {
    match s {
        Some(t) => Some(t@),
        None => None,
    }
}

impl View for ActionSubcommand {
    type V = ActionRequest;

    open spec fn view(&self) -> ActionRequest {
        match self {
            ActionSubcommand::Add { description } => ActionRequest::Add(description@),
            ActionSubcommand::List => ActionRequest::List,
            ActionSubcommand::Remove { description } => ActionRequest::Remove(description@),
            ActionSubcommand::SetDescription { old_description, new_description } =>
                ActionRequest::SetDescription(old_description@, new_description@),
        }
    }
}

impl View for GoalSubcommand {
    type V = GoalRequest;

    open spec fn view(&self) -> GoalRequest {
        match self {
            GoalSubcommand::Add { description, action } =>
                GoalRequest::Add(description@, text_of(*action)),
            GoalSubcommand::List { all } => GoalRequest::List(*all),
            GoalSubcommand::Remove { description } => GoalRequest::Remove(description@),
            GoalSubcommand::SetAction { description, action } =>
                GoalRequest::SetAction(description@, action@),
            GoalSubcommand::SetDescription { old_description, new_description } =>
                GoalRequest::SetDescription(old_description@, new_description@),
            GoalSubcommand::UnsetAction { description } => GoalRequest::UnsetAction(description@),
        }
    }
}

impl View for Command {
    type V = Request;

    open spec fn view(&self) -> Request {
        match self {
            Command::Action(s) => Request::Action(s@),
            Command::Goal(s) => Request::Goal(s@),
        }
    }
}

/// The words of `a` from index `i` on, joined with single spaces.
pub open spec fn rest(a: Seq<Seq<char>>, i: int) -> Seq<char> {
    joined(a.subrange(i, a.len() as int))
}

/// The flags of `goal ls`, read from index `i` on: `--all` may come any number
/// of times; the first other word is an extra argument.
pub open spec fn list_all_from(a: Seq<Seq<char>>, i: int) -> Result<bool, Seq<char>>
    decreases a.len() - i,
{
    if i >= a.len() {
        Ok(a.len() > 2)
    } else if a[i] == "--all"@ {
        list_all_from(a, i + 1)
    } else {
        Err(quoted("extra argument: "@, a[i]))
    }
}

/// What `action ...` parses to; `a` is the whole command line.
pub open spec fn parse_action_spec(a: Seq<Seq<char>>) -> Result<ActionRequest, Seq<char>> {
    if a.len() < 2 {
        Err("missing subcommand"@)
    } else if a[1] == "add"@ {
        if a.len() < 3 {
            Err("missing description"@)
        } else {
            Ok(ActionRequest::Add(rest(a, 2)))
        }
    } else if a[1] == "ls"@ {
        if a.len() > 2 {
            Err(quoted("extra argument: "@, a[2]))
        } else {
            Ok(ActionRequest::List)
        }
    } else if a[1] == "rm"@ {
        if a.len() < 3 {
            Err("missing description"@)
        } else {
            Ok(ActionRequest::Remove(rest(a, 2)))
        }
    } else if a[1] == "set"@ {
        if a.len() < 3 {
            Err("missing field"@)
        } else if a[2] == "description"@ {
            if a.len() < 4 {
                Err("missing old description"@)
            } else if a.len() < 5 {
                Err("missing new description"@)
            } else {
                Ok(ActionRequest::SetDescription(a[3], rest(a, 4)))
            }
        } else {
            Err(quoted("no such field: "@, a[2]))
        }
    } else {
        Err(quoted("no such subcommand: "@, a[1]))
    }
}

/// What `goal ...` parses to; `a` is the whole command line.
pub open spec fn parse_goal_spec(a: Seq<Seq<char>>) -> Result<GoalRequest, Seq<char>> {
    if a.len() < 2 {
        Err("missing subcommand"@)
    } else if a[1] == "add"@ {
        if a.len() >= 3 && a[2] == "--action"@ {
            if a.len() < 4 {
                Err("option `--action` requires an argument"@)
            } else if a.len() < 5 {
                Err("missing description"@)
            } else {
                Ok(GoalRequest::Add(rest(a, 4), Some(a[3])))
            }
        } else if a.len() < 3 {
            Err("missing description"@)
        } else {
            Ok(GoalRequest::Add(rest(a, 2), None))
        }
    } else if a[1] == "ls"@ {
        match list_all_from(a, 2) {
            Ok(all) => Ok(GoalRequest::List(all)),
            Err(e) => Err(e),
        }
    } else if a[1] == "rm"@ {
        if a.len() < 3 {
            Err("missing description"@)
        } else {
            Ok(GoalRequest::Remove(rest(a, 2)))
        }
    } else if a[1] == "set"@ {
        if a.len() < 3 {
            Err("missing field"@)
        } else if a[2] == "action"@ {
            if a.len() < 4 {
                Err("missing description"@)
            } else if a.len() < 5 {
                Err("missing action"@)
            } else {
                Ok(GoalRequest::SetAction(a[3], rest(a, 4)))
            }
        } else if a[2] == "description"@ {
            if a.len() < 4 {
                Err("missing old description"@)
            } else if a.len() < 5 {
                Err("missing new description"@)
            } else {
                Ok(GoalRequest::SetDescription(a[3], rest(a, 4)))
            }
        } else {
            Err(quoted("no such field: "@, a[2]))
        }
    } else if a[1] == "unset"@ {
        if a.len() < 3 {
            Err("missing field"@)
        } else if a[2] == "action"@ {
            if a.len() < 4 {
                Err("missing description"@)
            } else {
                Ok(GoalRequest::UnsetAction(rest(a, 3)))
            }
        } else {
            Err(quoted("no such field: "@, a[2]))
        }
    } else {
        Err(quoted("no such subcommand: "@, a[1]))
    }
}

/// What a command line parses to.
pub open spec fn parse_spec(a: Seq<Seq<char>>) -> Result<Request, Seq<char>> {
    if a.len() == 0 {
        Err("missing command"@)
    } else if a[0] == "action"@ {
        match parse_action_spec(a) {
            Ok(s) => Ok(Request::Action(s)),
            Err(e) => Err(e),
        }
    } else if a[0] == "goal"@ {
        match parse_goal_spec(a) {
            Ok(s) => Ok(Request::Goal(s)),
            Err(e) => Err(e),
        }
    } else {
        Err(quoted("no such command: "@, a[0]))
    }
}

/// The text of a parse result.
pub open spec fn parsed(r: Result<Command, String>) -> Result<Request, Seq<char>> {
    match r {
        Ok(c) => Ok(c@),
        Err(e) => Err(e@),
    }
}

fn message(text: &str) -> (r: String)
    ensures
        r@ == text@,
{
    String::from_str(text)
}

fn parse_action(args: &Vec<String>) -> (r: Result<ActionSubcommand, String>)
    requires
        args.len() >= 1,
    ensures
        match r {
            Ok(s) => parse_action_spec(texts(args@)) == Ok::<ActionRequest, Seq<char>>(s@),
            Err(e) => parse_action_spec(texts(args@)) == Err::<ActionRequest, Seq<char>>(e@),
        },
{
    let ghost a = texts(args@);
    let n: usize = args.len();
    if n < 2 {
        return Err(message("missing subcommand"));
    }
    let subcommand = args[1].as_str();
    assert(subcommand@ == a[1]);
    if same_text(subcommand, "add") {
        if n < 3 {
            return Err(message("missing description"));
        }
        Ok(ActionSubcommand::Add { description: join_from(args, 2) })
    } else if same_text(subcommand, "ls") {
        if n > 2 {
            assert(args@[2]@ == a[2]);
            return Err(quote("extra argument: ", args[2].as_str()));
        }
        Ok(ActionSubcommand::List)
    } else if same_text(subcommand, "rm") {
        if n < 3 {
            return Err(message("missing description"));
        }
        Ok(ActionSubcommand::Remove { description: join_from(args, 2) })
    } else if same_text(subcommand, "set") {
        if n < 3 {
            return Err(message("missing field"));
        }
        let field = args[2].as_str();
        assert(field@ == a[2]);
        if same_text(field, "description") {
            if n < 4 {
                return Err(message("missing old description"));
            }
            if n < 5 {
                return Err(message("missing new description"));
            }
            assert(args@[3]@ == a[3]);
            Ok(
                ActionSubcommand::SetDescription {
                    old_description: args[3].clone(),
                    new_description: join_from(args, 4),
                },
            )
        } else {
            Err(quote("no such field: ", field))
        }
    } else {
        Err(quote("no such subcommand: ", subcommand))
    }
}

/// Reads the flags of `goal ls` from index `i` on.
fn list_all(args: &Vec<String>) -> (r: Result<bool, String>)
    requires
        args.len() >= 2,
    ensures
        match r {
            Ok(all) => list_all_from(texts(args@), 2) == Ok::<bool, Seq<char>>(all),
            Err(e) => list_all_from(texts(args@), 2) == Err::<bool, Seq<char>>(e@),
        },
{
    let ghost a = texts(args@);
    let mut i: usize = 2;
    while i < args.len()
        invariant
            2 <= i <= args.len(),
            a == texts(args@),
            list_all_from(a, 2) == list_all_from(a, i as int),
        decreases args.len() - i,
    {
        let arg = args[i].as_str();
        assert(arg@ == a[i as int]);
        if !same_text(arg, "--all") {
            return Err(quote("extra argument: ", arg));
        }
        i = i + 1;
    }
    Ok(args.len() > 2)
}

fn parse_goal(args: &Vec<String>) -> (r: Result<GoalSubcommand, String>)
    requires
        args.len() >= 1,
    ensures
        match r {
            Ok(s) => parse_goal_spec(texts(args@)) == Ok::<GoalRequest, Seq<char>>(s@),
            Err(e) => parse_goal_spec(texts(args@)) == Err::<GoalRequest, Seq<char>>(e@),
        },
{
    let ghost a = texts(args@);
    let n: usize = args.len();
    if n < 2 {
        return Err(message("missing subcommand"));
    }
    let subcommand = args[1].as_str();
    assert(subcommand@ == a[1]);
    if same_text(subcommand, "add") {
        if n >= 3 && same_text(args[2].as_str(), "--action") {
            if n < 4 {
                return Err(message("option `--action` requires an argument"));
            }
            if n < 5 {
                return Err(message("missing description"));
            }
            assert(args@[3]@ == a[3]);
            return Ok(
                GoalSubcommand::Add {
                    description: join_from(args, 4),
                    action: Some(args[3].clone()),
                },
            );
        }
        if n < 3 {
            return Err(message("missing description"));
        }
        Ok(GoalSubcommand::Add { description: join_from(args, 2), action: None })
    } else if same_text(subcommand, "ls") {
        match list_all(args) {
            Ok(all) => Ok(GoalSubcommand::List { all }),
            Err(e) => Err(e),
        }
    } else if same_text(subcommand, "rm") {
        if n < 3 {
            return Err(message("missing description"));
        }
        Ok(GoalSubcommand::Remove { description: join_from(args, 2) })
    } else if same_text(subcommand, "set") {
        if n < 3 {
            return Err(message("missing field"));
        }
        let field = args[2].as_str();
        assert(field@ == a[2]);
        if same_text(field, "action") {
            if n < 4 {
                return Err(message("missing description"));
            }
            if n < 5 {
                return Err(message("missing action"));
            }
            assert(args@[3]@ == a[3]);
            Ok(GoalSubcommand::SetAction { description: args[3].clone(), action: join_from(args, 4) })
        } else if same_text(field, "description") {
            if n < 4 {
                return Err(message("missing old description"));
            }
            if n < 5 {
                return Err(message("missing new description"));
            }
            assert(args@[3]@ == a[3]);
            Ok(
                GoalSubcommand::SetDescription {
                    old_description: args[3].clone(),
                    new_description: join_from(args, 4),
                },
            )
        } else {
            Err(quote("no such field: ", field))
        }
    } else if same_text(subcommand, "unset") {
        if n < 3 {
            return Err(message("missing field"));
        }
        let field = args[2].as_str();
        assert(field@ == a[2]);
        if same_text(field, "action") {
            if n < 4 {
                return Err(message("missing description"));
            }
            Ok(GoalSubcommand::UnsetAction { description: join_from(args, 3) })
        } else {
            Err(quote("no such field: ", field))
        }
    } else {
        Err(quote("no such subcommand: ", subcommand))
    }
}

/// Parses a command line, the program's name left out: the first word picks
/// `action` or `goal`, the next the subcommand, and a free-text argument takes
/// every word that is left, joined with single spaces.
pub fn parse_args(args: Vec<String>) -> (r: Result<Command, String>)
    ensures
        parsed(r) == parse_spec(texts(args@)),
{
    if args.len() == 0 {
        return Err(message("missing command"));
    }
    let command = args[0].as_str();
    assert(command@ == texts(args@)[0]);
    if same_text(command, "action") {
        match parse_action(&args) {
            Ok(s) => Ok(Command::Action(s)),
            Err(e) => Err(e),
        }
    } else if same_text(command, "goal") {
        match parse_goal(&args) {
            Ok(s) => Ok(Command::Goal(s)),
            Err(e) => Err(e),
        }
    } else {
        Err(quote("no such command: ", command))
    }
}

} // verus!

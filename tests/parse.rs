use odo::{parse_args, ActionSubcommand, Command, GoalSubcommand};

#[test]
fn reports_missing_command() {
    assert_eq!(
        parse_args(Vec::new()),
        Err("missing command".to_string())
    );
}

#[test]
fn reports_no_such_command() {
    assert_eq!(
        parse_args(vec!["foo".to_string()]),
        Err("no such command: `foo`".to_string())
    );
}

#[test]
fn reports_missing_action_subcommand() {
    assert_eq!(
        parse_args(vec!["action".to_string()]),
        Err("missing subcommand".to_string())
    );
}

#[test]
fn reports_no_such_action_subcommand() {
    assert_eq!(
        parse_args(vec!["action".to_string(), "foo".to_string()]),
        Err("no such subcommand: `foo`".to_string())
    );
}

#[test]
fn reports_missing_action_add_description() {
    assert_eq!(
        parse_args(vec!["action".to_string(), "add".to_string()]),
        Err("missing description".to_string())
    );
}

#[test]
fn reports_extra_action_ls_argument() {
    assert_eq!(
        parse_args(vec![
            "action".to_string(),
            "ls".to_string(),
            "foo".to_string()
        ]),
        Err("extra argument: `foo`".to_string())
    );
}

#[test]
fn reports_missing_action_rm_description() {
    assert_eq!(
        parse_args(vec!["action".to_string(), "rm".to_string()]),
        Err("missing description".to_string())
    );
}

#[test]
fn reports_missing_action_set_field() {
    assert_eq!(
        parse_args(vec!["action".to_string(), "set".to_string()]),
        Err("missing field".to_string())
    );
}

#[test]
fn reports_no_such_action_field() {
    assert_eq!(
        parse_args(vec![
            "action".to_string(),
            "set".to_string(),
            "foo".to_string(),
        ]),
        Err("no such field: `foo`".to_string())
    );
}

#[test]
fn reports_missing_old_action_description() {
    assert_eq!(
        parse_args(vec![
            "action".to_string(),
            "set".to_string(),
            "description".to_string(),
        ]),
        Err("missing old description".to_string())
    );
}

#[test]
fn reports_missing_new_action_description() {
    assert_eq!(
        parse_args(vec![
            "action".to_string(),
            "set".to_string(),
            "description".to_string(),
            "Read *Network Efect*.".to_string(),
        ]),
        Err("missing new description".to_string())
    );
}

#[test]
fn parses_action_set_description() {
    assert_eq!(
        parse_args(vec![
            "action".to_string(),
            "set".to_string(),
            "description".to_string(),
            "Read *Network Efect*.".to_string(),
            "Read".to_string(),
            "*Network".to_string(),
            "Effect*.".to_string(),
        ]),
        Ok(Command::Action(ActionSubcommand::SetDescription {
            old_description: "Read *Network Efect*.".into(),
            new_description: "Read *Network Effect*.".into()
        }))
    );
}

#[test]
fn reports_missing_goal_subcommand() {
    assert_eq!(
        parse_args(vec!["goal".to_string()]),
        Err("missing subcommand".to_string())
    );
}

#[test]
fn reports_no_such_goal_subcommand() {
    assert_eq!(
        parse_args(vec!["goal".to_string(), "foo".to_string()]),
        Err("no such subcommand: `foo`".to_string())
    );
}

#[test]
fn reports_missing_goal_add_description() {
    assert_eq!(
        parse_args(vec!["goal".to_string(), "add".to_string()]),
        Err("missing description".to_string())
    );
}

#[test]
fn reports_missing_goal_action() {
    assert_eq!(
        parse_args(vec![
            "goal".to_string(),
            "add".to_string(),
            "--action".to_string()
        ]),
        Err("option `--action` requires an argument".to_string())
    );
}

#[test]
fn reports_extra_goal_ls_argument() {
    assert_eq!(
        parse_args(vec![
            "goal".to_string(),
            "ls".to_string(),
            "foo".to_string()
        ]),
        Err("extra argument: `foo`".to_string())
    );
}

#[test]
fn reports_extra_goal_ls_argument_after_all() {
    assert_eq!(
        parse_args(vec![
            "goal".to_string(),
            "ls".to_string(),
            "--all".to_string(),
            "foo".to_string()
        ]),
        Err("extra argument: `foo`".to_string())
    );
}

#[test]
fn parses_goal_ls() {
    assert_eq!(
        parse_args(vec!["goal".to_string(), "ls".to_string()]),
        Ok(Command::Goal(GoalSubcommand::List { all: false }))
    );
}

#[test]
fn parses_goal_ls_all() {
    assert_eq!(
        parse_args(vec![
            "goal".to_string(),
            "ls".to_string(),
            "--all".to_string()
        ]),
        Ok(Command::Goal(GoalSubcommand::List { all: true }))
    );
}

#[test]
fn reports_missing_goal_rm_description() {
    assert_eq!(
        parse_args(vec!["goal".to_string(), "rm".to_string()]),
        Err("missing description".to_string())
    );
}

#[test]
fn reports_missing_goal_set_field() {
    assert_eq!(
        parse_args(vec!["goal".to_string(), "set".to_string()]),
        Err("missing field".to_string())
    );
}

#[test]
fn reports_no_such_goal_set_field() {
    assert_eq!(
        parse_args(vec![
            "goal".to_string(),
            "set".to_string(),
            "foo".to_string(),
        ]),
        Err("no such field: `foo`".to_string())
    );
}

#[test]
fn reports_missing_goal_set_description() {
    assert_eq!(
        parse_args(vec![
            "goal".to_string(),
            "set".to_string(),
            "action".to_string(),
        ]),
        Err("missing description".to_string())
    );
}

#[test]
fn reports_missing_action() {
    assert_eq!(
        parse_args(vec![
            "goal".to_string(),
            "set".to_string(),
            "action".to_string(),
            "Read *Network Effect*.".to_string(),
        ]),
        Err("missing action".to_string())
    );
}

#[test]
fn parses_goal_set_action() {
    assert_eq!(
        parse_args(vec![
            "goal".to_string(),
            "set".to_string(),
            "action".to_string(),
            "Read *Network Effect*.".to_string(),
            "Borrow".to_string(),
            "*Network".to_string(),
            "Effect*.".to_string(),
        ]),
        Ok(Command::Goal(GoalSubcommand::SetAction {
            description: "Read *Network Effect*.".into(),
            action: "Borrow *Network Effect*.".into()
        }))
    );
}

#[test]
fn reports_missing_old_goal_description() {
    assert_eq!(
        parse_args(vec![
            "goal".to_string(),
            "set".to_string(),
            "description".to_string(),
        ]),
        Err("missing old description".to_string())
    );
}

#[test]
fn reports_missing_new_goal_description() {
    assert_eq!(
        parse_args(vec![
            "goal".to_string(),
            "set".to_string(),
            "description".to_string(),
            "Read *Network Efect*.".to_string(),
        ]),
        Err("missing new description".to_string())
    );
}

#[test]
fn parses_goal_set_description() {
    assert_eq!(
        parse_args(vec![
            "goal".to_string(),
            "set".to_string(),
            "description".to_string(),
            "Read *Network Efect*.".to_string(),
            "Read".to_string(),
            "*Network".to_string(),
            "Effect*.".to_string(),
        ]),
        Ok(Command::Goal(GoalSubcommand::SetDescription {
            old_description: "Read *Network Efect*.".into(),
            new_description: "Read *Network Effect*.".into()
        }))
    );
}

#[test]
fn reports_missing_goal_unset_field() {
    assert_eq!(
        parse_args(vec!["goal".to_string(), "unset".to_string()]),
        Err("missing field".to_string())
    );
}

#[test]
fn reports_no_such_goal_unset_field() {
    assert_eq!(
        parse_args(vec![
            "goal".to_string(),
            "unset".to_string(),
            "foo".to_string(),
        ]),
        Err("no such field: `foo`".to_string())
    );
}

#[test]
fn reports_missing_goal_unset_description() {
    assert_eq!(
        parse_args(vec![
            "goal".to_string(),
            "unset".to_string(),
            "action".to_string(),
        ]),
        Err("missing description".to_string())
    );
}

#[test]
fn parses_goal_unset_action() {
    assert_eq!(
        parse_args(vec![
            "goal".to_string(),
            "unset".to_string(),
            "action".to_string(),
            "Read".to_string(),
            "*Network".to_string(),
            "Effect*.".to_string(),
        ]),
        Ok(Command::Goal(GoalSubcommand::UnsetAction {
            description: "Read *Network Effect*.".into(),
        }))
    );
}

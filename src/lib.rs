//! A personal task tracker: actions, goals that an action may achieve, and the
//! command grammar that records, lists, renames, relinks and removes them in an
//! SQLite store.

mod command;
mod outcome;
mod statement;
mod store;
mod text;

pub use command::{parse_args, ActionSubcommand, Command, GoalSubcommand};
pub use outcome::{
    change_result, insertion_result, interpret, write_listing, ReadError, StoreError,
};
pub use statement::statement;
pub use store::{
    add_action, add_goal, initialize, list_actions, list_goals, perform, remove_action, remove_goal,
    set_action_description, set_goal_action, set_goal_description, unset_goal_action,
};

//! What the shell makes of the lines that the user types: which action a
//! menu answer selects, which project a list answer picks, and what is said
//! when an action is done.

use crate::text::{is_cancel, is_cancel_spec, parse_u8, parse_u8_spec, to_text, trim, trimmed};
use vstd::prelude::*;

verus! {

/// What the user can ask for at the menu.
#[derive(Debug, Clone, Copy, PartialEq, Eq, Structural)]
pub enum Action {
    Pomodoro,
    CreateNewProject,
    DeleteProject,
    EasterEgg,
    ShowStatus,
    WriteJounal,
    Exit,
}

/// How a list of projects was answered.
#[derive(Debug, Clone, Copy, PartialEq, Eq, Structural)]
pub enum Choice {
    /// The user typed `cancel`.
    Cancelled,
    /// The project at this place in the list.
    Picked(usize),
    /// A number, but of no project in the list.
    OutOfRange,
    /// Not a number from 0 to 255.
    NotANumber,
}

/// The action that the menu answer `line` selects: the number of a menu
/// entry, white space aside. Any other answer selects none.
pub open spec fn action_selection_spec(line: Seq<char>) -> Option<Action> {
    match parse_u8_spec(trim(line)) {
        Some(n) => if n == 1 {
            Some(Action::Pomodoro)
        } else if n == 2 {
            Some(Action::CreateNewProject)
        } else if n == 3 {
            Some(Action::DeleteProject)
        } else if n == 4 {
            Some(Action::ShowStatus)
        } else if n == 5 {
            Some(Action::WriteJounal)
        } else if n == 6 {
            Some(Action::Exit)
        } else if n == 7 {
            Some(Action::EasterEgg)
        } else {
            None
        },
        None => None,
    }
}

/// The project that the answer `line` picks from a list of `count`.
pub open spec fn choose_project_spec(line: Seq<char>, count: nat) -> Choice {
    if is_cancel_spec(line) {
        Choice::Cancelled
    } else {
        match parse_u8_spec(trim(line)) {
            Some(n) => if n < count {
                Choice::Picked(n as usize)
            } else {
                Choice::OutOfRange
            },
            None => Choice::NotANumber,
        }
    }
}

/// What the answer to "which name" asks for: a failure where it is empty,
/// nothing where it cancels, else the project of that name, white space aside.
pub open spec fn create_project_spec(line: Seq<char>) -> Result<Option<Seq<char>>, Seq<char>> {
    if trim(line).len() == 0 {
        Err("Project name cannot be empty."@)
    } else if is_cancel_spec(line) {
        Ok(None)
    } else {
        Ok(Some(trim(line)))
    }
}

/// The project that the answer to "delete which" names, white space aside;
/// none where it cancels.
pub open spec fn delete_project_spec(line: Seq<char>) -> Option<Seq<char>> {
    if is_cancel_spec(line) {
        None
    } else {
        Some(trim(line))
    }
}

/// What is said where `action` needs a project and there is none.
pub open spec fn no_project_message(action: Action) -> Option<Seq<char>> {
    match action {
        Action::Pomodoro => Some("No Project to focus. You may create a new one."@),
        Action::DeleteProject => Some("No Project to delete."@),
        Action::ShowStatus => Some("Wow! You haven't focused for even one minute! 😹"@),
        Action::WriteJounal => Some("No journal to write. You may create a new one."@),
        _ => None,
    }
}

/// What is said once `action` is done with the result `done`; nothing for an
/// action that reports no result.
pub open spec fn feedback_spec(action: Action, done: Result<bool, Seq<char>>) -> Option<Seq<char>> {
    match action {
        Action::EasterEgg | Action::Exit => None,
        _ => match done {
            Err(e) => Some(e),
            Ok(finished) => if action == Action::ShowStatus {
                Some(
                    "You're cool! Do you know what you need to do to become an expert is only to focus on one thing for 10,000 hours? 🍻 CHEERS!"@,
                )
            } else if !finished {
                Some(""@)
            } else if action == Action::Pomodoro {
                Some("\r🎉 Focus session completed!                            "@)
            } else if action == Action::CreateNewProject {
                Some("Project created! ✅"@)
            } else if action == Action::DeleteProject {
                Some("Project deleted! ✅"@)
            } else {
                Some("Keep Journaling! It's a good habit!"@)
            },
        },
    }
}

/// Whether the jingle is played once `action` is done with the result
/// `done`: after a focus session that logged time.
pub open spec fn plays_jingle(action: Action, done: Result<bool, Seq<char>>) -> bool {
    action == Action::Pomodoro && done == Ok::<bool, Seq<char>>(true)
}

/// The action that a menu answer selects.
pub fn action_selection(selection: &str) -> (out: Option<Action>)
    ensures
        out == action_selection_spec(selection@),
{
    let word = trimmed(selection);
    match parse_u8(&word) {
        Some(1) => Some(Action::Pomodoro),
        Some(2) => Some(Action::CreateNewProject),
        Some(3) => Some(Action::DeleteProject),
        Some(4) => Some(Action::ShowStatus),
        Some(5) => Some(Action::WriteJounal),
        Some(6) => Some(Action::Exit),
        Some(7) => Some(Action::EasterEgg),
        _ => None,
    }
}

/// The project that an answer picks from a list of `count` projects.
pub fn choose_project(selection: &str, count: usize) -> (out: Choice)
    ensures
        out == choose_project_spec(selection@, count as nat),
{
    if is_cancel(selection) {
        return Choice::Cancelled;
    }
    let word = trimmed(selection);
    match parse_u8(&word) {
        Some(n) => {
            if (n as usize) < count {
                Choice::Picked(n as usize)
            } else {
                Choice::OutOfRange
            }
        },
        None => Choice::NotANumber,
    }
}

/// Reads the answer to "which name": the name of the project to create,
/// `None` where the user cancels, a failure where the answer is empty.
pub fn create_project(entry: &str) -> (out: Result<Option<String>, String>)
    ensures
        match out {
            Ok(Some(name)) => create_project_spec(entry@) == Ok::<Option<Seq<char>>, Seq<char>>(
                Some(name@),
            ),
            Ok(None) => create_project_spec(entry@) == Ok::<Option<Seq<char>>, Seq<char>>(None),
            Err(m) => create_project_spec(entry@) == Err::<Option<Seq<char>>, Seq<char>>(m@),
        },
{
    let name = trimmed(entry);
    if name.len() == 0 {
        return Err(String::from_str("Project name cannot be empty."));
    }
    if is_cancel(entry) {
        return Ok(None);
    }
    let out = to_text(&name, 0, name.len());
    assert(name@.subrange(0, name.len() as int) == name@);
    Ok(Some(out))
}

/// Reads the answer to "delete which": the name of the project to delete,
/// or `None` where the user cancels.
pub fn delete_project(entry: &str) -> (out: Option<String>)
    ensures
        match out {
            Some(name) => delete_project_spec(entry@) == Some(name@),
            None => delete_project_spec(entry@).is_none(),
        },
{
    if is_cancel(entry) {
        return None;
    }
    let name = trimmed(entry);
    let out = to_text(&name, 0, name.len());
    assert(name@.subrange(0, name.len() as int) == name@);
    Some(out)
}

/// Lets `action` go ahead where there are projects to work on, and says
/// what is wrong where it needs one and there is none.
pub fn require_projects(action: Action, count: usize) -> (out: Result<(), String>)
    ensures
        match out {
            Ok(_) => count > 0 || no_project_message(action).is_none(),
            Err(m) => count == 0 && no_project_message(action) == Some(m@),
        },
{
    if count > 0 {
        return Ok(());
    }
    match action {
        Action::Pomodoro => Err(
            String::from_str("No Project to focus. You may create a new one."),
        ),
        Action::DeleteProject => Err(String::from_str("No Project to delete.")),
        Action::ShowStatus => Err(
            String::from_str("Wow! You haven't focused for even one minute! 😹"),
        ),
        Action::WriteJounal => Err(
            String::from_str("No journal to write. You may create a new one."),
        ),
        _ => Ok(()),
    }
}

/// What the shell says once `action` is done, and whether it plays the
/// jingle after it.
pub fn action_feedback(action: Action, done: Result<bool, String>) -> (out: (Option<String>, bool))
    ensures
        match out.0 {
            Some(m) => feedback_spec(action, crate::pomodoro::shown(done)) == Some(m@),
            None => feedback_spec(action, crate::pomodoro::shown(done)).is_none(),
        },
        out.1 == plays_jingle(action, crate::pomodoro::shown(done)),
{
    match action {
        Action::EasterEgg => (None, false),
        Action::Exit => (None, false),
        _ => match done {
            Err(e) => (Some(e), false),
            Ok(finished) => {
                if action == Action::ShowStatus {
                    (
                        Some(
                            String::from_str(
                                "You're cool! Do you know what you need to do to become an expert is only to focus on one thing for 10,000 hours? 🍻 CHEERS!",
                            ),
                        ),
                        false,
                    )
                } else if !finished {
                    (Some(String::from_str("")), false)
                } else if action == Action::Pomodoro {
                    (
                        Some(
                            String::from_str(
                                "\r🎉 Focus session completed!                            ",
                            ),
                        ),
                        true,
                    )
                } else if action == Action::CreateNewProject {
                    (Some(String::from_str("Project created! ✅")), false)
                } else if action == Action::DeleteProject {
                    (Some(String::from_str("Project deleted! ✅")), false)
                } else {
                    (Some(String::from_str("Keep Journaling! It's a good habit!")), false)
                }
            },
        },
    }
}

} // verus!

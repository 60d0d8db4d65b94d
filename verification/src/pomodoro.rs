//! What the tracker makes of the store's answers: which of them are
//! failures, what is said of each, and what a project's total becomes when
//! focus time is added to it.

use crate::tracker::{capped_sum, ProjectTracker};
use vstd::prelude::*;

verus! {

/// A result with its message as plain text.
pub open spec fn shown<T>(r: Result<T, String>) -> Result<T, Seq<char>> {
    match r {
        Ok(v) => Ok(v),
        Err(m) => Err(m@),
    }
}

/// What deleting the project `name` came to: done where the store removed
/// it, a failure where it knew no such project or failed itself.
pub open spec fn delete_project_spec(deleted: Result<bool, Seq<char>>, name: Seq<char>) -> Result<
    bool,
    Seq<char>,
> {
    match deleted {
        Ok(true) => Ok(true),
        Ok(false) => Err("Project '"@ + name + "' not found."@),
        Err(e) => Err("Error deleting project: "@ + e),
    }
}

/// The total, in seconds, that the project `name` is to be stored with once
/// `focus_time` seconds are added to what the store holds for it; a failure
/// where the store holds no such project or could not be read.
pub open spec fn focus_on_project_spec(
    found: Result<Option<nat>, Seq<char>>,
    name: Seq<char>,
    focus_time: nat,
) -> Result<nat, Seq<char>> {
    match found {
        Ok(Some(previous)) => Ok(capped_sum(previous, focus_time)),
        Ok(None) => Err("No such project named "@ + name),
        Err(e) => Err("Error retrieving project: "@ + e),
    }
}

/// What storing the new total of the project `name` came to.
pub open spec fn focus_stored_spec(updated: Result<bool, Seq<char>>, name: Seq<char>) -> Result<
    bool,
    Seq<char>,
> {
    match updated {
        Ok(true) => Ok(true),
        Ok(false) => Err("Project '"@ + name + "' not found for update"@),
        Err(e) => Err("Error updating project: "@ + e),
    }
}

/// The seconds of the project that was looked up, if there is one.
pub open spec fn seconds_found(found: Result<Option<ProjectTracker>, String>) -> Result<
    Option<nat>,
    Seq<char>,
> {
    match found {
        Ok(Some(project)) => Ok(Some(project@.seconds)),
        Ok(None) => Ok(None),
        Err(e) => Err(e@),
    }
}

fn message(start: &str, middle: &str, end: &str) -> (out: String)
    ensures
        out@ == start@ + middle@ + end@,
{
    let mut out = String::from_str(start);
    out.append(middle);
    out.append(end);
    out
}

/// Says what deleting the project `project_name` came to, given the store's
/// answer: whether it removed a project, or why it failed.
pub fn delete_project(deleted: Result<bool, String>, project_name: &str) -> (out: Result<
    bool,
    String,
>)
    ensures
        shown(out) == delete_project_spec(shown(deleted), project_name@),
{
    match deleted {
        Ok(true) => Ok(true),
        Ok(false) => Err(message("Project '", project_name, "' not found.")),
        Err(e) => {
            let out = message("Error deleting project: ", e.as_str(), "");
            proof {
                reveal_strlit("");
                assert(out@ == "Error deleting project: "@ + e@);
            }
            Err(out)
        },
    }
}

/// Adds `focus_time` seconds to the project that the store was asked for,
/// and gives the total to store in its place.
pub fn focus_on_project(
    found: Result<Option<ProjectTracker>, String>,
    project_name: &str,
    focus_time: u64,
) -> (out: Result<u64, String>)
    ensures
        match out {
            Ok(total) => focus_on_project_spec(seconds_found(found), project_name@, focus_time as nat)
                == Ok::<nat, Seq<char>>(total as nat),
            Err(m) => focus_on_project_spec(seconds_found(found), project_name@, focus_time as nat)
                == Err::<nat, Seq<char>>(m@),
        },
{
    match found {
        Ok(Some(project)) => Ok(project.time_getter().saturating_add(focus_time)),
        Ok(None) => {
            let out = message("No such project named ", project_name, "");
            proof {
                reveal_strlit("");
                assert(out@ == "No such project named "@ + project_name@);
            }
            Err(out)
        },
        Err(e) => {
            let out = message("Error retrieving project: ", e.as_str(), "");
            proof {
                reveal_strlit("");
                assert(out@ == "Error retrieving project: "@ + e@);
            }
            Err(out)
        },
    }
}

/// Says what storing the new total of `project_name` came to, given the
/// store's answer: whether it changed a project, or why it failed.
pub fn focus_stored(updated: Result<bool, String>, project_name: &str) -> (out: Result<
    bool,
    String,
>)
    ensures
        shown(out) == focus_stored_spec(shown(updated), project_name@),
{
    match updated {
        Ok(true) => Ok(true),
        Ok(false) => Err(message("Project '", project_name, "' not found for update")),
        Err(e) => {
            let out = message("Error updating project: ", e.as_str(), "");
            proof {
                reveal_strlit("");
                assert(out@ == "Error updating project: "@ + e@);
            }
            Err(out)
        },
    }
}

/// What creating a project came to: done, whatever row the store gave it,
/// or a failure with the store's reason.
pub open spec fn create_project_spec(created: Result<i64, Seq<char>>) -> Result<bool, Seq<char>> {
    match created {
        Ok(_) => Ok(true),
        Err(e) => Err("Error creating project: "@ + e),
    }
}

/// The time that a new project is stored with: none.
pub const NEW_PROJECT_SECONDS: u64 = 0;

/// Says what creating a project came to, given the store's answer.
pub fn create_project(created: Result<i64, String>) -> (out: Result<bool, String>)
    ensures
        shown(out) == create_project_spec(shown(created)),
{
    match created {
        Ok(_) => Ok(true),
        Err(e) => {
            let out = message("Error creating project: ", e.as_str(), "");
            proof {
                reveal_strlit("");
                assert(out@ == "Error creating project: "@ + e@);
            }
            Err(out)
        },
    }
}

/// Hands on the projects that the store listed, as it listed them, or says
/// why it could not.
pub fn get_all_project<T>(listed: Result<Vec<T>, String>) -> (out: Result<Vec<T>, String>)
    ensures
        match (listed, out) {
            (Ok(projects), Ok(handed)) => handed == projects,
            (Err(e), Err(m)) => m@ == "Error retrieving all files, specifically "@ + e@,
            _ => false,
        },
{
    match listed {
        Ok(projects) => Ok(projects),
        Err(e) => {
            let out = message("Error retrieving all files, specifically ", e.as_str(), "");
            proof {
                reveal_strlit("");
                assert(out@ == "Error retrieving all files, specifically "@ + e@);
            }
            Err(out)
        },
    }
}

/// The journal of the project that was looked up, or why there is none.
pub open spec fn write_journal_spec(
    found: Result<Option<Seq<char>>, Seq<char>>,
    name: Seq<char>,
) -> Result<Seq<char>, Seq<char>> {
    match found {
        Ok(Some(path)) => Ok(path),
        Ok(None) => Err("No such project named "@ + name),
        Err(e) => Err("Error retrieving project: "@ + e),
    }
}

/// The journal's place in the project that was looked up, if there is one.
pub open spec fn journal_found(found: Result<Option<ProjectTracker>, String>) -> Result<
    Option<Seq<char>>,
    Seq<char>,
> {
    match found {
        Ok(Some(project)) => Ok(Some(project@.journal_path)),
        Ok(None) => Ok(None),
        Err(e) => Err(e@),
    }
}

/// The place of the journal that is to be opened for `project_name`, given
/// what the store found under that name.
pub fn write_journal(found: Result<Option<ProjectTracker>, String>, project_name: &str) -> (out:
    Result<String, String>)
    ensures
        match out {
            Ok(path) => write_journal_spec(journal_found(found), project_name@) == Ok::<
                Seq<char>,
                Seq<char>,
            >(path@),
            Err(m) => write_journal_spec(journal_found(found), project_name@) == Err::<
                Seq<char>,
                Seq<char>,
            >(m@),
        },
{
    match found {
        Ok(Some(project)) => Ok(project.path_getter().clone()),
        Ok(None) => {
            let out = message("No such project named ", project_name, "");
            proof {
                reveal_strlit("");
                assert(out@ == "No such project named "@ + project_name@);
            }
            Err(out)
        },
        Err(e) => {
            let out = message("Error retrieving project: ", e.as_str(), "");
            proof {
                reveal_strlit("");
                assert(out@ == "Error retrieving project: "@ + e@);
            }
            Err(out)
        },
    }
}

/// The editor that opens a journal: `notepad` on Windows; elsewhere the one
/// that the user has chosen, and `nano` where none is chosen.
pub open spec fn editor_spec(os: Seq<char>, chosen: Option<Seq<char>>) -> Seq<char> {
    if os == "windows"@ {
        "notepad"@
    } else {
        match chosen {
            Some(editor) => editor,
            None => "nano"@,
        }
    }
}

/// The editor that opens a journal on the system `os`, where `chosen` is
/// the user's own choice of an editor, if any.
pub fn editor_for(os: &str, chosen: Option<String>) -> (out: String)
    ensures
        out@ == editor_spec(
            os@,
            match chosen {
                Some(editor) => Some(editor@),
                None => None,
            },
        ),
{
    if String::from_str(os) == String::from_str("windows") {
        String::from_str("notepad")
    } else {
        match chosen {
            Some(editor) => editor,
            None => String::from_str("nano"),
        }
    }
}

/// Says what editing a journal came to, given whether the editor ended well.
pub fn journal_written(success: bool) -> (out: Result<bool, String>)
    ensures
        success ==> out == Ok::<bool, String>(true),
        !success ==> out.is_err() && out.unwrap_err()@ == "Editor exited with a non-zero status."@,
{
    if success {
        Ok(true)
    } else {
        Err(String::from_str("Editor exited with a non-zero status."))
    }
}

} // verus!

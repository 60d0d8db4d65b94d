use pomo::pomodoro::{
    create_project, delete_project, editor_for, focus_on_project, focus_stored, get_all_project,
    journal_written, write_journal, NEW_PROJECT_SECONDS,
};
use pomo::tracker::ProjectTracker;

fn project(name: &str, seconds: u64) -> ProjectTracker {
    ProjectTracker::new(name.to_string(), seconds, format!("/journal/{}.md", name))
}

#[test]
fn delete_reports_each_answer_of_the_store() {
    assert_eq!(delete_project(Ok(true), "thesis"), Ok(true));
    assert_eq!(
        delete_project(Ok(false), "thesis"),
        Err("Project 'thesis' not found.".to_string())
    );
    assert_eq!(
        delete_project(Err("locked".to_string()), "thesis"),
        Err("Error deleting project: locked".to_string())
    );
}

#[test]
fn focus_adds_to_what_the_store_holds() {
    assert_eq!(focus_on_project(Ok(Some(project("thesis", 300))), "thesis", 60), Ok(360));
    assert_eq!(focus_on_project(Ok(Some(project("thesis", 0))), "thesis", 1), Ok(1));
    assert_eq!(focus_on_project(Ok(Some(project("thesis", 120))), "thesis", 30), Ok(150));
}

#[test]
fn focus_total_stops_at_the_largest_number() {
    assert_eq!(
        focus_on_project(Ok(Some(project("thesis", u64::MAX - 1))), "thesis", 5),
        Ok(u64::MAX)
    );
}

#[test]
fn focus_on_a_missing_project_is_a_failure() {
    assert_eq!(
        focus_on_project(Ok(None), "thesis", 60),
        Err("No such project named thesis".to_string())
    );
    assert_eq!(
        focus_on_project(Err("locked".to_string()), "thesis", 60),
        Err("Error retrieving project: locked".to_string())
    );
}

#[test]
fn storing_reports_each_answer_of_the_store() {
    assert_eq!(focus_stored(Ok(true), "thesis"), Ok(true));
    assert_eq!(
        focus_stored(Ok(false), "thesis"),
        Err("Project 'thesis' not found for update".to_string())
    );
    assert_eq!(
        focus_stored(Err("locked".to_string()), "thesis"),
        Err("Error updating project: locked".to_string())
    );
}

#[test]
fn create_reports_each_answer_of_the_store() {
    assert_eq!(NEW_PROJECT_SECONDS, 0);
    assert_eq!(create_project(Ok(17)), Ok(true));
    assert_eq!(
        create_project(Err("locked".to_string())),
        Err("Error creating project: locked".to_string())
    );
}

#[test]
fn listing_hands_the_projects_on() {
    let listed = get_all_project(Ok(vec![project("a", 1), project("b", 2)])).unwrap();
    assert_eq!(listed.len(), 2);
    assert_eq!(listed[0].name_getter(), "a");
    assert_eq!(listed[1].time_getter(), 2);
    assert_eq!(
        get_all_project::<ProjectTracker>(Err("locked".to_string())).err(),
        Some("Error retrieving all files, specifically locked".to_string())
    );
}

#[test]
fn journal_is_that_of_the_project_found() {
    assert_eq!(
        write_journal(Ok(Some(project("thesis", 0))), "thesis"),
        Ok("/journal/thesis.md".to_string())
    );
    assert_eq!(
        write_journal(Ok(None), "thesis"),
        Err("No such project named thesis".to_string())
    );
    assert_eq!(
        write_journal(Err("locked".to_string()), "thesis"),
        Err("Error retrieving project: locked".to_string())
    );
}

#[test]
fn editor_is_chosen_by_system_and_user() {
    assert_eq!(editor_for("windows", Some("vim".to_string())), "notepad");
    assert_eq!(editor_for("windows", None), "notepad");
    assert_eq!(editor_for("linux", Some("vim".to_string())), "vim");
    assert_eq!(editor_for("linux", None), "nano");
    assert_eq!(editor_for("macos", None), "nano");
}

#[test]
fn editor_result_is_reported() {
    assert_eq!(journal_written(true), Ok(true));
    assert_eq!(
        journal_written(false),
        Err("Editor exited with a non-zero status.".to_string())
    );
}

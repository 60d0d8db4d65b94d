use pomo::cli::{
    action_feedback, action_selection, choose_project, create_project, delete_project,
    require_projects, Action, Choice,
};

#[test]
fn menu_numbers_select_their_actions() {
    assert_eq!(action_selection("1"), Some(Action::Pomodoro));
    assert_eq!(action_selection("2"), Some(Action::CreateNewProject));
    assert_eq!(action_selection("3"), Some(Action::DeleteProject));
    assert_eq!(action_selection("4"), Some(Action::ShowStatus));
    assert_eq!(action_selection("5"), Some(Action::WriteJounal));
    assert_eq!(action_selection("6"), Some(Action::Exit));
    assert_eq!(action_selection("7"), Some(Action::EasterEgg));
}

#[test]
fn menu_answers_are_trimmed() {
    assert_eq!(action_selection(" 3\r\n"), Some(Action::DeleteProject));
    assert_eq!(action_selection("+4\n"), Some(Action::ShowStatus));
    assert_eq!(action_selection("006"), Some(Action::Exit));
}

#[test]
fn other_menu_answers_select_nothing() {
    for s in ["", "0", "8", "255", "256", "one", "1 2", "-1", "1.0", "cancel"] {
        assert_eq!(action_selection(s), None, "{:?}", s);
    }
}

#[test]
fn a_list_answer_picks_by_place() {
    assert_eq!(choose_project("0\n", 3), Choice::Picked(0));
    assert_eq!(choose_project(" 2 ", 3), Choice::Picked(2));
    assert_eq!(choose_project("3", 3), Choice::OutOfRange);
    assert_eq!(choose_project("255", 300), Choice::Picked(255));
    assert_eq!(choose_project("256", 300), Choice::NotANumber);
    assert_eq!(choose_project("0", 0), Choice::OutOfRange);
    assert_eq!(choose_project("two", 3), Choice::NotANumber);
    assert_eq!(choose_project("", 3), Choice::NotANumber);
    assert_eq!(choose_project("Cancel\n", 3), Choice::Cancelled);
}

#[test]
fn a_new_name_is_trimmed_and_must_not_be_empty() {
    assert_eq!(create_project(" thesis \n"), Ok(Some("thesis".to_string())));
    assert_eq!(create_project("my thesis"), Ok(Some("my thesis".to_string())));
    assert_eq!(create_project("CANCEL\n"), Ok(None));
    assert_eq!(create_project("\n"), Err("Project name cannot be empty.".to_string()));
    assert_eq!(create_project(""), Err("Project name cannot be empty.".to_string()));
}

#[test]
fn a_name_to_delete_is_trimmed() {
    assert_eq!(delete_project(" thesis \n"), Some("thesis".to_string()));
    assert_eq!(delete_project("cancel\n"), None);
    assert_eq!(delete_project("\n"), Some(String::new()));
}

#[test]
fn actions_on_projects_need_a_project() {
    assert_eq!(
        require_projects(Action::Pomodoro, 0),
        Err("No Project to focus. You may create a new one.".to_string())
    );
    assert_eq!(
        require_projects(Action::DeleteProject, 0),
        Err("No Project to delete.".to_string())
    );
    assert_eq!(
        require_projects(Action::ShowStatus, 0),
        Err("Wow! You haven't focused for even one minute! 😹".to_string())
    );
    assert_eq!(
        require_projects(Action::WriteJounal, 0),
        Err("No journal to write. You may create a new one.".to_string())
    );
    assert_eq!(require_projects(Action::CreateNewProject, 0), Ok(()));
    assert_eq!(require_projects(Action::Pomodoro, 1), Ok(()));
    assert_eq!(require_projects(Action::DeleteProject, 4), Ok(()));
}

#[test]
fn feedback_follows_the_result() {
    assert_eq!(
        action_feedback(Action::Pomodoro, Ok(true)),
        (
            Some("\r🎉 Focus session completed!                            ".to_string()),
            true
        )
    );
    assert_eq!(action_feedback(Action::Pomodoro, Ok(false)), (Some(String::new()), false));
    assert_eq!(
        action_feedback(Action::Pomodoro, Err("boom".to_string())),
        (Some("boom".to_string()), false)
    );
    assert_eq!(
        action_feedback(Action::CreateNewProject, Ok(true)),
        (Some("Project created! ✅".to_string()), false)
    );
    assert_eq!(
        action_feedback(Action::DeleteProject, Ok(true)),
        (Some("Project deleted! ✅".to_string()), false)
    );
    assert_eq!(
        action_feedback(Action::WriteJounal, Ok(true)),
        (Some("Keep Journaling! It's a good habit!".to_string()), false)
    );
    assert_eq!(action_feedback(Action::WriteJounal, Ok(false)), (Some(String::new()), false));
    let cheers = "You're cool! Do you know what you need to do to become an expert is only to focus on one thing for 10,000 hours? 🍻 CHEERS!";
    assert_eq!(action_feedback(Action::ShowStatus, Ok(true)), (Some(cheers.to_string()), false));
    assert_eq!(action_feedback(Action::ShowStatus, Ok(false)), (Some(cheers.to_string()), false));
    assert_eq!(action_feedback(Action::Exit, Ok(true)), (None, false));
    assert_eq!(action_feedback(Action::EasterEgg, Err("x".to_string())), (None, false));
}

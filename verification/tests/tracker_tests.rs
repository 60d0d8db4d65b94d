use pomo::tracker::{journal_file_name, sanitize_filename, ProjectTracker};

#[test]
fn sanitize_keeps_a_plain_name() {
    assert_eq!(sanitize_filename("thesis"), "thesis");
    assert_eq!(sanitize_filename("My Project 2"), "My Project 2");
}

#[test]
fn sanitize_trims_white_space() {
    assert_eq!(sanitize_filename("  thesis\r\n"), "thesis");
}

#[test]
fn sanitize_drops_forbidden_and_control_characters() {
    assert_eq!(sanitize_filename("a<b>c:d\"e/f\\g|h?i*j"), "abcdefghij");
    assert_eq!(sanitize_filename("a\u{1}b\tc\u{1f}d"), "abcd");
    assert_eq!(sanitize_filename("a\u{7f}b"), "a\u{7f}b");
}

#[test]
fn sanitize_strips_trailing_spaces_and_dots() {
    assert_eq!(sanitize_filename("notes. . ."), "notes");
    assert_eq!(sanitize_filename("v1.2"), "v1.2");
    assert_eq!(sanitize_filename("name ?"), "name");
    assert_eq!(sanitize_filename(".hidden"), ".hidden");
}

#[test]
fn sanitize_guards_reserved_names() {
    assert_eq!(sanitize_filename(" con. "), "con_");
    assert_eq!(sanitize_filename("CON"), "CON_");
    assert_eq!(sanitize_filename("prn"), "prn_");
    assert_eq!(sanitize_filename("Aux"), "Aux_");
    assert_eq!(sanitize_filename("NUL"), "NUL_");
    assert_eq!(sanitize_filename("com1"), "com1_");
    assert_eq!(sanitize_filename("Lpt9"), "Lpt9_");
    assert_eq!(sanitize_filename("COM0"), "COM0");
    assert_eq!(sanitize_filename("COM10"), "COM10");
    assert_eq!(sanitize_filename("CONS"), "CONS");
    assert_eq!(sanitize_filename("C:ON"), "CON_");
}

#[test]
fn sanitize_never_gives_an_empty_name() {
    assert_eq!(sanitize_filename(""), "_");
    assert_eq!(sanitize_filename("   "), "_");
    assert_eq!(sanitize_filename("..."), "_");
    assert_eq!(sanitize_filename("???"), "_");
    assert_eq!(sanitize_filename(" . : . "), "_");
}

#[test]
fn journal_file_has_the_markdown_extension() {
    assert_eq!(journal_file_name("thesis"), "thesis.md");
    assert_eq!(journal_file_name(" aux "), "aux_.md");
    assert_eq!(journal_file_name(""), "_.md");
}

#[test]
fn project_getters_give_back_the_fields() {
    let p = ProjectTracker::new("thesis".to_string(), 90, "/data/thesis.md".to_string());
    assert_eq!(p.name_getter(), "thesis");
    assert_eq!(p.time_getter(), 90);
    assert_eq!(p.path_getter(), "/data/thesis.md");
}

use orunner::env_recovery::get_args;

#[test]
fn without_recovery_the_given_arguments_stand() {
    let fallback = vec!["orc".to_string(), "profile".to_string()];
    assert_eq!(get_args(None, fallback.clone()), Some(fallback));
}

#[test]
fn recovery_line_is_split_like_a_shell_command() {
    let fallback = vec!["orc".to_string()];
    let recovered = get_args(Some("orc prefix set \"git commit\"".to_string()), fallback);
    assert_eq!(
        recovered,
        Some(vec![
            "orc".to_string(),
            "prefix".to_string(),
            "set".to_string(),
            "git commit".to_string(),
        ]),
    );
}

#[test]
fn mismatched_quotes_are_reported() {
    let fallback = vec!["orc".to_string()];
    assert_eq!(get_args(Some("orc profile add 'oops".to_string()), fallback), None);
}

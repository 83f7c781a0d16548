use orunner::cli::Cli;
use orunner::cli::Commands;
use orunner::config::Config;
use orunner::config::Profile;
use orunner::ops::run_command;
use orunner::ops::CommandOutcome;
use orunner::script::routine_make_command;

fn profile_with(prefix: &str, paths: &[&str]) -> Profile {
    Profile {
        prefix: prefix.to_string(),
        paths: paths.iter().map(|p| p.to_string()).collect(),
    }
}

#[test]
fn two_paths_give_six_lines_with_git_status() {
    let profile = profile_with("git", &["/a", "/b"]);
    let lines = routine_make_command(&profile, &vec!["status".to_string()]);
    assert_eq!(lines.len(), 6);
    assert_eq!(lines[2], "git status");
    assert_eq!(lines[5], "git status");
    assert!(lines[0].starts_with("cd \""));
    assert!(lines[3].starts_with("cd \""));
    assert!(lines[1].starts_with(" printf \"$(tput bold)"));
    assert!(lines[4].ends_with("$(tput sgr0)\\n\""));
}

#[test]
fn stored_form_is_shown_when_canonicalization_fails() {
    let profile = profile_with("", &["surely/not/a/real/dir"]);
    let lines = routine_make_command(&profile, &vec!["ls".to_string()]);
    assert_eq!(lines.len(), 3);
    assert_eq!(lines[0], "cd \"surely/not/a/real/dir\"");
    assert_eq!(lines[1], " printf \"$(tput bold)surely/not/a/real/dir$(tput sgr0)\\n\"");
}

#[test]
fn canonical_form_is_shown_when_available() {
    let profile = profile_with("", &["/.."]);
    let lines = routine_make_command(&profile, &vec!["ls".to_string()]);
    assert_eq!(lines[0], "cd \"/\"");
}

#[test]
fn empty_prefix_leaves_leading_space() {
    let profile = profile_with("", &["/x"]);
    let lines = routine_make_command(&profile, &vec!["ls".to_string(), "-la".to_string()]);
    assert_eq!(lines[2], " ls -la");
}

#[test]
fn tokens_join_with_single_spaces() {
    let profile = profile_with("git", &["/x"]);
    let lines = routine_make_command(
        &profile,
        &vec!["status".to_string(), "-s".to_string(), "-b".to_string()],
    );
    assert_eq!(lines[2], "git status -s -b");
}

#[test]
fn empty_command_gives_prefix_and_space() {
    let profile = profile_with("git", &["/x"]);
    let lines = routine_make_command(&profile, &Vec::new());
    assert_eq!(lines[2], "git ");
}

#[test]
fn no_paths_give_no_lines() {
    let profile = profile_with("git", &[]);
    let lines = routine_make_command(&profile, &vec!["status".to_string()]);
    assert!(lines.is_empty());
}

#[test]
fn run_command_renders_script_for_selected_profile() {
    let mut config = Config::default();
    config.profiles[0].profile = profile_with("git", &["/a", "/b"]);
    let cli = Cli {
        profile: None,
        command: Commands::MakeCommand { shell_command: vec!["status".to_string()] },
    };
    let (changed, out) = run_command(&mut config, &cli);
    assert!(!changed);
    match out {
        CommandOutcome::Script(lines) => {
            assert_eq!(lines.len(), 6);
            assert_eq!(lines[2], "git status");
            assert_eq!(lines[5], "git status");
        },
        other => panic!("make-command gave {:?}", other),
    }
}

#[test]
fn run_command_refuses_missing_selection() {
    let mut config = Config::default();
    let cli = Cli {
        profile: Some("nope".to_string()),
        command: Commands::MakeCommand { shell_command: vec!["status".to_string()] },
    };
    let (changed, out) = run_command(&mut config, &cli);
    assert!(!changed);
    assert_eq!(out, CommandOutcome::SelectionMissing);
}

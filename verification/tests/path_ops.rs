use orunner::cli::AddRemovePath;
use orunner::cli::Cli;
use orunner::cli::Commands;
use orunner::config::Config;
use orunner::config::Profile;
use orunner::ops::run_command;
use orunner::ops::CommandOutcome;
use orunner::paths::PathOutcome;
use orunner::utils::pathbuf_to_string;

#[test]
fn adding_same_path_twice_is_rejected() {
    let mut profile = Profile::default();
    let path = "some/relative/dir".to_string();
    let out = profile.add_path(&path, true, true);
    assert_eq!(out, PathOutcome::Added { stored: path.clone() });
    let out = profile.add_path(&path, true, true);
    assert_eq!(out, PathOutcome::AlreadyRegistered);
    assert_eq!(profile.paths, vec![path]);
}

#[test]
fn adding_missing_path_without_force_is_rejected() {
    let mut profile = Profile::default();
    let path = "/surely/not/a/real/directory/anywhere".to_string();
    let out = profile.add_path(&path, false, false);
    assert_eq!(out, PathOutcome::DoesNotExist);
    assert!(profile.paths.is_empty());
}

#[test]
fn adding_root_stores_its_canonical_form() {
    let mut profile = Profile::default();
    let out = profile.add_path(&"/".to_string(), false, false);
    assert_eq!(out, PathOutcome::Added { stored: "/".to_string() });
    assert_eq!(profile.paths, vec!["/".to_string()]);
}

#[test]
fn removing_by_relative_form_succeeds() {
    let mut profile = Profile::default();
    let path = "some/relative/dir".to_string();
    profile.add_path(&path, true, true);
    let out = profile.remove_path(&path);
    assert_eq!(out, PathOutcome::Removed);
    assert!(profile.paths.is_empty());
}

#[test]
fn removing_by_canonical_form_succeeds() {
    let mut profile = Profile::default();
    profile.add_path(&"/".to_string(), false, false);
    // "/.." canonicalizes to "/", which is the stored form; the given form
    // "/.." itself is not stored.
    let out = profile.remove_path(&"/..".to_string());
    assert_eq!(out, PathOutcome::Removed);
    assert!(profile.paths.is_empty());
}

#[test]
fn remove_by_either_form_prefers_first_match() {
    let mut profile = Profile {
        prefix: String::new(),
        paths: vec!["/c/x".to_string(), "x".to_string()],
    };
    let out = profile.remove_path_forms(&"/c/x".to_string(), &"x".to_string());
    assert_eq!(out, PathOutcome::Removed);
    assert_eq!(profile.paths, vec!["x".to_string()]);
    let out = profile.remove_path_forms(&"/c/x".to_string(), &"x".to_string());
    assert_eq!(out, PathOutcome::Removed);
    assert!(profile.paths.is_empty());
}

#[test]
fn remove_by_forms_matches_canonical_only_entry() {
    let mut profile = Profile {
        prefix: String::new(),
        paths: vec!["other".to_string(), "/c/x".to_string()],
    };
    let out = profile.remove_path_forms(&"/c/x".to_string(), &"x".to_string());
    assert_eq!(out, PathOutcome::Removed);
    assert_eq!(profile.paths, vec!["other".to_string()]);
}

#[test]
fn removing_missing_path_reports_not_found() {
    let mut profile = Profile::default();
    let out = profile.remove_path(&"not/there".to_string());
    assert_eq!(out, PathOutcome::NotFound);
}

#[test]
fn listing_keeps_stored_order() {
    let mut profile = Profile::default();
    profile.add_path(&"b/dir".to_string(), true, true);
    profile.add_path(&"a/dir".to_string(), true, true);
    assert_eq!(profile.list_paths(), vec!["b/dir".to_string(), "a/dir".to_string()]);
}

#[test]
fn pathbuf_to_string_without_canonicalizing_is_identity() {
    let p = "some/relative/dir".to_string();
    assert_eq!(pathbuf_to_string(&p, false), Some(p.clone()));
}

#[test]
fn pathbuf_to_string_canonicalizes_root_parent() {
    assert_eq!(pathbuf_to_string(&"/..".to_string(), true), Some("/".to_string()));
}

#[test]
fn run_command_adds_path_to_selected_profile() {
    let mut config = Config::default();
    let add = AddRemovePath::Add {
        force: true,
        add_relative: true,
        path: "some/dir".to_string(),
    };
    let cli = Cli { profile: None, command: Commands::Path { subcommand: Some(add) } };
    let (changed, out) = run_command(&mut config, &cli);
    assert!(changed);
    assert_eq!(
        out,
        CommandOutcome::PathEdit(PathOutcome::Added { stored: "some/dir".to_string() }),
    );
    assert_eq!(config.profiles[0].profile.paths, vec!["some/dir".to_string()]);
}

#[test]
fn forced_add_of_missing_path_without_relative_is_not_representable() {
    let mut profile = Profile::default();
    let path = "/surely/not/a/real/directory/anywhere".to_string();
    let out = profile.add_path(&path, true, false);
    assert_eq!(out, PathOutcome::NotRepresentable);
    assert!(profile.paths.is_empty());
}

use orunner::cli::EditProfile;
use orunner::config::Config;
use orunner::config::Profile;
use orunner::config::ProfileEntry;
use orunner::ops::routine_profile;
use orunner::ops::ProfileOutcome;

fn listed_names(config: &mut Config) -> Vec<String> {
    let (changed, out) = routine_profile(config, &None);
    assert!(!changed);
    match out {
        ProfileOutcome::Listed { names } => names,
        other => panic!("listing gave {:?}", other),
    }
}

#[test]
fn initial_config_has_default_profile() {
    let mut config = Config::default();
    assert_eq!(config.default_profile, "default");
    assert!(config.check_wf());
    let names = listed_names(&mut config);
    assert_eq!(names, vec!["default".to_string()]);
}

#[test]
fn added_profile_is_listed() {
    let mut config = Config::default();
    let add = Some(EditProfile::Add { default: false, name: "work".to_string() });
    let (changed, out) = routine_profile(&mut config, &add);
    assert!(changed);
    assert_eq!(out, ProfileOutcome::Added { made_default: false });
    let names = listed_names(&mut config);
    assert_eq!(names, vec!["default".to_string(), "work".to_string()]);
}

#[test]
fn removed_profile_is_not_listed() {
    let mut config = Config::default();
    let add = Some(EditProfile::Add { default: false, name: "work".to_string() });
    routine_profile(&mut config, &add);
    let remove = Some(EditProfile::Remove { name: "work".to_string() });
    let (changed, out) = routine_profile(&mut config, &remove);
    assert!(changed);
    assert_eq!(out, ProfileOutcome::Removed);
    let names = listed_names(&mut config);
    assert!(!names.contains(&"work".to_string()));
    assert_eq!(names, vec!["default".to_string()]);
}

#[test]
fn default_profile_cannot_be_removed() {
    let mut config = Config::default();
    let remove = Some(EditProfile::Remove { name: "default".to_string() });
    let (changed, out) = routine_profile(&mut config, &remove);
    assert!(!changed);
    assert_eq!(out, ProfileOutcome::CannotRemoveDefault);
    let names = listed_names(&mut config);
    assert_eq!(names, vec!["default".to_string()]);
}

#[test]
fn new_default_cannot_be_removed_either() {
    let mut config = Config::default();
    let add = Some(EditProfile::Add { default: true, name: "work".to_string() });
    let (changed, out) = routine_profile(&mut config, &add);
    assert!(changed);
    assert_eq!(out, ProfileOutcome::Added { made_default: true });
    assert_eq!(config.default_profile, "work");
    let remove = Some(EditProfile::Remove { name: "work".to_string() });
    let (changed, out) = routine_profile(&mut config, &remove);
    assert!(!changed);
    assert_eq!(out, ProfileOutcome::CannotRemoveDefault);
}

#[test]
fn duplicate_profile_name_is_rejected() {
    let mut config = Config::default();
    let add = Some(EditProfile::Add { default: false, name: "work".to_string() });
    routine_profile(&mut config, &add);
    let (changed, out) = routine_profile(&mut config, &add);
    assert!(!changed);
    assert_eq!(out, ProfileOutcome::AlreadyExists);
}

#[test]
fn removing_missing_profile_is_rejected() {
    let mut config = Config::default();
    let remove = Some(EditProfile::Remove { name: "nope".to_string() });
    let (changed, out) = routine_profile(&mut config, &remove);
    assert!(!changed);
    assert_eq!(out, ProfileOutcome::NoSuchProfile);
}

#[test]
fn set_default_moves_profile_to_front_of_listing() {
    let mut config = Config::default();
    let add = Some(EditProfile::Add { default: false, name: "work".to_string() });
    routine_profile(&mut config, &add);
    let set = Some(EditProfile::SetDefault { name: "work".to_string() });
    let (changed, out) = routine_profile(&mut config, &set);
    assert!(changed);
    assert_eq!(out, ProfileOutcome::DefaultSet);
    let names = listed_names(&mut config);
    assert_eq!(names, vec!["work".to_string(), "default".to_string()]);
}

#[test]
fn set_default_to_missing_profile_is_rejected() {
    let mut config = Config::default();
    let set = Some(EditProfile::SetDefault { name: "nope".to_string() });
    let (changed, out) = routine_profile(&mut config, &set);
    assert!(!changed);
    assert_eq!(out, ProfileOutcome::NoSuchProfile);
    assert_eq!(config.default_profile, "default");
}

#[test]
fn check_wf_rejects_duplicate_names_and_missing_default() {
    let dup = Config {
        default_profile: "a".to_string(),
        profiles: vec![
            ProfileEntry { name: "a".to_string(), profile: Profile::default() },
            ProfileEntry { name: "a".to_string(), profile: Profile::default() },
        ],
    };
    assert!(!dup.check_wf());
    let missing = Config {
        default_profile: "b".to_string(),
        profiles: vec![ProfileEntry { name: "a".to_string(), profile: Profile::default() }],
    };
    assert!(!missing.check_wf());
}

use thorc::config::Config;
use thorc::config::ConfigError;
use thorc::remote_index::default_remote_index_path;
use thorc::remote_index::RemoteIndex;
use thorc::repo_def::GitProvider;
use thorc::repo_def::RepoDef;
use thorc::setup::finish_setup;
use thorc::setup::run_hook;
use thorc::setup::HookAction;
use thorc::setup::SetupAction;
use thorc::template::SetupKind;
use thorc::template::Template;

fn remote(name: &str, owner: &str) -> RemoteIndex {
    RemoteIndex {
        name: name.to_string(),
        description: None,
        repo: RepoDef {
            git_provider: GitProvider::GitHub,
            user: owner.to_string(),
            repo: "templates".to_string(),
            git_ref: "main".to_string(),
        },
        path: default_remote_index_path(),
    }
}

fn names(config: &Config) -> Vec<String> {
    config.remote_indexes.iter().map(|r| format!("{}:{}", r.name, r.repo.user)).collect()
}

#[test]
fn the_catalog_file_is_index_toml_by_default() {
    assert_eq!(default_remote_index_path(), "index.toml");
}

#[test]
fn remote_catalogs_are_added_at_the_end() {
    let mut config = Config { remote_indexes: Vec::new() };
    assert_eq!(config.add_remote_index(remote("one", "a")), Ok(()));
    assert_eq!(config.add_remote_index(remote("two", "b")), Ok(()));
    assert_eq!(config.add_remote_index(remote("one", "c")), Ok(()));
    assert_eq!(names(&config), vec!["one:a", "two:b", "one:c"]);
}

#[test]
fn no_remote_catalog_is_called_local() {
    let mut config = Config { remote_indexes: Vec::new() };
    assert_eq!(config.add_remote_index(remote("local", "a")), Err(ConfigError::ReservedName));
    assert!(config.remote_indexes.is_empty());
    assert_eq!(config.remove_remote_index("local"), Err(ConfigError::ReservedName));
}

#[test]
fn removing_takes_the_first_of_a_name() {
    let mut config = Config {
        remote_indexes: vec![remote("one", "a"), remote("two", "b"), remote("one", "c")],
    };
    assert_eq!(config.remove_remote_index("one"), Ok(()));
    assert_eq!(names(&config), vec!["two:b", "one:c"]);
    assert_eq!(config.remove_remote_index("three"), Err(ConfigError::NoSuchRemote));
    assert_eq!(config.remove_remote_index("one"), Ok(()));
    assert_eq!(config.remove_remote_index("one"), Err(ConfigError::NoSuchRemote));
    assert_eq!(names(&config), vec!["two:b"]);
}

#[test]
fn a_remote_catalog_is_found_by_its_name() {
    let config = Config {
        remote_indexes: vec![remote("one", "a"), remote("two", "b"), remote("one", "c")],
    };
    assert_eq!(config.find_remote("one").map(|r| r.repo.user.clone()), Some("a".to_string()));
    assert_eq!(config.find_remote("two").map(|r| r.repo.user.clone()), Some("b".to_string()));
    assert!(config.find_remote("on").is_none());
}

#[test]
fn a_copy_of_a_declaration_keeps_its_parts() {
    let mut r = remote("one", "a");
    r.description = Some("the first".to_string());
    let c = r.clone();
    assert_eq!(c.name, "one");
    assert_eq!(c.description, Some("the first".to_string()));
    assert_eq!(c.path, "index.toml");
    assert_eq!(c.repo.cache_file(), "github_a_templates_main");
}

fn template(setup: Option<SetupKind>) -> Template {
    Template::Repo {
        name: "t".to_string(),
        description: None,
        repo: RepoDef {
            git_provider: GitProvider::GitHub,
            user: "u".to_string(),
            repo: "r".to_string(),
            git_ref: "main".to_string(),
        },
        issue: None,
        setup,
    }
}

#[test]
fn a_hook_goes_before_the_kind_of_setup() {
    assert_eq!(finish_setup(true, &template(Some(SetupKind::Npm))), SetupAction::RunHook);
    assert_eq!(finish_setup(true, &template(None)), SetupAction::RunHook);
    assert_eq!(
        finish_setup(false, &template(Some(SetupKind::Npm))),
        SetupAction::RunScript(SetupKind::Npm)
    );
    assert_eq!(
        finish_setup(false, &template(Some(SetupKind::Rust))),
        SetupAction::RunScript(SetupKind::Rust)
    );
    assert_eq!(finish_setup(false, &template(None)), SetupAction::Nothing);
    let local = Template::Local {
        name: "l".to_string(),
        description: None,
        path: "/p".to_string(),
    };
    assert_eq!(finish_setup(false, &local), SetupAction::Nothing);
    assert_eq!(finish_setup(true, &local), SetupAction::RunHook);
}

#[test]
fn only_a_file_is_run_as_a_hook() {
    assert_eq!(run_hook(true, true), HookAction::Run);
    assert_eq!(run_hook(true, false), HookAction::NotAFile);
    assert_eq!(run_hook(false, false), HookAction::Missing);
    assert_eq!(run_hook(false, true), HookAction::Missing);
}

#[test]
fn loaded_catalogs_get_the_names_of_their_declarations() {
    let config = Config {
        remote_indexes: vec![remote("one", "a"), remote("two", "b")],
    };
    let loaded = vec![
        thorc::index::TemplateIndex::new(true),
        thorc::index::TemplateIndex::new(false),
    ];
    let named = config.get_all_remote_indexes_and_names(loaded);
    assert_eq!(named.len(), 2);
    assert_eq!(named[0].0, "one");
    assert!(named[0].1.for_remote());
    assert_eq!(named[1].0, "two");
    assert!(!named[1].1.for_remote());
}

#[test]
fn names_go_as_far_as_catalogs_and_declarations_both_go() {
    let config = Config { remote_indexes: vec![remote("one", "a")] };
    let loaded = vec![
        thorc::index::TemplateIndex::new(true),
        thorc::index::TemplateIndex::new(false),
    ];
    let named = config.get_all_remote_indexes_and_names(loaded);
    assert_eq!(named.len(), 1);
    assert_eq!(named[0].0, "one");
    let named = config.get_all_remote_indexes_and_names(Vec::new());
    assert!(named.is_empty());
}

#[test]
fn a_copy_of_a_configuration_holds_the_same_declarations() {
    let config = Config {
        remote_indexes: vec![remote("one", "a"), remote("two", "b")],
    };
    assert_eq!(names(&config.clone()), names(&config));
}

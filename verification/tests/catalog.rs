use thorc::error::CheckTemplateNameError;
use thorc::index::AddError;
use thorc::index::RemoveError;
use thorc::index::TemplateIndex;
use thorc::repo_def::GitProvider;
use thorc::repo_def::RepoDef;
use thorc::template::Template;

fn local(name: &str, description: Option<&str>) -> Template {
    Template::Local {
        name: name.to_string(),
        description: description.map(|d| d.to_string()),
        path: format!("/templates/{}", name),
    }
}

fn remote(name: &str, description: Option<&str>) -> Template {
    Template::Repo {
        name: name.to_string(),
        description: description.map(|d| d.to_string()),
        repo: RepoDef {
            git_provider: GitProvider::GitHub,
            user: "octo".to_string(),
            repo: name.to_string(),
            git_ref: "main".to_string(),
        },
        issue: None,
        setup: None,
    }
}

fn names(hits: &Vec<&Template>) -> Vec<String> {
    hits.iter().map(|t| t.name().to_string()).collect()
}

fn catalog_names(index: &TemplateIndex) -> Vec<String> {
    index.templates().iter().map(|t| t.name().to_string()).collect()
}

fn web_catalog() -> TemplateIndex {
    let mut index = TemplateIndex::new(false);
    assert!(index.insert(local("web-ui", None)));
    assert!(index.insert(local("web-api", Some("REST service"))));
    index
}

#[test]
fn a_term_in_both_names_fills_the_name_bucket() {
    let index = web_catalog();
    let found = index.find("web");
    assert!(found.name_and_description.is_empty());
    assert_eq!(names(&found.name_only), vec!["web-api", "web-ui"]);
    assert!(found.description_only.is_empty());
}

#[test]
fn the_search_is_exact_about_case() {
    let index = web_catalog();
    let found = index.find("rest");
    assert!(found.name_and_description.is_empty());
    assert!(found.name_only.is_empty());
    assert!(found.description_only.is_empty());
    let found = index.find("REST");
    assert!(found.name_and_description.is_empty());
    assert!(found.name_only.is_empty());
    assert_eq!(names(&found.description_only), vec!["web-api"]);
}

#[test]
fn a_term_in_a_description_only() {
    let mut index = TemplateIndex::new(false);
    index.insert(local("web-api", Some("rest service")));
    index.insert(local("web-ui", None));
    let found = index.find("rest");
    assert!(found.name_and_description.is_empty());
    assert!(found.name_only.is_empty());
    assert_eq!(names(&found.description_only), vec!["web-api"]);
}

#[test]
fn every_template_lands_in_one_place() {
    let mut index = TemplateIndex::new(false);
    index.insert(local("api-both", Some("an api")));
    index.insert(local("api-name", Some("something else")));
    index.insert(local("api-bare", None));
    index.insert(local("described", Some("talks to an api")));
    index.insert(local("other", Some("nothing")));
    index.insert(local("plain", None));
    let found = index.find("api");
    assert_eq!(names(&found.name_and_description), vec!["api-both"]);
    assert_eq!(names(&found.name_only), vec!["api-bare", "api-name"]);
    assert_eq!(names(&found.description_only), vec!["described"]);
    let total = found.name_and_description.len() + found.name_only.len()
        + found.description_only.len();
    assert_eq!(total, 4);
}

#[test]
fn the_empty_term_finds_everything() {
    let index = web_catalog();
    let found = index.find("");
    assert_eq!(names(&found.name_and_description), vec!["web-api"]);
    assert_eq!(names(&found.name_only), vec!["web-ui"]);
    assert!(found.description_only.is_empty());
}

#[test]
fn a_search_in_an_empty_catalog_finds_nothing() {
    let index = TemplateIndex::new(true);
    let found = index.find("web");
    assert!(found.name_and_description.is_empty());
    assert!(found.name_only.is_empty());
    assert!(found.description_only.is_empty());
    assert!(index.find_exact("web").is_none());
    assert_eq!(index.len(), 0);
}

#[test]
fn exact_lookup_takes_the_whole_name() {
    let index = web_catalog();
    assert!(index.find_exact("web").is_none());
    assert!(index.find_exact("web-").is_none());
    assert!(index.find_exact("web-apis").is_none());
    assert!(index.find_exact("Web-api").is_none());
    let t = index.find_exact("web-api").expect("the name is in the catalog");
    assert_eq!(t.name(), "web-api");
    assert_eq!(t.description(), Some(&"REST service".to_string()));
    let t = index.find_exact("web-ui").expect("the name is in the catalog");
    assert_eq!(t.name(), "web-ui");
}

#[test]
fn different_names_find_different_templates() {
    let index = web_catalog();
    let a = index.find_exact("web-api").expect("present");
    let b = index.find_exact("web-ui").expect("present");
    assert!(a != b);
    let count = index.templates().iter().filter(|t| t.name() == "web-api").count();
    assert_eq!(count, 1);
}

#[test]
fn the_catalog_is_kept_in_the_order_of_names() {
    let mut index = TemplateIndex::new(false);
    for name in ["m", "z", "a", "web-ui", "B", "web", "web-api", "0"] {
        assert!(index.insert(local(name, None)));
    }
    assert_eq!(
        catalog_names(&index),
        vec!["0", "B", "a", "m", "web", "web-api", "web-ui", "z"]
    );
    assert_eq!(index.len(), 8);
}

#[test]
fn a_second_insert_under_a_name_changes_nothing() {
    let mut index = web_catalog();
    let before: Vec<String> =
        index.templates().iter().map(|t| t.one_line_summary()).collect();
    assert!(!index.insert(remote("web-api", Some("another one"))));
    let after: Vec<String> =
        index.templates().iter().map(|t| t.one_line_summary()).collect();
    assert_eq!(before, after);
    let kept = index.find_exact("web-api").expect("still there");
    assert_eq!(kept.description(), Some(&"REST service".to_string()));
    assert_eq!(
        kept.one_line_summary(),
        "web-api => /templates/web-api REST service"
    );
}

#[test]
fn replacing_takes_a_remove_first() {
    let mut index = web_catalog();
    assert!(index.remove("web-api"));
    assert!(index.insert(remote("web-api", Some("another one"))));
    let now = index.find_exact("web-api").expect("there again");
    assert_eq!(now.description(), Some(&"another one".to_string()));
}

#[test]
fn removing_takes_the_named_template_only() {
    let mut index = web_catalog();
    assert!(!index.remove("web"));
    assert_eq!(catalog_names(&index), vec!["web-api", "web-ui"]);
    assert!(index.remove("web-ui"));
    assert_eq!(catalog_names(&index), vec!["web-api"]);
    assert!(!index.remove("web-ui"));
    assert!(index.remove("web-api"));
    assert_eq!(index.len(), 0);
}

#[test]
fn the_purpose_of_a_catalog_can_be_read_and_set() {
    let mut index = TemplateIndex::new(true);
    assert!(index.for_remote());
    index.set_for_remote(false);
    assert!(!index.for_remote());
    let index = TemplateIndex::new(false);
    assert!(!index.for_remote());
}

#[test]
fn adding_follows_the_rules() {
    let mut index = TemplateIndex::new(false);
    assert_eq!(index.add(local("one", None)), Ok(()));
    assert_eq!(index.add(remote("two", None)), Ok(()));
    assert_eq!(index.add(local("one", None)), Err(AddError::AlreadyExists));
    assert_eq!(index.add(remote("one", None)), Err(AddError::AlreadyExists));
    assert_eq!(
        index.add(local("no good", None)),
        Err(AddError::InvalidName(CheckTemplateNameError::InvalidCharacter {
            c: ' ',
            index: 2
        }))
    );
    assert_eq!(
        index.add(remote("no.good", None)),
        Err(AddError::InvalidName(CheckTemplateNameError::InvalidCharacter {
            c: '.',
            index: 2
        }))
    );
    assert_eq!(catalog_names(&index), vec!["one", "two"]);
}

#[test]
fn a_catalog_for_a_repository_takes_no_local_template() {
    let mut index = TemplateIndex::new(true);
    assert_eq!(index.add(local("one", None)), Err(AddError::LocalInRemote));
    assert_eq!(index.add(local("no good", None)), Err(AddError::LocalInRemote));
    assert_eq!(index.add(remote("one", None)), Ok(()));
    assert_eq!(catalog_names(&index), vec!["one"]);
}

#[test]
fn the_rules_are_asked_in_their_order() {
    let mut index = TemplateIndex::new(false);
    assert!(index.insert(local("no good", None)));
    assert_eq!(index.add(remote("no good", None)), Err(AddError::AlreadyExists));
    assert_eq!(
        index.add(local("no good", None)),
        Err(AddError::InvalidName(CheckTemplateNameError::InvalidCharacter {
            c: ' ',
            index: 2
        }))
    );
}

#[test]
fn removing_by_the_rules() {
    let mut index = web_catalog();
    assert_eq!(index.remove_named("web-api"), Ok(()));
    assert_eq!(index.remove_named("web-api"), Err(RemoveError::NotFound));
    assert_eq!(
        index.remove_named("web ui"),
        Err(RemoveError::InvalidName(CheckTemplateNameError::InvalidCharacter {
            c: ' ',
            index: 3
        }))
    );
    assert_eq!(catalog_names(&index), vec!["web-ui"]);
}

#[test]
fn a_catalog_made_of_a_list_is_ordered_and_keeps_the_first_of_a_name() {
    let index = TemplateIndex::from_templates(
        true,
        vec![
            local("web-ui", Some("first")),
            local("cli", None),
            remote("web-ui", Some("second")),
            local("api", None),
            local("cli", Some("again")),
        ],
    );
    assert!(index.for_remote());
    assert_eq!(catalog_names(&index), vec!["api", "cli", "web-ui"]);
    let kept = index.find_exact("web-ui").expect("present");
    assert_eq!(kept.description(), Some(&"first".to_string()));
    let kept = index.find_exact("cli").expect("present");
    assert_eq!(kept.description(), None);
    let empty = TemplateIndex::from_templates(false, Vec::new());
    assert_eq!(empty.len(), 0);
    assert!(!empty.for_remote());
}

#[test]
fn a_copy_of_a_catalog_holds_the_same_templates() {
    let index = web_catalog();
    let copy = index.clone();
    assert_eq!(catalog_names(&copy), catalog_names(&index));
    assert_eq!(copy.for_remote(), index.for_remote());
    let a: Vec<String> = index.templates().iter().map(|t| t.one_line_summary()).collect();
    let b: Vec<String> = copy.templates().iter().map(|t| t.one_line_summary()).collect();
    assert_eq!(a, b);
}

#[test]
fn a_copy_of_a_result_holds_the_same_hits() {
    let index = web_catalog();
    let found = index.find("web");
    let copy = found.clone();
    assert_eq!(names(&copy.name_only), names(&found.name_only));
    assert_eq!(copy.name_and_description.len(), 0);
    assert_eq!(copy.description_only.len(), 0);
    let composed = found.compose("x");
    let copy = composed.clone();
    assert_eq!(copy.name_only.len(), 2);
    assert_eq!(copy.name_only[0].0, "x");
    assert_eq!(copy.name_only[1].1.name(), "web-ui");
}

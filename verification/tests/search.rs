use thorc::find_result::FindResult;
use thorc::find_result::FindResultComposite;
use thorc::index::TemplateIndex;
use thorc::resolve::find_template;
use thorc::resolve::resolve;
use thorc::resolve::search_all;
use thorc::resolve::IndexName;
use thorc::ro::RO;
use thorc::template::Template;

fn local(name: &str, description: Option<&str>) -> Template {
    Template::Local {
        name: name.to_string(),
        description: description.map(|d| d.to_string()),
        path: format!("/templates/{}", name),
    }
}

fn catalog(entries: &[(&str, Option<&str>)]) -> TemplateIndex {
    let mut index = TemplateIndex::new(false);
    for (name, description) in entries {
        assert!(index.insert(local(name, *description)));
    }
    index
}

fn labelled(hits: &Vec<(&str, &Template)>) -> Vec<(String, String)> {
    hits.iter().map(|(l, t)| (l.to_string(), t.name().to_string())).collect()
}

fn pairs(items: &[(&str, &str)]) -> Vec<(String, String)> {
    items.iter().map(|(a, b)| (a.to_string(), b.to_string())).collect()
}

#[test]
fn composing_labels_every_hit() {
    let index = catalog(&[("web-api", Some("web service")), ("web-ui", None), ("cli", Some("no web"))]);
    let found = index.find("web");
    let composed = found.compose("mine");
    assert_eq!(labelled(&composed.name_and_description), pairs(&[("mine", "web-api")]));
    assert_eq!(labelled(&composed.name_only), pairs(&[("mine", "web-ui")]));
    assert_eq!(labelled(&composed.description_only), pairs(&[("mine", "cli")]));
}

#[test]
fn composing_an_empty_result_gives_an_empty_one() {
    let found = FindResult {
        name_and_description: Vec::new(),
        name_only: Vec::new(),
        description_only: Vec::new(),
    };
    let composed = found.compose("any");
    assert!(composed.name_and_description.is_empty());
    assert!(composed.name_only.is_empty());
    assert!(composed.description_only.is_empty());
}

#[test]
fn merging_puts_local_hits_before_remote_hits() {
    let here = catalog(&[("web-api", Some("web service")), ("web-ui", None), ("cli", Some("no web"))]);
    let there = catalog(&[("web-a", None), ("web-z", Some("web")), ("tool", Some("for the web"))]);
    let merged = here.find("web").compose("<local>").merge(there.find("web").compose("far"));
    assert_eq!(
        labelled(&merged.name_and_description),
        pairs(&[("<local>", "web-api"), ("far", "web-z")])
    );
    assert_eq!(
        labelled(&merged.name_only),
        pairs(&[("<local>", "web-ui"), ("far", "web-a")])
    );
    assert_eq!(
        labelled(&merged.description_only),
        pairs(&[("<local>", "cli"), ("far", "tool")])
    );
}

#[test]
fn merging_in_place_is_the_same_merge() {
    let here = catalog(&[("b", None), ("a", None)]);
    let there = catalog(&[("ab", None)]);
    let mut result = here.find("a").compose("one");
    result.merge_ref(there.find("a").compose("two"));
    assert_eq!(labelled(&result.name_only), pairs(&[("one", "a"), ("two", "ab")]));
    let empty = FindResultComposite {
        name_and_description: Vec::new(),
        name_only: Vec::new(),
        description_only: Vec::new(),
    };
    result.merge_ref(empty);
    assert_eq!(labelled(&result.name_only), pairs(&[("one", "a"), ("two", "ab")]));
}

#[test]
fn the_same_name_may_come_from_two_catalogs() {
    let here = catalog(&[("web", None)]);
    let there = catalog(&[("web", None)]);
    let merged = here.find("web").compose("a").merge(there.find("web").compose("b"));
    assert_eq!(labelled(&merged.name_only), pairs(&[("a", "web"), ("b", "web")]));
}

#[test]
fn a_search_over_all_catalogs_goes_in_order() {
    let here = catalog(&[("web-local", None)]);
    let remotes = vec![
        ("second", catalog(&[("web-2", None), ("x", Some("web"))])),
        ("first", catalog(&[("web-1", None)])),
        ("none", catalog(&[("nothing", None)])),
    ];
    let found = search_all(&here, &remotes, "web");
    assert!(found.name_and_description.is_empty());
    assert_eq!(
        labelled(&found.name_only),
        pairs(&[("<local>", "web-local"), ("second", "web-2"), ("first", "web-1")])
    );
    assert_eq!(labelled(&found.description_only), pairs(&[("second", "x")]));
}

#[test]
fn a_search_without_remote_catalogs_is_the_local_one() {
    let here = catalog(&[("web-local", None)]);
    let remotes: Vec<(&str, TemplateIndex)> = Vec::new();
    let found = search_all(&here, &remotes, "web");
    assert_eq!(labelled(&found.name_only), pairs(&[("<local>", "web-local")]));
}

#[test]
fn lookup_over_catalogs_takes_the_first_that_has_the_name() {
    let catalogs = vec![
        catalog(&[("a", Some("first"))]),
        catalog(&[("a", Some("second")), ("b", Some("second"))]),
        catalog(&[("b", Some("third")), ("c", None)]),
    ];
    let found = find_template(&catalogs, "a").expect("in the first");
    assert_eq!(found.description(), Some(&"first".to_string()));
    let found = find_template(&catalogs, "b").expect("in the second");
    assert_eq!(found.description(), Some(&"second".to_string()));
    let found = find_template(&catalogs, "c").expect("in the third");
    assert_eq!(found.name(), "c");
    assert!(find_template(&catalogs, "d").is_none());
    assert!(find_template(&[], "a").is_none());
}

#[test]
fn resolving_prefers_the_local_catalog() {
    let here = catalog(&[("a", Some("local"))]);
    let remotes = vec![catalog(&[("a", Some("remote")), ("b", Some("remote"))])];
    let found = resolve(None, &here, &remotes, "a").expect("found");
    assert_eq!(found.description(), Some(&"local".to_string()));
    let found = resolve(None, &here, &remotes, "b").expect("found");
    assert_eq!(found.description(), Some(&"remote".to_string()));
    assert!(resolve(None, &here, &remotes, "c").is_none());
}

#[test]
fn resolving_in_a_scope_asks_that_catalog_alone() {
    let here = catalog(&[("a", Some("local"))]);
    let remotes = vec![catalog(&[("b", Some("remote"))])];
    let scope = catalog(&[("c", Some("scoped"))]);
    assert!(resolve(Some(&scope), &here, &remotes, "a").is_none());
    assert!(resolve(Some(&scope), &here, &remotes, "b").is_none());
    let found = resolve(Some(&scope), &here, &remotes, "c").expect("found");
    assert_eq!(found.description(), Some(&"scoped".to_string()));
}

#[test]
fn the_word_local_names_the_local_catalog() {
    assert_eq!(IndexName::from("local"), IndexName::Local);
    assert_eq!(IndexName::from("Local"), IndexName::Remote("Local".to_string()));
    assert_eq!(IndexName::from("far"), IndexName::Remote("far".to_string()));
    assert_eq!(IndexName::from(""), IndexName::Remote(String::new()));
}

#[test]
fn borrowed_and_owned_read_alike() {
    let here = catalog(&[("a", None)]);
    let borrowed = RO::Ref(&here);
    let owned = RO::Owned(catalog(&[("b", None)]));
    assert!(borrowed.find_exact("a").is_some());
    assert!(borrowed.find_exact("b").is_none());
    assert!(owned.find_exact("b").is_some());
    assert_eq!(owned.len(), 1);
}

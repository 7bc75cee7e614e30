use thorc::repo_def::GitProvider;
use thorc::repo_def::RepoDef;
use thorc::template::SetupKind;
use thorc::template::Template;

fn repo(provider: GitProvider, user: &str, name: &str, git_ref: &str) -> RepoDef {
    RepoDef {
        git_provider: provider,
        user: user.to_string(),
        repo: name.to_string(),
        git_ref: git_ref.to_string(),
    }
}

#[test]
fn github_addresses() {
    let r = repo(GitProvider::GitHub, "octo", "skeleton", "main");
    assert_eq!(r.link(), "https://github.com/octo/skeleton/tree/main");
    assert_eq!(
        r.archive_link(),
        "https://github.com/octo/skeleton/archive/main.tar.gz"
    );
    assert_eq!(r.cache_file(), "github_octo_skeleton_main");
}

#[test]
fn gitlab_addresses() {
    let r = repo(GitProvider::GitLab, "octo", "skeleton", "v1.2");
    assert_eq!(r.link(), "https://gitlab.com/octo/skeleton/-/tree/v1.2");
    assert_eq!(
        r.archive_link(),
        "https://gitlab.com/api/v4/projects/octo%2Fskeleton/repository/archive.tar.gz?sha=v1.2"
    );
    assert_eq!(r.cache_file(), "gitlab_octo_skeleton_v1.2");
}

#[test]
fn parts_are_placed_unchecked() {
    let r = repo(GitProvider::GitHub, "", "a b", "x/y");
    assert_eq!(r.link(), "https://github.com//a b/tree/x/y");
    assert_eq!(r.cache_file(), "github__a b_x/y");
}

#[test]
fn a_copy_of_a_reference_has_its_parts() {
    let r = repo(GitProvider::GitLab, "u", "r", "dev");
    let c = r.clone();
    assert_eq!(c.git_provider, GitProvider::GitLab);
    assert_eq!(c.user, "u");
    assert_eq!(c.repo, "r");
    assert_eq!(c.git_ref, "dev");
}

fn repo_template(description: Option<&str>, issue: Option<usize>) -> Template {
    Template::Repo {
        name: "web-api".to_string(),
        description: description.map(|d| d.to_string()),
        repo: repo(GitProvider::GitHub, "octo", "skeleton", "main"),
        issue,
        setup: Some(SetupKind::Rust),
    }
}

#[test]
fn summary_with_description_and_issue() {
    assert_eq!(
        repo_template(Some("REST service"), Some(42)).one_line_summary(),
        "web-api => https://github.com/octo/skeleton/tree/main REST service [for issue 42]"
    );
}

#[test]
fn summary_with_description_only() {
    assert_eq!(
        repo_template(Some("REST service"), None).one_line_summary(),
        "web-api => https://github.com/octo/skeleton/tree/main REST service"
    );
}

#[test]
fn summary_with_issue_only() {
    assert_eq!(
        repo_template(None, Some(7)).one_line_summary(),
        "web-api => https://github.com/octo/skeleton/tree/main [for issue 7]"
    );
}

#[test]
fn summary_with_neither() {
    assert_eq!(
        repo_template(None, None).one_line_summary(),
        "web-api => https://github.com/octo/skeleton/tree/main"
    );
}

#[test]
fn summary_of_a_local_template() {
    let t = Template::Local {
        name: "scratch".to_string(),
        description: Some("my own".to_string()),
        path: "/home/me/scratch".to_string(),
    };
    assert_eq!(t.one_line_summary(), "scratch => /home/me/scratch my own");
    let t = Template::Local {
        name: "scratch".to_string(),
        description: None,
        path: "/home/me/scratch".to_string(),
    };
    assert_eq!(t.one_line_summary(), "scratch => /home/me/scratch");
}

#[test]
fn issue_numbers_are_written_in_decimal() {
    assert_eq!(
        repo_template(None, Some(0)).one_line_summary(),
        "web-api => https://github.com/octo/skeleton/tree/main [for issue 0]"
    );
    assert_eq!(
        repo_template(None, Some(1090)).one_line_summary(),
        "web-api => https://github.com/octo/skeleton/tree/main [for issue 1090]"
    );
    let line = repo_template(None, Some(usize::MAX)).one_line_summary();
    assert_eq!(
        line,
        format!(
            "web-api => https://github.com/octo/skeleton/tree/main [for issue {}]",
            usize::MAX
        )
    );
}

#[test]
fn accessors_give_name_and_description() {
    let t = repo_template(Some("REST service"), None);
    assert_eq!(t.name(), "web-api");
    assert_eq!(t.description(), Some(&"REST service".to_string()));
    let t = repo_template(None, None);
    assert_eq!(t.description(), None);
    let l = Template::Local {
        name: "l".to_string(),
        description: Some("d".to_string()),
        path: "p".to_string(),
    };
    assert_eq!(l.name(), "l");
    assert_eq!(l.description(), Some(&"d".to_string()));
}

#[test]
fn templates_are_equal_by_name_alone() {
    let a = repo_template(Some("one"), Some(1));
    let b = Template::Local {
        name: "web-api".to_string(),
        description: None,
        path: "/elsewhere".to_string(),
    };
    let c = Template::Local {
        name: "web-ap".to_string(),
        description: None,
        path: "/elsewhere".to_string(),
    };
    assert!(a == b);
    assert!(a != c);
}

#[test]
fn templates_are_ordered_by_name_alone() {
    let named = |n: &str| Template::Local {
        name: n.to_string(),
        description: None,
        path: "/p".to_string(),
    };
    assert!(named("a") < named("b"));
    assert!(named("B") < named("a"));
    assert!(named("web") < named("web-api"));
    assert!(named("web-api") < named("web-ui"));
    assert!(named("") < named("0"));
    assert!(named("z") > named("a-long-name"));
    assert!(named("same") <= named("same"));
    assert!(named("same") >= named("same"));
    assert_eq!(
        named("a").partial_cmp(&named("a")),
        Some(std::cmp::Ordering::Equal)
    );
    assert_eq!(
        named("\u{e9}").partial_cmp(&named("z")),
        Some("\u{e9}".cmp("z"))
    );
}

#[test]
fn a_copy_of_a_template_keeps_every_field() {
    let t = repo_template(Some("REST service"), Some(3));
    let c = t.clone();
    assert_eq!(c.one_line_summary(), t.one_line_summary());
    match c {
        Template::Repo { setup, issue, .. } => {
            assert_eq!(setup, Some(SetupKind::Rust));
            assert_eq!(issue, Some(3));
        }
        Template::Local { .. } => panic!("a copy of a repository template is one"),
    }
}

#[test]
fn an_issue_without_a_description_is_set_off_by_a_blank() {
    let t = Template::Repo {
        name: "t".to_string(),
        description: None,
        repo: repo(GitProvider::GitHub, "u", "r", "main"),
        issue: Some(7),
        setup: None,
    };
    let line = t.one_line_summary();
    assert_eq!(line, "t => https://github.com/u/r/tree/main [for issue 7]");
    assert_eq!(line.matches("for issue 7").count(), 1);
    assert_eq!(line.matches("for issue").count(), 1);
    assert!(line.starts_with("t => https://github.com/u/r/tree/main "));
}

//! Templates: an entry of a catalog is either a snapshot of a repository
//! or a directory on this machine. Entries are told apart, and ordered, by
//! name alone.

use std::cmp::Ordering;
use vstd::prelude::*;
use vstd::std_specs::cmp::PartialEqSpecImpl;
use vstd::std_specs::cmp::PartialOrdSpecImpl;
use vstd::string::StringExecFns;
use crate::error::CheckTemplateNameError;
use crate::repo_def::RepoDef;
use crate::repo_def::RepoDefView;
use crate::text::chars_of;
use crate::text::decimal;
use crate::text::precedes;
use crate::text::str_eq;
use crate::text::str_precedes;
use crate::text::usize_to_string;

verus! {

/// How a new project is set up when the template brings no hook of its own.
#[derive(Debug, Clone, Copy, PartialEq, Eq, Structural)]
pub enum SetupKind {
    Rust,
    Npm,
}

/// One entry of a catalog.
#[derive(Debug)]
pub enum Template {
    /// A snapshot of a repository.
    Repo {
        name: String,
        description: Option<String>,
        repo: RepoDef,
        /// The issue that the template was added from.
        issue: Option<usize>,
        setup: Option<SetupKind>,
    },
    /// A directory on this machine.
    Local { name: String, description: Option<String>, path: String },
}

/// A template as plain values.
pub enum TemplateView {
    Repo {
        name: Seq<char>,
        description: Option<Seq<char>>,
        repo: RepoDefView,
        issue: Option<usize>,
        setup: Option<SetupKind>,
    },
    Local { name: Seq<char>, description: Option<Seq<char>>, path: Seq<char> },
}

/// The view of an optional string.
pub open spec fn option_view(s: Option<String>) -> Option<Seq<char>> {
    match s {
        Some(t) => Some(t@),
        None => None,
    }
}

/// The words that name an issue.
pub open spec fn issue_text(n: usize) -> Seq<char> {
    "for issue "@ + decimal(n as nat)
}

/// What a summary line says after the link or path: the description,
/// then the issue in square brackets, each set off by a blank from what
/// stands before it; a part that is absent leaves nothing, its blank
/// included.
pub open spec fn extra_text(description: Option<Seq<char>>, issue: Option<usize>) -> Seq<char> {
    match (description, issue) {
        (Some(d), Some(n)) => " "@ + d + " ["@ + issue_text(n) + "]"@,
        (Some(d), None) => " "@ + d,
        (None, Some(n)) => " ["@ + issue_text(n) + "]"@,
        (None, None) => Seq::empty(),
    }
}

impl View for Template {
    type V = TemplateView;

    open spec fn view(&self) -> TemplateView {
        match *self {
            Template::Repo { name, description, repo, issue, setup } => TemplateView::Repo {
                name: name@,
                description: option_view(description),
                repo: repo@,
                issue,
                setup,
            },
            Template::Local { name, description, path } => TemplateView::Local {
                name: name@,
                description: option_view(description),
                path: path@,
            },
        }
    }
}

impl TemplateView {
    /// The name, by which alone entries are told apart.
    pub open spec fn name(self) -> Seq<char> {
        match self {
            TemplateView::Repo { name, .. } => name,
            TemplateView::Local { name, .. } => name,
        }
    }

    pub open spec fn description(self) -> Option<Seq<char>> {
        match self {
            TemplateView::Repo { description, .. } => description,
            TemplateView::Local { description, .. } => description,
        }
    }

    /// The summary line: the name, an arrow, the link of a repository or
    /// the path of a directory, and then what `extra_text` adds.
    pub open spec fn one_line_summary(self) -> Seq<char> {
        match self {
            TemplateView::Repo { name, description, repo, issue, .. } => name + " => "@
                + repo.link() + extra_text(description, issue),
            TemplateView::Local { name, description, path } => name + " => "@ + path
                + extra_text(description, None),
        }
    }
}

/// How two names stand to each other.
pub open spec fn name_order(a: Seq<char>, b: Seq<char>) -> Ordering {
    if a == b {
        Ordering::Equal
    } else if precedes(a, b) {
        Ordering::Less
    } else {
        Ordering::Greater
    }
}

impl PartialEq for Template {
    /// Two templates are equal when their names are.
    fn eq(&self, other: &Self) -> (r: bool) {
        str_eq(self.name(), other.name())
    }
}

impl PartialEqSpecImpl for Template {
    open spec fn obeys_eq_spec() -> bool {
        true
    }

    open spec fn eq_spec(&self, other: &Self) -> bool {
        self@.name() == other@.name()
    }
}

impl Eq for Template {

}

impl PartialOrd for Template {
    /// Templates are ordered as their names are.
    fn partial_cmp(&self, other: &Self) -> (r: Option<Ordering>) {
        if str_eq(self.name(), other.name()) {
            Some(Ordering::Equal)
        } else if str_precedes(self.name(), other.name()) {
            Some(Ordering::Less)
        } else {
            Some(Ordering::Greater)
        }
    }
}

impl PartialOrdSpecImpl for Template {
    open spec fn obeys_partial_cmp_spec() -> bool {
        true
    }

    open spec fn partial_cmp_spec(&self, other: &Self) -> Option<Ordering> {
        Some(name_order(self@.name(), other@.name()))
    }
}

/// A copy of an optional string.
fn clone_option(s: &Option<String>) -> (r: Option<String>)
    ensures
        option_view(r) == option_view(*s),
{
    match s {
        Some(t) => Some(t.clone()),
        None => None,
    }
}

impl Clone for Template {
    fn clone(&self) -> (r: Self)
        ensures
            r@ == self@,
    {
        match self {
            Template::Repo { name, description, repo, issue, setup } => Template::Repo {
                name: name.clone(),
                description: clone_option(description),
                repo: repo.clone(),
                issue: *issue,
                setup: *setup,
            },
            Template::Local { name, description, path } => Template::Local {
                name: name.clone(),
                description: clone_option(description),
                path: path.clone(),
            },
        }
    }
}

/// Appends to `line` what follows the link or path.
fn push_extra(line: &mut String, description: &Option<String>, issue: Option<usize>)
    ensures
        final(line)@ == old(line)@ + extra_text(option_view(*description), issue),
{
    match description {
        Some(d) => {
            line.append(" ");
            line.append(d.as_str());
            match issue {
                Some(n) => {
                    line.append(" [");
                    line.append("for issue ");
                    let digits = usize_to_string(n);
                    line.append(digits.as_str());
                    line.append("]");
                    assert(line@ =~= old(line)@ + extra_text(option_view(*description), issue));
                },
                None => {
                    assert(line@ =~= old(line)@ + extra_text(option_view(*description), issue));
                },
            }
        },
        None => {
            match issue {
                Some(n) => {
                    line.append(" [");
                    line.append("for issue ");
                    let digits = usize_to_string(n);
                    line.append(digits.as_str());
                    line.append("]");
                    assert(line@ =~= old(line)@ + extra_text(option_view(*description), issue));
                },
                None => {
                    assert(line@ =~= old(line)@ + extra_text(option_view(*description), issue));
                },
            }
        },
    }
}

impl Template {
    pub fn name(&self) -> (r: &str)
        ensures
            r@ == self@.name(),
    {
        match self {
            Template::Repo { name, .. } => name.as_str(),
            Template::Local { name, .. } => name.as_str(),
        }
    }

    pub fn description(&self) -> (r: Option<&String>)
        ensures
            match r {
                Some(d) => self@.description() == Some(d@),
                None => self@.description() is None,
            },
    {
        match self {
            Template::Repo { description, .. } => description.as_ref(),
            Template::Local { description, .. } => description.as_ref(),
        }
    }

    /// One line that names the template and says where it comes from.
    pub fn one_line_summary(&self) -> (r: String)
        ensures
            r@ == self@.one_line_summary(),
    {
        match self {
            Template::Repo { name, description, repo, issue, .. } => {
                let mut line = String::from_str(name.as_str());
                line.append(" => ");
                let link = repo.link();
                line.append(link.as_str());
                push_extra(&mut line, description, *issue);
                line
            },
            Template::Local { name, description, path } => {
                let mut line = String::from_str(name.as_str());
                line.append(" => ");
                line.append(path.as_str());
                push_extra(&mut line, description, None);
                line
            },
        }
    }
}

/// The characters that a template name may hold: the letters and digits of
/// ASCII, the hyphen and the underscore.
pub open spec fn valid_name_char(c: char) -> bool {
    ||| 'a' <= c <= 'z'
    ||| 'A' <= c <= 'Z'
    ||| '0' <= c <= '9'
    ||| c == '-'
    ||| c == '_'
}

/// Every character of `name` is allowed. The empty name passes.
pub open spec fn valid_name(name: Seq<char>) -> bool {
    forall|i: int| 0 <= i < name.len() ==> valid_name_char(#[trigger] name[i])
}

/// `e` reports the first character of `name` that is not allowed, with
/// its position counted in characters.
pub open spec fn reports_first_invalid(e: CheckTemplateNameError, name: Seq<char>) -> bool {
    match e {
        CheckTemplateNameError::InvalidCharacter { c, index } => {
            &&& index < name.len()
            &&& c == name[index as int]
            &&& !valid_name_char(c)
            &&& valid_name(name.take(index as int))
        },
    }
}

/// Checks a name before it is written into a catalog. The error reports
/// the first character that is not allowed, and its position.
pub fn check_template_name(name: &str) -> (r: Result<(), CheckTemplateNameError>)
    ensures
        match r {
            Ok(_) => valid_name(name@),
            Err(e) => reports_first_invalid(e, name@),
        },
{
    let chars = chars_of(name);
    let mut index: usize = 0;
    while index < chars.len()
        invariant
            index <= chars.len(),
            chars@ == name@,
            valid_name(name@.take(index as int)),
        decreases chars.len() - index,
    {
        let c = chars[index];
        let allowed = ('a' <= c && c <= 'z') || ('A' <= c && c <= 'Z') || ('0' <= c && c <= '9')
            || c == '-' || c == '_';
        if !allowed {
            return Err(CheckTemplateNameError::InvalidCharacter { c, index });
        }
        proof {
            assert forall|i: int| 0 <= i < index + 1 implies valid_name_char(
                #[trigger] name@.take(index + 1)[i],
            ) by {
                if i < index {
                    assert(name@.take(index as int)[i] == name@[i]);
                }
            }
        }
        index += 1;
    }
    proof {
        assert(name@.take(index as int) =~= name@);
    }
    Ok(())
}

} // verus!

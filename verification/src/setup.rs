//! What is done to a new project once the template has been copied.

use vstd::prelude::*;
use crate::template::SetupKind;
use crate::template::Template;
use crate::template::TemplateView;

verus! {

/// How the setup of a new project goes on.
#[derive(Debug, Clone, Copy, PartialEq, Eq, Structural)]
pub enum SetupAction {
    /// The template brought a setup hook: run it.
    RunHook,
    /// The template names a kind of setup: run the script of that kind.
    RunScript(SetupKind),
    /// Neither: nothing is run, and the user is told so.
    Nothing,
}

/// Whether a hook is run.
#[derive(Debug, Clone, Copy, PartialEq, Eq, Structural)]
pub enum HookAction {
    /// The hook is a file: run it.
    Run,
    /// Something is there under the hook's name, but it is not a file.
    NotAFile,
    /// There is no hook.
    Missing,
}

/// The setup that a template asks for when it brings no hook.
pub open spec fn setup_kind_of(t: TemplateView) -> Option<SetupKind> {
    match t {
        TemplateView::Repo { setup, .. } => setup,
        TemplateView::Local { .. } => None,
    }
}

/// A hook of the template goes before the kind of setup that it names.
pub open spec fn setup_action(hook_exists: bool, t: TemplateView) -> SetupAction {
    if hook_exists {
        SetupAction::RunHook
    } else {
        match setup_kind_of(t) {
            Some(kind) => SetupAction::RunScript(kind),
            None => SetupAction::Nothing,
        }
    }
}

/// Decides how a new project is set up, given whether the copied
/// template holds a setup hook.
pub fn finish_setup(hook_exists: bool, template: &Template) -> (r: SetupAction)
    ensures
        r == setup_action(hook_exists, template@),
{
    if hook_exists {
        SetupAction::RunHook
    } else {
        match template {
            Template::Repo { setup: Some(kind), .. } => SetupAction::RunScript(*kind),
            _ => SetupAction::Nothing,
        }
    }
}

/// Only a hook that is a file is run.
pub open spec fn hook_action(exists: bool, is_file: bool) -> HookAction {
    if !exists {
        HookAction::Missing
    } else if is_file {
        HookAction::Run
    } else {
        HookAction::NotAFile
    }
}

/// Decides whether to run a hook, given what is found under its name.
pub fn run_hook(exists: bool, is_file: bool) -> (r: HookAction)
    ensures
        r == hook_action(exists, is_file),
{
    if exists {
        if is_file {
            HookAction::Run
        } else {
            HookAction::NotAFile
        }
    } else {
        HookAction::Missing
    }
}

} // verus!

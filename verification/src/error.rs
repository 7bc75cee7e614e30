//! The error kinds of the library. Each offers its message as a `String`.

use vstd::prelude::*;
use vstd::string::StringExecFns;
use crate::text::decimal;
use crate::text::usize_to_string;

verus! {

/// A provider token that names neither of the two known providers.
#[derive(Debug, Clone, Copy, PartialEq, Eq, Structural)]
pub struct NoSuchGitProviderError;

impl NoSuchGitProviderError {
    /// The text shown for this error.
    pub fn message(&self) -> (r: String)
        ensures
            r@ == "no such git provider"@,
    {
        String::from_str("no such git provider")
    }
}

/// Why a template name was refused.
#[derive(Debug, Clone, Copy, PartialEq, Eq, Structural)]
pub enum CheckTemplateNameError {
    /// The character `c`, at position `index` counted in characters, is
    /// not allowed in a name.
    InvalidCharacter { c: char, index: usize },
}

/// How a character is written in messages: quoted, and escaped where it
/// cannot be shown as it is.
pub uninterp spec fn char_debug(c: char) -> Seq<char>;

/// A character as messages show it. This is `format!` with `{:?}` of the
/// standard library, whose work is not verified here: the contract only
/// gives the result its name, a function of the character alone.
#[verifier::external_body]
fn debug_char(c: char) -> (r: String)
    ensures
        r@ == char_debug(c),
{
    format!("{:?}", c)
}

impl CheckTemplateNameError {
    /// The text of the message.
    pub open spec fn message_text(self) -> Seq<char> {
        match self {
            CheckTemplateNameError::InvalidCharacter { c, index } => "invalid character "@
                + char_debug(c) + " at "@ + decimal(index as nat),
        }
    }

    /// The text shown for this error.
    pub fn message(&self) -> (r: String)
        ensures
            r@ == self.message_text(),
    {
        match self {
            CheckTemplateNameError::InvalidCharacter { c, index } => {
                let mut r = String::from_str("invalid character ");
                let shown = debug_char(*c);
                r.append(shown.as_str());
                r.append(" at ");
                let at = usize_to_string(*index);
                r.append(at.as_str());
                r
            },
        }
    }
}

} // verus!

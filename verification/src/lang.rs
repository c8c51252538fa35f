//! The language selector and its parser.

use vstd::prelude::*;
use vstd::string::*;
use crate::error::MakeProjectError;
use crate::text::str_equal;

verus! {

/// The two project languages this tool can scaffold.
#[derive(Debug, Clone, Copy, PartialEq, Eq, Structural)]
pub enum Language {
    Python,
    Rust,
}

/// The message carried by the error for an unrecognized language string.
pub open spec fn unknown_language_message(s: Seq<char>) -> Seq<char> {
    "parsing model from given command: `"@ + s + "`"@
}

impl Language {
    /// Parses a language selector: exactly "python" and "rust" are accepted,
    /// and anything else is an argument error naming the rejected string.
    pub fn from_str(s: &str) -> (r: Result<Language, MakeProjectError>)
        ensures
            s@ == "python"@ ==> r == Ok::<Language, MakeProjectError>(Language::Python),
            s@ == "rust"@ ==> r == Ok::<Language, MakeProjectError>(Language::Rust),
            s@ != "python"@ && s@ != "rust"@ ==> (r matches Err(
                MakeProjectError::ArgumentError(m),
            ) && m@ == unknown_language_message(s@)),
    {
        proof {
            // The two selectors differ in length, so at most one branch
            // below can be taken for any input.
            reveal_strlit("python");
            reveal_strlit("rust");
            assert("python"@.len() == 6);
            assert("rust"@.len() == 4);
        }
        if str_equal(s, "python") {
            Ok(Language::Python)
        } else if str_equal(s, "rust") {
            Ok(Language::Rust)
        } else {
            let msg = String::from_str("parsing model from given command: `").concat(s).concat(
                "`",
            );
            Err(MakeProjectError::ArgumentError(msg))
        }
    }
}

} // verus!

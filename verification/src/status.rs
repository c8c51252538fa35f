//! Mapping an external command's exit status to the library's result.

use vstd::prelude::*;
use vstd::string::*;
use crate::error::MakeProjectError;
use crate::text::{dec_int, i32_dec};

verus! {

/// The message carried by a process error for one exit code. The same
/// wording is used for every external command the tool runs.
pub open spec fn process_error_message(code: int) -> Seq<char> {
    "running `cargo new` command, exit code: "@ + dec_int(code)
}

/// Maps an exit code to the pipeline's result: zero is success, and any
/// other code becomes a process error carrying exactly that code.
pub fn check_status(code: i32) -> (r: Result<(), MakeProjectError>)
    ensures
        code == 0 ==> r == Ok::<(), MakeProjectError>(()),
        code != 0 ==> (r matches Err(MakeProjectError::Process(msg, c)) && c == code && msg@
            == process_error_message(code as int)),
{
    if code == 0 {
        Ok(())
    } else {
        let rendered = i32_dec(code);
        let msg = String::from_str("running `cargo new` command, exit code: ").concat(
            rendered.as_str(),
        );
        Err(MakeProjectError::Process(msg, code))
    }
}

} // verus!

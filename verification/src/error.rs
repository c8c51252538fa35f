//! The error type shared by every fallible operation of the library.

use vstd::prelude::*;

verus! {

/// Relies on std::io::Error as the opaque value produced by failed
/// filesystem operations; the library carries it but never inspects it.
#[verifier::external_type_specification]
#[verifier::external_body]
pub struct ExIoError(std::io::Error);

/// Everything that can go wrong while scaffolding a project: a bad
/// command-line argument, a failed filesystem operation, or an external
/// command that exited with a nonzero code (carried in the second field).
#[derive(Debug)]
pub enum MakeProjectError {
    ArgumentError(String),
    Io(std::io::Error),
    Process(String, i32),
}

impl From<std::io::Error> for MakeProjectError {
    fn from(e: std::io::Error) -> (r: MakeProjectError) {
        MakeProjectError::Io(e)
    }
}

impl vstd::std_specs::convert::FromSpecImpl<std::io::Error> for MakeProjectError {
    open spec fn obeys_from_spec() -> bool {
        true
    }

    open spec fn from_spec(e: std::io::Error) -> MakeProjectError {
        MakeProjectError::Io(e)
    }
}

} // verus!

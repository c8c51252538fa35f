//! Scaffolding planner for new Python and Rust projects.
//!
//! The library turns a language selector and a destination path into an
//! ordered list of bootstrap steps (create a directory, run an external
//! command, write a file) and maps the outcome of each step to a typed
//! error. Executing the steps is left to the surrounding program.

pub mod error;
pub mod lang;
pub mod paths;
pub mod plan;
pub mod status;
pub mod text;

pub use error::MakeProjectError;
pub use lang::Language;
pub use paths::compute_project_name;
pub use plan::{project_steps, python_project_steps, rust_project_steps, ProjectRequest, Step};
pub use status::check_status;

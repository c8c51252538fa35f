//! Bootstrap plans: the ordered steps that scaffold a project.
//!
//! Each language maps to a fixed, linear sequence of steps. The surrounding
//! program executes them in order and stops at the first failure, so the
//! order stated here is the order in which side effects can happen.

use vstd::prelude::*;
use vstd::string::*;
use crate::error::MakeProjectError;
use crate::lang::Language;
use crate::paths::{compute_project_name, project_name_of};
use crate::text::{join_path, spec_join};

verus! {

/// One bootstrap action: create the destination directory, run an external
/// command, or write a file with the given contents.
#[derive(Debug)]
pub enum Step {
    CreateDir { path: String },
    RunCommand { program: String, args: Vec<String> },
    WriteFile { path: String, contents: String },
}

/// The mathematical value of a `Step`: the same shape over character
/// sequences.
#[verifier::ext_equal]
pub enum StepView {
    CreateDir { path: Seq<char> },
    RunCommand { program: Seq<char>, args: Seq<Seq<char>> },
    WriteFile { path: Seq<char>, contents: Seq<char> },
}

impl View for Step {
    type V = StepView;

    open spec fn view(&self) -> StepView {
        match self {
            Step::CreateDir { path } => StepView::CreateDir { path: path@ },
            Step::RunCommand { program, args } => StepView::RunCommand {
                program: program@,
                args: args.deep_view(),
            },
            Step::WriteFile { path, contents } => StepView::WriteFile {
                path: path@,
                contents: contents@,
            },
        }
    }
}

impl DeepView for Step {
    type V = StepView;

    open spec fn deep_view(&self) -> StepView {
        self.view()
    }
}

/// The README contents for one project name.
pub open spec fn readme_text(name: Seq<char>) -> Seq<char> {
    "# "@ + name + "\n"@
}

/// The README-writing step for a destination path whose project name is
/// `name`.
pub open spec fn readme_step_view(path: Seq<char>, name: Seq<char>) -> StepView {
    StepView::WriteFile { path: spec_join(path, "README.md"@), contents: readme_text(name) }
}

/// The message carried by the error for a path that names no project.
pub open spec fn no_project_name_message() -> Seq<char> {
    "no final path component given"@
}

/// The steps that bootstrap a Python project at `path`: create the
/// destination directory, create a virtual environment under it, install
/// the interactive shell into that environment, then write the README.
pub open spec fn python_steps(path: Seq<char>, name: Seq<char>) -> Seq<StepView> {
    let venv = spec_join(path, "venv"@);
    seq![
        StepView::CreateDir { path },
        StepView::RunCommand { program: "python3"@, args: seq!["-m"@, "venv"@, venv] },
        StepView::RunCommand {
            program: spec_join(spec_join(venv, "bin"@), "pip"@),
            args: seq!["install"@, "ipython"@],
        },
        readme_step_view(path, name),
    ]
}

/// The steps that bootstrap a Rust project at `path`: run the package
/// manager's project scaffolder on the destination, then write the README.
pub open spec fn rust_steps(path: Seq<char>, name: Seq<char>) -> Seq<StepView> {
    seq![
        StepView::RunCommand { program: "cargo"@, args: seq!["new"@, path] },
        readme_step_view(path, name),
    ]
}

/// The bootstrap plan for one language.
pub open spec fn steps_for(language: Language, path: Seq<char>, name: Seq<char>) -> Seq<StepView> {
    match language {
        Language::Python => python_steps(path, name),
        Language::Rust => rust_steps(path, name),
    }
}

/// Builds the README-writing step for a destination path; fails when the
/// path names no project.
pub fn readme_step(path: &str) -> (r: Result<Step, MakeProjectError>)
    ensures
        r matches Ok(s) ==> project_name_of(path@) matches Some(name) && s@ == readme_step_view(
            path@,
            name,
        ),
        r is Err <==> project_name_of(path@) is None,
        r matches Err(e) ==> e matches MakeProjectError::ArgumentError(m) && m@
            == no_project_name_message(),
{
    match compute_project_name(path) {
        Some(name) => {
            let readme_path = join_path(path, "README.md");
            let contents = String::from_str("# ").concat(name.as_str()).concat("\n");
            Ok(Step::WriteFile { path: readme_path, contents })
        },
        None => Err(
            MakeProjectError::ArgumentError(String::from_str("no final path component given")),
        ),
    }
}

/// Builds the Python bootstrap plan for a destination path.
pub fn python_project_steps(path: &str) -> (r: Result<Vec<Step>, MakeProjectError>)
    ensures
        r matches Ok(v) ==> project_name_of(path@) matches Some(name) && v.deep_view()
            == python_steps(path@, name),
        r is Err <==> project_name_of(path@) is None,
        r matches Err(e) ==> e matches MakeProjectError::ArgumentError(m) && m@
            == no_project_name_message(),
{
    let readme = match readme_step(path) {
        Ok(s) => s,
        Err(e) => {
            return Err(e);
        },
    };
    let venv = join_path(path, "venv");
    let pip = join_path(join_path(venv.as_str(), "bin").as_str(), "pip");
    let mut venv_args: Vec<String> = Vec::new();
    venv_args.push(String::from_str("-m"));
    venv_args.push(String::from_str("venv"));
    venv_args.push(venv.clone());
    let mut pip_args: Vec<String> = Vec::new();
    pip_args.push(String::from_str("install"));
    pip_args.push(String::from_str("ipython"));
    let mut steps: Vec<Step> = Vec::new();
    steps.push(Step::CreateDir { path: String::from_str(path) });
    steps.push(Step::RunCommand { program: String::from_str("python3"), args: venv_args });
    steps.push(Step::RunCommand { program: pip, args: pip_args });
    steps.push(readme);
    proof {
        let name = project_name_of(path@)->Some_0;
        assert(steps.deep_view() =~~= python_steps(path@, name));
    }
    Ok(steps)
}

/// Builds the Rust bootstrap plan for a destination path.
pub fn rust_project_steps(path: &str) -> (r: Result<Vec<Step>, MakeProjectError>)
    ensures
        r matches Ok(v) ==> project_name_of(path@) matches Some(name) && v.deep_view()
            == rust_steps(path@, name),
        r is Err <==> project_name_of(path@) is None,
        r matches Err(e) ==> e matches MakeProjectError::ArgumentError(m) && m@
            == no_project_name_message(),
{
    let readme = match readme_step(path) {
        Ok(s) => s,
        Err(e) => {
            return Err(e);
        },
    };
    let mut new_args: Vec<String> = Vec::new();
    new_args.push(String::from_str("new"));
    new_args.push(String::from_str(path));
    let mut steps: Vec<Step> = Vec::new();
    steps.push(Step::RunCommand { program: String::from_str("cargo"), args: new_args });
    steps.push(readme);
    proof {
        let name = project_name_of(path@)->Some_0;
        assert(steps.deep_view() =~~= rust_steps(path@, name));
    }
    Ok(steps)
}

/// Builds the bootstrap plan for the selected language.
pub fn project_steps(language: &Language, path: &str) -> (r: Result<Vec<Step>, MakeProjectError>)
    ensures
        r matches Ok(v) ==> project_name_of(path@) matches Some(name) && v.deep_view()
            == steps_for(*language, path@, name),
        r is Err <==> project_name_of(path@) is None,
        r matches Err(e) ==> e matches MakeProjectError::ArgumentError(m) && m@
            == no_project_name_message(),
{
    match language {
        Language::Python => python_project_steps(path),
        Language::Rust => rust_project_steps(path),
    }
}

/// A request to scaffold one project: the selected language and the
/// destination path. Built once from command-line input and immutable for
/// the run.
#[derive(Debug)]
pub struct ProjectRequest {
    pub language: Language,
    pub path: String,
}

impl ProjectRequest {
    /// The bootstrap plan this request calls for.
    pub fn steps(&self) -> (r: Result<Vec<Step>, MakeProjectError>)
        ensures
            r matches Ok(v) ==> project_name_of(self.path@) matches Some(name) && v.deep_view()
                == steps_for(self.language, self.path@, name),
            r is Err <==> project_name_of(self.path@) is None,
            r matches Err(e) ==> e matches MakeProjectError::ArgumentError(m) && m@
                == no_project_name_message(),
    {
        project_steps(&self.language, self.path.as_str())
    }
}

/// Law: a Python bootstrap attempts directory creation first. The first
/// step of the plan creates the destination, and every external command in
/// the plan comes after it, so a failure to create the directory stops the
/// run before any subprocess is invoked.
pub proof fn lemma_python_dir_first(path: Seq<char>, name: Seq<char>)
    ensures
        python_steps(path, name).first() == (StepView::CreateDir { path }),
        forall|i: int|
            0 <= i < python_steps(path, name).len() && python_steps(path, name)[i] is RunCommand
                ==> i > 0,
{
}

/// Law: both bootstrap plans end by writing `README.md` under the
/// destination, containing exactly `# <name>` and a final newline, where
/// `name` is the project name the destination path denotes.
pub proof fn lemma_plans_end_with_readme(path: Seq<char>, name: Seq<char>)
    ensures
        python_steps(path, name).last() == readme_step_view(path, name),
        rust_steps(path, name).last() == readme_step_view(path, name),
        readme_step_view(path, name) matches StepView::WriteFile { path: rp, contents } && rp
            == spec_join(path, "README.md"@) && contents == "# "@ + name + "\n"@,
{
}

/// Law: the Rust plan consists of exactly one invocation of the package
/// manager's scaffolder on the destination path, followed by the README
/// write.
pub proof fn lemma_rust_plan_shape(path: Seq<char>, name: Seq<char>)
    ensures
        rust_steps(path, name).len() == 2,
        rust_steps(path, name)[0] == (StepView::RunCommand {
            program: "cargo"@,
            args: seq!["new"@, path],
        }),
        rust_steps(path, name)[1] == readme_step_view(path, name),
{
}

/// Law: the Python plan creates the destination, creates a virtual
/// environment in its `venv` subdirectory, installs the interactive shell
/// with that environment's own package installer, and writes the README.
pub proof fn lemma_python_plan_shape(path: Seq<char>, name: Seq<char>)
    ensures
        python_steps(path, name).len() == 4,
        python_steps(path, name)[0] == (StepView::CreateDir { path }),
        python_steps(path, name)[1] == (StepView::RunCommand {
            program: "python3"@,
            args: seq!["-m"@, "venv"@, spec_join(path, "venv"@)],
        }),
        python_steps(path, name)[2] == (StepView::RunCommand {
            program: spec_join(spec_join(spec_join(path, "venv"@), "bin"@), "pip"@),
            args: seq!["install"@, "ipython"@],
        }),
        python_steps(path, name)[3] == readme_step_view(path, name),
{
}

} // verus!

use mkproject::{
    project_steps, python_project_steps, rust_project_steps, Language, MakeProjectError,
    ProjectRequest, Step,
};

#[test]
fn rust_plan_scaffolds_then_writes_readme() {
    let steps = rust_project_steps("myproject").unwrap();
    assert_eq!(steps.len(), 2);
    match &steps[0] {
        Step::RunCommand { program, args } => {
            assert_eq!(program, "cargo");
            assert_eq!(args, &vec!["new".to_string(), "myproject".to_string()]);
        }
        other => panic!("expected a command, got {:?}", other),
    }
    match &steps[1] {
        Step::WriteFile { path, contents } => {
            assert_eq!(path, "myproject/README.md");
            assert_eq!(contents, "# myproject\n");
        }
        other => panic!("expected the readme write, got {:?}", other),
    }
}

#[test]
fn python_plan_runs_venv_pip_then_readme() {
    let steps = python_project_steps("/tmp/work/demo").unwrap();
    assert_eq!(steps.len(), 4);
    match &steps[0] {
        Step::CreateDir { path } => assert_eq!(path, "/tmp/work/demo"),
        other => panic!("expected directory creation, got {:?}", other),
    }
    match &steps[1] {
        Step::RunCommand { program, args } => {
            assert_eq!(program, "python3");
            assert_eq!(
                args,
                &vec!["-m".to_string(), "venv".to_string(), "/tmp/work/demo/venv".to_string()]
            );
        }
        other => panic!("expected the venv command, got {:?}", other),
    }
    match &steps[2] {
        Step::RunCommand { program, args } => {
            assert_eq!(program, "/tmp/work/demo/venv/bin/pip");
            assert_eq!(args, &vec!["install".to_string(), "ipython".to_string()]);
        }
        other => panic!("expected the install command, got {:?}", other),
    }
    match &steps[3] {
        Step::WriteFile { path, contents } => {
            assert_eq!(path, "/tmp/work/demo/README.md");
            assert_eq!(contents, "# demo\n");
        }
        other => panic!("expected the readme write, got {:?}", other),
    }
}

#[test]
fn python_plan_creates_the_directory_before_any_command() {
    let steps = python_project_steps("demo").unwrap();
    assert!(matches!(steps[0], Step::CreateDir { .. }));
    for step in &steps[1..] {
        assert!(!matches!(step, Step::CreateDir { .. }));
    }
}

#[test]
fn dispatch_follows_the_language() {
    let python = project_steps(&Language::Python, "demo").unwrap();
    assert_eq!(python.len(), 4);
    assert!(matches!(python[0], Step::CreateDir { .. }));
    let rust = project_steps(&Language::Rust, "demo").unwrap();
    assert_eq!(rust.len(), 2);
    assert!(matches!(rust[0], Step::RunCommand { .. }));
}

#[test]
fn a_request_plans_like_the_dispatcher() {
    let request = ProjectRequest { language: Language::Rust, path: "demo".to_string() };
    let steps = request.steps().unwrap();
    assert_eq!(steps.len(), 2);
    match &steps[1] {
        Step::WriteFile { path, contents } => {
            assert_eq!(path, "demo/README.md");
            assert_eq!(contents, "# demo\n");
        }
        other => panic!("expected the readme write, got {:?}", other),
    }
}

#[test]
fn a_path_without_a_name_is_rejected() {
    match project_steps(&Language::Rust, "/") {
        Err(MakeProjectError::ArgumentError(msg)) => {
            assert_eq!(msg, "no final path component given");
        }
        other => panic!("expected an argument error, got {:?}", other),
    }
    assert!(project_steps(&Language::Python, "work/..").is_err());
}

#[test]
fn a_trailing_dot_component_keeps_the_name_below_it() {
    let steps = rust_project_steps("demo/.").unwrap();
    match &steps[1] {
        Step::WriteFile { path, contents } => {
            assert_eq!(path, "demo/./README.md");
            assert_eq!(contents, "# demo\n");
        }
        other => panic!("expected the readme write, got {:?}", other),
    }
}

#[test]
fn readme_path_respects_a_trailing_separator() {
    let steps = rust_project_steps("demo/").unwrap();
    match &steps[1] {
        Step::WriteFile { path, contents } => {
            assert_eq!(path, "demo/README.md");
            assert_eq!(contents, "# demo\n");
        }
        other => panic!("expected the readme write, got {:?}", other),
    }
}

use mkproject::{check_status, MakeProjectError};

#[test]
fn zero_exit_is_success() {
    assert!(check_status(0).is_ok());
}

#[test]
fn nonzero_exit_carries_the_exact_code() {
    match check_status(101) {
        Err(MakeProjectError::Process(msg, code)) => {
            assert_eq!(code, 101);
            assert_eq!(msg, "running `cargo new` command, exit code: 101");
        }
        other => panic!("expected a process error, got {:?}", other),
    }
}

#[test]
fn single_digit_exit_code() {
    match check_status(7) {
        Err(MakeProjectError::Process(msg, code)) => {
            assert_eq!(code, 7);
            assert_eq!(msg, "running `cargo new` command, exit code: 7");
        }
        other => panic!("expected a process error, got {:?}", other),
    }
}

#[test]
fn negative_exit_code() {
    match check_status(-9) {
        Err(MakeProjectError::Process(msg, code)) => {
            assert_eq!(code, -9);
            assert_eq!(msg, "running `cargo new` command, exit code: -9");
        }
        other => panic!("expected a process error, got {:?}", other),
    }
}

#[test]
fn extreme_exit_codes() {
    match check_status(i32::MIN) {
        Err(MakeProjectError::Process(msg, code)) => {
            assert_eq!(code, i32::MIN);
            assert_eq!(msg, "running `cargo new` command, exit code: -2147483648");
        }
        other => panic!("expected a process error, got {:?}", other),
    }
    match check_status(i32::MAX) {
        Err(MakeProjectError::Process(msg, code)) => {
            assert_eq!(code, i32::MAX);
            assert_eq!(msg, "running `cargo new` command, exit code: 2147483647");
        }
        other => panic!("expected a process error, got {:?}", other),
    }
}

use mash::expect::{Fatal, LogExpect, FATAL_STATUS};

#[test]
fn a_value_that_is_there_is_given() {
    assert_eq!(Some(5).log_expect("no number"), Ok(5));
    let found: Result<&str, String> = Ok("here");
    assert_eq!(found.log_expect("nothing"), Ok("here"));
}

#[test]
fn a_missing_option_logs_the_message() {
    let missing: Option<i32> = None;
    assert_eq!(
        missing.log_expect("Failed to create editor"),
        Err(Fatal { lines: vec!["Failed to create editor".to_string()], status: 1 })
    );
    assert_eq!(FATAL_STATUS, 1);
}

#[test]
fn a_failure_logs_the_message_and_itself() {
    let failed: Result<i32, String> = Err("disk full".to_string());
    assert_eq!(
        failed.log_expect("Failed to save history file"),
        Err(Fatal {
            lines: vec!["Failed to save history file".to_string(), "disk full".to_string()],
            status: 1,
        })
    );
}

#[test]
fn a_failure_without_message_logs_itself_alone() {
    let failed: Result<i32, std::num::ParseIntError> = "x".parse::<i32>();
    assert_eq!(
        failed.log_expect(""),
        Err(Fatal { lines: vec!["invalid digit found in string".to_string()], status: 1 })
    );
}

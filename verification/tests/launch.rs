use mash::command::Command;
use mash::error::LaunchError;
use mash::launcher::{is_encodable, LaunchPlan};

fn strings(items: &[&str]) -> Vec<String> {
    items.iter().map(|s| s.to_string()).collect()
}

#[test]
fn texts_without_nul_can_be_handed_over() {
    assert!(is_encodable(""));
    assert!(is_encodable("echo"));
    assert!(is_encodable("héllo wörld"));
    assert!(!is_encodable("\0"));
    assert!(!is_encodable("a\0b"));
    assert!(!is_encodable("ab\0"));
    assert!(!is_encodable("\0ab"));
}

#[test]
fn encodable_agrees_with_the_bytes() {
    for text in ["", "plain", "nul\0inside", "\0", "tab\tand\nline", "ünï\0"] {
        assert_eq!(is_encodable(text), !text.as_bytes().contains(&0), "{:?}", text);
    }
}

#[test]
fn the_argument_vector_begins_with_the_name() {
    let plan = Command::parse("echo hello world").execute_external("/tmp").unwrap();
    assert_eq!(
        plan,
        LaunchPlan {
            program: "echo".to_string(),
            argv: strings(&["echo", "hello", "world"]),
            workdir: "/tmp".to_string(),
        }
    );
}

#[test]
fn a_command_without_arguments_has_its_name_as_argument_vector() {
    let plan = Command::parse("pwd").execute_external("/").unwrap();
    assert_eq!(plan.program, "pwd");
    assert_eq!(plan.argv, strings(&["pwd"]));
    assert_eq!(plan.workdir, "/");
}

#[test]
fn a_nul_in_the_name_is_an_encoding_failure() {
    let command = Command::new("pw\0d".to_string(), strings(&["x"]));
    assert_eq!(command.execute_external("/"), Err(LaunchError::Encoding));
}

#[test]
fn a_nul_in_an_argument_is_an_encoding_failure() {
    let command = Command::new("echo".to_string(), strings(&["fine", "not\0fine", "fine"]));
    assert_eq!(command.execute_external("/"), Err(LaunchError::Encoding));
    let command = Command::new("echo".to_string(), strings(&["\0"]));
    assert_eq!(command.execute_external("/"), Err(LaunchError::Encoding));
}

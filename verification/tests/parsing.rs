use mash::command::Command;
use mash::text::{characters, is_whitespace, same_text, split_words, trim};

fn strings(items: &[&str]) -> Vec<String> {
    items.iter().map(|s| s.to_string()).collect()
}

#[test]
fn whitespace_agrees_with_std_on_every_char() {
    let mut code: u32 = 0;
    while code <= 0x10FFFF {
        if let Some(c) = char::from_u32(code) {
            assert_eq!(is_whitespace(c), c.is_whitespace(), "U+{:04X}", code);
        }
        code += 1;
    }
}

#[test]
fn whitespace_knows_the_common_characters() {
    assert!(is_whitespace(' '));
    assert!(is_whitespace('\t'));
    assert!(is_whitespace('\n'));
    assert!(is_whitespace('\r'));
    assert!(is_whitespace('\u{000B}'));
    assert!(is_whitespace('\u{000C}'));
    assert!(is_whitespace('\u{0085}'));
    assert!(is_whitespace('\u{00A0}'));
    assert!(is_whitespace('\u{1680}'));
    assert!(is_whitespace('\u{2000}'));
    assert!(is_whitespace('\u{200A}'));
    assert!(is_whitespace('\u{2028}'));
    assert!(is_whitespace('\u{2029}'));
    assert!(is_whitespace('\u{202F}'));
    assert!(is_whitespace('\u{205F}'));
    assert!(is_whitespace('\u{3000}'));
    assert!(!is_whitespace('a'));
    assert!(!is_whitespace('\0'));
    assert!(!is_whitespace('\u{0008}'));
    assert!(!is_whitespace('\u{000E}'));
    assert!(!is_whitespace('\u{200B}'));
    assert!(!is_whitespace('\u{180E}'));
    assert!(!is_whitespace('/'));
}

#[test]
fn characters_are_in_order() {
    assert_eq!(characters(""), Vec::<char>::new());
    assert_eq!(characters("ab c"), vec!['a', 'b', ' ', 'c']);
    assert_eq!(characters("é\u{3000}z"), vec!['é', '\u{3000}', 'z']);
}

#[test]
fn same_text_compares_characters() {
    assert!(same_text("", ""));
    assert!(same_text("cd", "cd"));
    assert!(!same_text("cd", "cd "));
    assert!(!same_text("cd", "dc"));
    assert!(!same_text("", "x"));
}

#[test]
fn split_words_of_plain_line() {
    assert_eq!(split_words("ls -l /tmp"), strings(&["ls", "-l", "/tmp"]));
}

#[test]
fn split_words_of_blank_lines() {
    assert_eq!(split_words(""), Vec::<String>::new());
    assert_eq!(split_words(" "), Vec::<String>::new());
    assert_eq!(split_words(" \t\r\n  "), Vec::<String>::new());
    assert_eq!(split_words("\u{3000}\u{00A0}"), Vec::<String>::new());
}

#[test]
fn split_words_passes_over_runs_of_whitespace() {
    assert_eq!(split_words("  echo   hello\tworld \n"), strings(&["echo", "hello", "world"]));
    assert_eq!(split_words("a\u{2003}b"), strings(&["a", "b"]));
    assert_eq!(split_words("x"), strings(&["x"]));
    assert_eq!(split_words(" x"), strings(&["x"]));
    assert_eq!(split_words("x "), strings(&["x"]));
}

#[test]
fn split_words_knows_no_quotes() {
    assert_eq!(split_words("echo \"a b\" 'c d' e\\ f"), strings(&["echo", "\"a", "b\"", "'c", "d'", "e\\", "f"]));
}

#[test]
fn split_words_agrees_with_std() {
    let lines = [
        "",
        " ",
        "cd",
        "cd ..",
        "  grep -rn  'x y'\t./src  ",
        "héllo wörld\u{00A0}ünïcode",
        "a\u{200B}b c",
        "\u{1680}lead and trail\u{2029}",
        "one\ntwo\rthree\u{000B}four\u{000C}five",
    ];
    for line in lines {
        let expected: Vec<String> = line.split_whitespace().map(|s| s.to_string()).collect();
        assert_eq!(split_words(line), expected, "{:?}", line);
    }
}

#[test]
fn trim_takes_whitespace_from_both_ends() {
    assert_eq!(trim(""), "");
    assert_eq!(trim("   "), "");
    assert_eq!(trim("exit"), "exit");
    assert_eq!(trim("  exit\t\n"), "exit");
    assert_eq!(trim(" a b "), "a b");
    assert_eq!(trim("\u{3000}é \u{00A0}"), "é");
}

#[test]
fn trim_agrees_with_std() {
    let lines = ["", " ", "x", " x", "x ", "\t a  b \n", "\u{2028}p q\u{205F}", "no space"];
    for line in lines {
        assert_eq!(trim(line), line.trim(), "{:?}", line);
    }
}

#[test]
fn new_keeps_name_and_arguments() {
    let c = Command::new("ls".to_string(), strings(&["-l", "a b"]));
    assert_eq!(c.name, "ls");
    assert_eq!(c.args, strings(&["-l", "a b"]));
    assert!(!c.is_blank());
    let blank = Command::new(String::new(), Vec::new());
    assert!(blank.is_blank());
}

#[test]
fn parse_takes_the_first_word_as_name() {
    let c = Command::parse("echo hello world");
    assert_eq!(c.name, "echo");
    assert_eq!(c.args, strings(&["hello", "world"]));
}

#[test]
fn parse_of_a_single_word_has_no_arguments() {
    let c = Command::parse("  pwd ");
    assert_eq!(c.name, "pwd");
    assert!(c.args.is_empty());
    assert!(!c.is_blank());
}

#[test]
fn parse_of_a_blank_line_has_an_empty_name() {
    for line in ["", " ", "\t\t", " \n ", "\u{3000}"] {
        let c = Command::parse(line);
        assert_eq!(c.name, "");
        assert!(c.args.is_empty());
        assert!(c.is_blank());
    }
}

#[test]
fn parse_keeps_the_order_of_arguments() {
    let c = Command::parse("cmd 3 1 2 1");
    assert_eq!(c.args, strings(&["3", "1", "2", "1"]));
}

#[test]
fn parse_equals_new_of_the_words() {
    let line = "  cp  -r\tsrc   dst ";
    let mut words = split_words(line);
    let name = words.remove(0);
    assert_eq!(Command::parse(line), Command::new(name, words));
}

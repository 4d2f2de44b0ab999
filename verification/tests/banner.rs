use pi_extender::banner::format_ferris;

const MASCOT: &str = "
        \\
         \\
            _~^~^~_
        \\) /  o o  \\ (/
          '_   -   _'
          / '-----' \\
";

#[test]
fn short_message_is_said_on_one_line() {
    let expected = format!(" _____\n< Hi! >\n -----{MASCOT}");
    assert_eq!(format_ferris("Hi!"), expected);
}

#[test]
fn status_message_is_said_on_one_line() {
    let said = format_ferris("Repeater is up and running!");
    let lines: Vec<&str> = said.lines().collect();
    assert_eq!(lines[0], " _____________________________");
    assert_eq!(lines[1], "< Repeater is up and running! >");
    assert_eq!(lines[2], " -----------------------------");
    assert!(said.ends_with(MASCOT));
}

#[test]
fn runs_of_blanks_are_said_as_one_blank() {
    let said = format_ferris("Not   Found");
    assert!(said.contains("Not Found"));
    assert!(!said.contains("Not  Found"));
}

#[test]
fn empty_message_is_an_empty_bubble() {
    let said = format_ferris("");
    assert!(said.starts_with(" __\n"));
    assert!(said.ends_with(MASCOT));
}

#[test]
fn unusual_messages_are_said_too() {
    for message in ["日本語のメッセージ", "line one\nline two", "\t", "a", "é", "🦀🦀🦀", "x\u{0}y", "   "] {
        let said = format_ferris(message);
        assert!(said.ends_with(MASCOT), "{message:?}");
        assert_ne!(said, message);
    }
}

#[test]
fn saying_is_a_function_of_the_message() {
    assert_eq!(format_ferris("Unauthorized"), format_ferris("Unauthorized"));
    assert_ne!(format_ferris("Unauthorized"), format_ferris("Not Found"));
}

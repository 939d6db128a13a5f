use select_monitor::args::{parse_args, usage, Config, COMMAND_LINE_WORDS, USAGE_STATUS};

fn command_line(words: &[&str]) -> Vec<String> {
    words.iter().map(|word| word.to_string()).collect()
}

#[test]
fn three_arguments_are_accepted() {
    let parsed = parse_args(&command_line(&["monitor", "10.0.0.1:9042", "cassandra", "secret"]));
    assert_eq!(
        parsed,
        Some(Config {
            contact_point: "10.0.0.1:9042".to_string(),
            username: "cassandra".to_string(),
            password: "secret".to_string(),
        })
    );
}

#[test]
fn arguments_are_taken_as_they_come() {
    let parsed = parse_args(&command_line(&["", "", "not a user", "p w\n"])).expect("accepted");
    assert_eq!(parsed.contact_point, "");
    assert_eq!(parsed.username, "not a user");
    assert_eq!(parsed.password, "p w\n");
}

#[test]
fn any_other_number_of_arguments_is_refused() {
    assert_eq!(parse_args(&command_line(&[])), None);
    assert_eq!(parse_args(&command_line(&["monitor"])), None);
    assert_eq!(parse_args(&command_line(&["monitor", "host"])), None);
    assert_eq!(parse_args(&command_line(&["monitor", "host", "user"])), None);
    assert_eq!(parse_args(&command_line(&["monitor", "host", "user", "pass", "more"])), None);
    let many: Vec<String> = (0..100).map(|n| n.to_string()).collect();
    assert_eq!(parse_args(&many), None);
}

#[test]
fn usage_names_the_three_arguments() {
    assert_eq!(usage(), "Usage: cargo run -- <contact_point> <username> <password>");
}

#[test]
fn a_malformed_command_line_leaves_with_status_one() {
    assert_eq!(USAGE_STATUS, 1);
    assert_eq!(COMMAND_LINE_WORDS, 4);
}

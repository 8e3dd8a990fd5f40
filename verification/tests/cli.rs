use emc::cli::{optional_cli_flag, parse_bool_flag, parse_observed_flag, parse_shared_flag, required_cli_flag};

fn args(raw: &[&str]) -> Vec<String> {
    raw.iter().map(|s| (*s).to_owned()).collect()
}

#[test]
fn a_flag_value_is_the_argument_after_its_first_occurrence() {
    let a = args(&["add", "--slug", "open-ticket", "--slug", "other"]);
    assert_eq!(optional_cli_flag(&a, "--slug"), Some("open-ticket"));
    assert_eq!(optional_cli_flag(&a, "--name"), None);
    let trailing = args(&["add", "--slug"]);
    assert_eq!(optional_cli_flag(&trailing, "--slug"), None);
    let value_is_flag = args(&["--slug", "--slug", "x"]);
    assert_eq!(optional_cli_flag(&value_is_flag, "--slug"), Some("--slug"));
}

#[test]
fn a_required_flag_without_a_value_is_refused() {
    let a = args(&["add", "--name", "Open ticket"]);
    assert_eq!(required_cli_flag(&a, "--name").unwrap(), "Open ticket");
    assert_eq!(required_cli_flag(&a, "--slug").unwrap_err().message(), "--slug is required");
}

#[test]
fn boolean_flags_accept_exactly_true_or_false() {
    assert_eq!(parse_bool_flag("true").unwrap(), true);
    assert_eq!(parse_bool_flag("false").unwrap(), false);
    assert_eq!(parse_bool_flag(" true").unwrap_err().message(), "expected true or false");
    assert_eq!(parse_observed_flag("yes").unwrap_err().message(), "invalid observed flag: expected true or false");
    assert_eq!(parse_shared_flag("TRUE").unwrap_err().message(), "invalid shared flag: expected true or false");
    assert_eq!(parse_shared_flag("false").unwrap(), false);
}

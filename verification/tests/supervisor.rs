use jj_gh::supervisor::{clone_command, parse_directory, CloneOutcome, Invocation};
use regex::Regex;

fn strings(items: &[&str]) -> Vec<String> {
    items.iter().map(|s| s.to_string()).collect()
}

#[test]
fn directory_is_read_from_the_report() {
    assert_eq!(
        parse_directory("Fetching into new repo in \"fork-of-proj\""),
        Some("fork-of-proj".to_string())
    );
    assert_eq!(
        parse_directory("Fetching into new repo in \"/home/alice/src/proj\""),
        Some("/home/alice/src/proj".to_string())
    );
}

#[test]
fn white_space_round_the_report_is_set_aside() {
    assert_eq!(
        parse_directory("  Fetching into new repo in \"proj\" \t\r"),
        Some("proj".to_string())
    );
    assert_eq!(
        parse_directory("\u{a0}Fetching into new repo in \" proj \"\u{2003}"),
        Some(" proj ".to_string())
    );
}

#[test]
fn path_may_be_empty_or_hold_quotes() {
    assert_eq!(parse_directory("Fetching into new repo in \"\""), Some(String::new()));
    assert_eq!(
        parse_directory("Fetching into new repo in \"a\"b\""),
        Some("a\"b".to_string())
    );
    assert_eq!(parse_directory("Fetching into new repo in \"dé\""), Some("dé".to_string()));
}

#[test]
fn other_lines_report_nothing() {
    assert_eq!(parse_directory(""), None);
    assert_eq!(parse_directory("Fetching into new repo in \""), None);
    assert_eq!(parse_directory("Fetching into new repo in proj"), None);
    assert_eq!(parse_directory("Fetching into new repo in \"proj"), None);
    assert_eq!(parse_directory("Fetching into new repo in \"proj\"."), None);
    assert_eq!(parse_directory("fetching into new repo in \"proj\""), None);
    assert_eq!(parse_directory("> Fetching into new repo in \"proj\""), None);
    assert_eq!(parse_directory("Fetching into new repo in \"a\nb\""), None);
    assert_eq!(parse_directory("remote: Counting objects: 12, done."), None);
}

fn by_expression(line: &str) -> Option<String> {
    let expression = Regex::new(r#"^Fetching into new repo in "(.*)"$"#).unwrap();
    expression.captures(line.trim()).map(|c| c.get(1).unwrap().as_str().to_string())
}

#[test]
fn agrees_with_the_regular_expression() {
    let heads = ["", " ", "\t\t", "\n", "x", "\u{3000}", "Fetching"];
    let bodies = [
        "Fetching into new repo in \"proj\"",
        "Fetching into new repo in \"\"",
        "Fetching into new repo in \"",
        "Fetching into new repo in \"a b\"",
        "Fetching into new repo in \"a\"\"",
        "Fetching into new repo in \"a\nb\"",
        "Fetching into new repo in \"a\rb\"",
        "Fetching into new repo  in \"a\"",
        "Fetching into new repo in 'a'",
        "",
        "\"",
    ];
    let tails = ["", " ", "\r", "\n", "\"", " x", "\u{85}"];
    for head in heads {
        for body in bodies {
            for tail in tails {
                let line = format!("{head}{body}{tail}");
                assert_eq!(parse_directory(&line), by_expression(&line), "line {line:?}");
            }
        }
    }
}

#[test]
fn first_report_wins() {
    let mut outcome = CloneOutcome::new();
    assert_eq!(outcome, CloneOutcome { discovered_directory: None, exit_success: false });
    outcome.observe_line("Nothing changed.");
    assert_eq!(outcome.discovered_directory, None);
    outcome.observe_line("Fetching into new repo in \"first\"");
    assert_eq!(outcome.discovered_directory, Some("first".to_string()));
    outcome.observe_line("Fetching into new repo in \"second\"");
    assert_eq!(outcome.discovered_directory, Some("first".to_string()));
}

#[test]
fn same_line_twice_counts_once() {
    let line = "Fetching into new repo in \"proj\"";
    let mut once = CloneOutcome::new();
    once.observe_line(line);
    let mut twice = CloneOutcome::new();
    twice.observe_line(line);
    twice.observe_line(line);
    assert_eq!(once, twice);
    assert_eq!(twice.discovered_directory, Some("proj".to_string()));
}

#[test]
fn finish_records_the_exit_and_keeps_the_directory() {
    let mut outcome = CloneOutcome::new();
    outcome.observe_line("Fetching into new repo in \"proj\"");
    outcome.finish(true);
    assert_eq!(
        outcome,
        CloneOutcome { discovered_directory: Some("proj".to_string()), exit_success: true }
    );
    outcome.finish(false);
    assert_eq!(
        outcome,
        CloneOutcome { discovered_directory: Some("proj".to_string()), exit_success: false }
    );
}

#[test]
fn clone_command_in_its_shortest_form() {
    assert_eq!(
        clone_command("https://github.com/alice/proj", None, false, &Vec::new()),
        Invocation {
            program: "jj".to_string(),
            args: strings(&["git", "clone", "https://github.com/alice/proj"]),
        }
    );
}

#[test]
fn clone_command_in_its_longest_form() {
    assert_eq!(
        clone_command(
            "https://example.com/some/raw.git",
            Some("dest dir"),
            true,
            &strings(&["--remote", "origin", "--depth=1"]),
        ),
        Invocation {
            program: "jj".to_string(),
            args: strings(&[
                "git",
                "clone",
                "--colocate",
                "https://example.com/some/raw.git",
                "dest dir",
                "--remote",
                "origin",
                "--depth=1",
            ]),
        }
    );
}

#[test]
fn clone_command_with_one_option_each() {
    assert_eq!(
        clone_command("u", None, true, &Vec::new()).args,
        strings(&["git", "clone", "--colocate", "u"])
    );
    assert_eq!(
        clone_command("u", Some("d"), false, &Vec::new()).args,
        strings(&["git", "clone", "u", "d"])
    );
    assert_eq!(
        clone_command("u", None, false, &strings(&["--", "-x"])).args,
        strings(&["git", "clone", "u", "--", "-x"])
    );
}

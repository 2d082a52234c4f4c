use mkfile::options::{Options, ParsedArguments};
use mkfile::tokenize::{classify_token, parse_args, ParseOutcome, TokenClass};

fn strings(items: &[&str]) -> Vec<String> {
    items.iter().map(|s| s.to_string()).collect()
}

#[test]
fn classify_token_kinds() {
    assert_eq!(classify_token(""), TokenClass::Invalid);
    assert_eq!(classify_token("-"), TokenClass::Invalid);
    assert_eq!(classify_token("--"), TokenClass::Invalid);
    assert_eq!(classify_token("---"), TokenClass::Invalid);
    assert_eq!(classify_token("--verbose"), TokenClass::LongOption);
    assert_eq!(classify_token("--a-"), TokenClass::LongOption);
    assert_eq!(classify_token("-vp"), TokenClass::ShortCluster);
    assert_eq!(classify_token("-x"), TokenClass::ShortCluster);
    assert_eq!(classify_token("file.txt"), TokenClass::PathArg);
    assert_eq!(classify_token("a/b/c.txt"), TokenClass::PathArg);
}

#[test]
fn long_flags_all_set() {
    let args = strings(&["--dry", "--verbose", "--parents", "--overwrite"]);
    let expected = ParseOutcome::Parsed(ParsedArguments {
        options: Options {
            dry_run: true,
            verbose: true,
            create_parents: true,
            overwrite: true,
            default_text: None,
        },
        wrong_options: vec![],
        paths: vec![],
    });
    assert_eq!(parse_args(&args), expected);
}

#[test]
fn short_flags_single_letter_forms() {
    let args = strings(&["-d", "-v", "-p", "-o"]);
    match parse_args(&args) {
        ParseOutcome::Parsed(p) => {
            assert!(p.options.dry_run);
            assert!(p.options.verbose);
            assert!(p.options.create_parents);
            assert!(p.options.overwrite);
            assert!(p.wrong_options.is_empty());
            assert!(p.paths.is_empty());
        }
        other => panic!("unexpected outcome: {:?}", other),
    }
}

#[test]
fn short_cluster_expands() {
    let args = strings(&["-vp", "x.txt"]);
    match parse_args(&args) {
        ParseOutcome::Parsed(p) => {
            assert!(p.options.verbose);
            assert!(p.options.create_parents);
            assert!(!p.options.dry_run);
            assert!(!p.options.overwrite);
            assert_eq!(p.paths, strings(&["x.txt"]));
        }
        other => panic!("unexpected outcome: {:?}", other),
    }
}

#[test]
fn dash_only_tokens_are_wrong_options() {
    let args = strings(&["-", "--", ""]);
    match parse_args(&args) {
        ParseOutcome::Parsed(p) => {
            assert_eq!(p.wrong_options, strings(&["-", "--", ""]));
            assert!(p.paths.is_empty());
        }
        other => panic!("unexpected outcome: {:?}", other),
    }
}

#[test]
fn text_consumes_next_token() {
    let args = strings(&["-T", "hello", "x.txt"]);
    match parse_args(&args) {
        ParseOutcome::Parsed(p) => {
            assert_eq!(p.options.default_text, Some("hello".to_string()));
            assert_eq!(p.paths, strings(&["x.txt"]));
        }
        other => panic!("unexpected outcome: {:?}", other),
    }
}

#[test]
fn text_consumes_option_looking_token() {
    let args = strings(&["-T", "-v", "x"]);
    match parse_args(&args) {
        ParseOutcome::Parsed(p) => {
            assert_eq!(p.options.default_text, Some("-v".to_string()));
            assert!(!p.options.verbose);
            assert_eq!(p.paths, strings(&["x"]));
        }
        other => panic!("unexpected outcome: {:?}", other),
    }
}

#[test]
fn text_without_value_fails() {
    let args = strings(&["-T"]);
    assert_eq!(parse_args(&args), ParseOutcome::MissingText);
}

#[test]
fn text_twice_fails() {
    let args = strings(&["-T", "a", "-T", "b"]);
    assert_eq!(parse_args(&args), ParseOutcome::DuplicateText);
}

#[test]
fn cluster_with_text_consumes_following_token() {
    let args = strings(&["-vT", "hi", "f"]);
    match parse_args(&args) {
        ParseOutcome::Parsed(p) => {
            assert!(p.options.verbose);
            assert_eq!(p.options.default_text, Some("hi".to_string()));
            assert_eq!(p.paths, strings(&["f"]));
        }
        other => panic!("unexpected outcome: {:?}", other),
    }
}

#[test]
fn help_short_circuits_everything() {
    let args = strings(&["--help", "-q", "x.txt"]);
    assert_eq!(parse_args(&args), ParseOutcome::Help);
}

#[test]
fn version_short_circuits() {
    let args = strings(&["--version", "x.txt"]);
    assert_eq!(parse_args(&args), ParseOutcome::Version);
}

#[test]
fn unrecognized_options_collected_in_order() {
    let args = strings(&["-q", "--weird", "x"]);
    match parse_args(&args) {
        ParseOutcome::Parsed(p) => {
            assert_eq!(p.wrong_options, strings(&["q", "weird"]));
            assert_eq!(p.paths, strings(&["x"]));
        }
        other => panic!("unexpected outcome: {:?}", other),
    }
}

#[test]
fn help_spelled_as_short_cluster_is_not_help() {
    let args = strings(&["-help"]);
    match parse_args(&args) {
        ParseOutcome::Parsed(p) => {
            assert_eq!(p.wrong_options, strings(&["h", "e", "l"]));
            assert!(p.options.create_parents);
        }
        other => panic!("unexpected outcome: {:?}", other),
    }
}

#[test]
fn paths_keep_input_order() {
    let args = strings(&["b.txt", "-v", "a.txt", "c.txt"]);
    match parse_args(&args) {
        ParseOutcome::Parsed(p) => {
            assert_eq!(p.paths, strings(&["b.txt", "a.txt", "c.txt"]));
        }
        other => panic!("unexpected outcome: {:?}", other),
    }
}

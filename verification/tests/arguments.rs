use catr::args::{get_args, resolve, ArgsError, Matches, Refusal};

fn tokens(items: &[&str]) -> Vec<String> {
    items.iter().map(|t| t.to_string()).collect()
}

fn files(items: &[&str]) -> Vec<String> {
    tokens(items)
}

#[test]
fn no_sources_means_standard_input() {
    let config = get_args(&tokens(&["catr"])).unwrap();
    assert_eq!(config.files(), &files(&["-"]));
    assert!(!config.number_lines());
    assert!(!config.number_nonblank_lines());
}

#[test]
fn no_tokens_at_all_means_standard_input() {
    let config = get_args(&tokens(&[])).unwrap();
    assert_eq!(config.files(), &files(&["-"]));
}

#[test]
fn sources_keep_their_order() {
    let config = get_args(&tokens(&["catr", "b.txt", "-", "a.txt", "b.txt"])).unwrap();
    assert_eq!(config.files(), &files(&["b.txt", "-", "a.txt", "b.txt"]));
}

#[test]
fn short_n_numbers_all_lines() {
    let config = get_args(&tokens(&["catr", "-n", "hoge.txt", "fuga.txt"])).unwrap();
    assert_eq!(config.files(), &files(&["hoge.txt", "fuga.txt"]));
    assert!(config.number_lines());
    assert!(!config.number_nonblank_lines());
}

#[test]
fn long_number_numbers_all_lines() {
    let config = get_args(&tokens(&["catr", "a.txt", "--number"])).unwrap();
    assert_eq!(config.files(), &files(&["a.txt"]));
    assert!(config.number_lines());
    assert!(!config.number_nonblank_lines());
}

#[test]
fn short_b_numbers_nonblank_lines() {
    let config = get_args(&tokens(&["catr", "-b"])).unwrap();
    assert_eq!(config.files(), &files(&["-"]));
    assert!(!config.number_lines());
    assert!(config.number_nonblank_lines());
}

#[test]
fn long_number_nonblank_numbers_nonblank_lines() {
    let config = get_args(&tokens(&["catr", "--number-nonblank", "a.txt"])).unwrap();
    assert!(!config.number_lines());
    assert!(config.number_nonblank_lines());
}

#[test]
fn both_flags_are_refused() {
    for line in [["catr", "-n", "-b"], ["catr", "-b", "-n"], ["catr", "--number", "--number-nonblank"]] {
        match get_args(&tokens(&line)) {
            Err(ArgsError::Rejected { message, use_stderr }) => {
                assert!(use_stderr);
                assert!(!message.is_empty());
            }
            other => panic!("expected a refusal, got {:?}", other),
        }
    }
}

#[test]
fn unknown_flag_is_refused() {
    match get_args(&tokens(&["catr", "--squeeze"])) {
        Err(ArgsError::Rejected { message, use_stderr }) => {
            assert!(use_stderr);
            assert!(message.contains("--squeeze"));
        }
        other => panic!("expected a refusal, got {:?}", other),
    }
}

#[test]
fn help_goes_to_standard_output() {
    match get_args(&tokens(&["catr", "--help"])) {
        Err(ArgsError::Rejected { message, use_stderr }) => {
            assert!(!use_stderr);
            assert!(message.contains("Rust cat"));
            assert!(message.contains("--number-nonblank"));
        }
        other => panic!("expected the help text, got {:?}", other),
    }
}

#[test]
fn version_goes_to_standard_output() {
    match get_args(&tokens(&["catr", "-V"])) {
        Err(ArgsError::Rejected { use_stderr, .. }) => assert!(!use_stderr),
        other => panic!("expected the version text, got {:?}", other),
    }
}

#[test]
fn parsing_twice_gives_the_same_configuration() {
    let line = tokens(&["catr", "-b", "x", "y"]);
    let first = get_args(&line).unwrap();
    let second = get_args(&line).unwrap();
    assert_eq!(first.files(), second.files());
    assert_eq!(first.number_lines(), second.number_lines());
    assert_eq!(first.number_nonblank_lines(), second.number_nonblank_lines());
}

#[test]
fn resolve_keeps_matched_values() {
    let matches = Matches { files: Some(files(&["a", "b"])), number_lines: false, number_nonblank_lines: true };
    let config = resolve(Ok(matches)).unwrap();
    assert_eq!(config.files(), &files(&["a", "b"]));
    assert!(!config.number_lines());
    assert!(config.number_nonblank_lines());
}

#[test]
fn resolve_defaults_to_standard_input() {
    let absent = Matches { files: None, number_lines: true, number_nonblank_lines: false };
    let config = resolve(Ok(absent)).unwrap();
    assert_eq!(config.files(), &files(&["-"]));
    assert!(config.number_lines());
    let empty = Matches { files: Some(vec![]), number_lines: false, number_nonblank_lines: false };
    assert_eq!(resolve(Ok(empty)).unwrap().files(), &files(&["-"]));
}

#[test]
fn resolve_refuses_both_flags() {
    let matches = Matches { files: Some(files(&["a"])), number_lines: true, number_nonblank_lines: true };
    assert!(matches!(resolve(Ok(matches)), Err(ArgsError::ConflictingFlags)));
}

#[test]
fn resolve_passes_a_refusal_on() {
    let refusal = Refusal { message: "no".to_string(), use_stderr: true };
    match resolve(Err(refusal)) {
        Err(ArgsError::Rejected { message, use_stderr }) => {
            assert_eq!(message, "no");
            assert!(use_stderr);
        }
        other => panic!("expected a refusal, got {:?}", other),
    }
}

use minishell::tokenizer::{is_separator, tokenize};

fn words(line: &str) -> Vec<String> {
    tokenize(line)
}

#[test]
fn splits_on_runs_of_spaces() {
    assert_eq!(words("  cd   /tmp  "), vec!["cd".to_string(), "/tmp".to_string()]);
}

#[test]
fn empty_line_has_no_words() {
    assert_eq!(words(""), Vec::<String>::new());
}

#[test]
fn blank_line_has_no_words() {
    assert_eq!(words("   "), Vec::<String>::new());
    assert_eq!(words(" \t\n \n"), Vec::<String>::new());
}

#[test]
fn single_word_is_kept_whole() {
    assert_eq!(words("exit"), vec!["exit".to_string()]);
    assert_eq!(words("exit\n"), vec!["exit".to_string()]);
    assert_eq!(words("\texit"), vec!["exit".to_string()]);
}

#[test]
fn tabs_and_newlines_separate_words() {
    assert_eq!(
        words("ls\t-la\n/tmp\n"),
        vec!["ls".to_string(), "-la".to_string(), "/tmp".to_string()]
    );
}

#[test]
fn words_keep_their_order() {
    assert_eq!(
        words("c b a b"),
        vec!["c".to_string(), "b".to_string(), "a".to_string(), "b".to_string()]
    );
}

#[test]
fn quotes_and_backslashes_mean_nothing() {
    assert_eq!(
        words("echo \"a b\" c\\ d 'e'"),
        vec![
            "echo".to_string(),
            "\"a".to_string(),
            "b\"".to_string(),
            "c\\".to_string(),
            "d".to_string(),
            "'e'".to_string()
        ]
    );
}

#[test]
fn pipes_and_redirections_are_plain_words() {
    assert_eq!(
        words("ls | wc > out $HOME *"),
        vec![
            "ls".to_string(),
            "|".to_string(),
            "wc".to_string(),
            ">".to_string(),
            "out".to_string(),
            "$HOME".to_string(),
            "*".to_string()
        ]
    );
}

#[test]
fn characters_beyond_ascii_stay_in_their_words() {
    assert_eq!(
        words(" caf\u{e9}  \u{65e5}\u{672c}\u{8a9e}\t\u{1f600} "),
        vec!["caf\u{e9}".to_string(), "\u{65e5}\u{672c}\u{8a9e}".to_string(), "\u{1f600}".to_string()]
    );
}

#[test]
fn only_space_tab_and_newline_separate() {
    assert!(is_separator(' '));
    assert!(is_separator('\t'));
    assert!(is_separator('\n'));
    assert!(!is_separator('a'));
    assert!(!is_separator('\r'));
    assert!(!is_separator('\u{a0}'));
    assert_eq!(words("a\rb c"), vec!["a\rb".to_string(), "c".to_string()]);
}

#[test]
fn no_word_is_empty_or_holds_a_separator() {
    let lines = ["", " ", "a", " a", "a ", "a b", "  ab \t cd\n\nef  ", "\t\t x \n"];
    for line in lines {
        for word in words(line) {
            assert!(!word.is_empty());
            assert!(!word.chars().any(is_separator));
        }
    }
}

#[test]
fn words_put_end_to_end_are_the_line_without_separators() {
    let lines = ["", " ", "a", " a", "a ", "a b", "  ab \t cd\n\nef  ", "\t\t x \n"];
    for line in lines {
        let joined: String = words(line).concat();
        let stripped: String = line.chars().filter(|c| !is_separator(*c)).collect();
        assert_eq!(joined, stripped);
    }
}

#[test]
fn a_line_with_a_word_character_has_a_word() {
    assert_eq!(words(" \t x \n").len(), 1);
    assert_eq!(words("x").len(), 1);
}

#[test]
fn words_joined_by_single_spaces_split_into_the_same_words() {
    let expected = vec!["cd".to_string(), "/tmp".to_string(), "x|y".to_string()];
    assert_eq!(words(&expected.join(" ")), expected);
    for line in ["", "  a  b ", "\tls\n-la\n", "one"] {
        let first = words(line);
        assert_eq!(words(&first.join(" ")), first);
    }
}

use cicada_tools::history::expand_token;
use cicada_tools::history::extend_bandband;
use cicada_tools::history::is_single_quote;
use cicada_tools::history::rebuild_line;
use cicada_tools::history::should_expand;
use cicada_tools::history::token_expands;
use cicada_tools::shell::Shell;

fn pairs(items: &[(&str, &str)]) -> Vec<(String, String)> {
    items
        .iter()
        .map(|(sep, text)| (sep.to_string(), text.to_string()))
        .collect()
}

fn session(previous_cmd: &str) -> Shell {
    let mut sh = Shell::new();
    sh.previous_cmd = previous_cmd.to_string();
    sh
}

#[test]
fn new_session_has_no_previous_command() {
    assert_eq!(Shell::new().previous_cmd, "");
}

#[test]
fn unquoted_marker_is_expanded() {
    let sh = session("foo");
    let mut line = "echo !!".to_string();
    let replaced = extend_bandband(&sh, &mut line, &pairs(&[("", "echo"), ("", "!!")]));
    assert_eq!(line, "echo foo");
    assert!(replaced);
}

#[test]
fn double_quoted_marker_is_expanded() {
    let sh = session("foo");
    let mut line = "echo \"!!\"".to_string();
    let replaced = extend_bandband(&sh, &mut line, &pairs(&[("", "echo"), ("\"", "!!")]));
    assert_eq!(line, "echo \"foo\"");
    assert!(replaced);
}

#[test]
fn single_quoted_marker_is_kept() {
    let sh = session("foo");
    let mut line = "echo '!!'".to_string();
    let replaced = extend_bandband(&sh, &mut line, &pairs(&[("", "echo"), ("'", "!!")]));
    assert_eq!(line, "echo '!!'");
    assert!(!replaced);
}

#[test]
fn mixed_markers_are_told_apart() {
    let sh = session("foo");
    let mut line = "echo '!!' && echo !!".to_string();
    let replaced = extend_bandband(
        &sh,
        &mut line,
        &pairs(&[("", "echo"), ("'", "!!"), ("", "&&"), ("", "echo"), ("", "!!")]),
    );
    assert_eq!(line, "echo '!!' && echo foo");
    assert!(replaced);
}

#[test]
fn line_without_marker_is_untouched() {
    let sh = session("foo");
    let mut line = "ls   -l  ".to_string();
    let replaced = extend_bandband(&sh, &mut line, &pairs(&[("", "ls"), ("", "-l")]));
    assert_eq!(line, "ls   -l  ");
    assert!(!replaced);

    let mut single = "echo !".to_string();
    let replaced = extend_bandband(&sh, &mut single, &pairs(&[("", "echo"), ("", "!")]));
    assert_eq!(single, "echo !");
    assert!(!replaced);
}

#[test]
fn empty_history_leaves_the_line() {
    let sh = Shell::new();
    let mut line = "echo  !!  ".to_string();
    let replaced = extend_bandband(&sh, &mut line, &pairs(&[("", "echo"), ("", "!!")]));
    assert_eq!(line, "echo  !!  ");
    assert!(!replaced);
}

#[test]
fn expansion_normalizes_spacing() {
    let sh = session("make test");
    let mut line = "time    !!   ".to_string();
    let replaced = extend_bandband(&sh, &mut line, &pairs(&[("", "time"), ("", "!!")]));
    assert_eq!(line, "time make test");
    assert!(replaced);
}

#[test]
fn previous_command_is_inserted_verbatim() {
    let sh = session("echo $HOME ${1} $$ !!");
    let mut line = "sudo !!".to_string();
    extend_bandband(&sh, &mut line, &pairs(&[("", "sudo"), ("", "!!")]));
    assert_eq!(line, "sudo echo $HOME ${1} $$ !!");
}

#[test]
fn every_marker_of_a_token_is_replaced() {
    let sh = session("x");
    let mut line = "a!!b!!c !!!".to_string();
    extend_bandband(&sh, &mut line, &pairs(&[("", "a!!b!!c"), ("", "!!!")]));
    assert_eq!(line, "axbxc x!");
}

#[test]
fn line_is_rebuilt_from_the_tokens_given() {
    let sh = session("foo");
    let mut line = "!!".to_string();
    let replaced = extend_bandband(&sh, &mut line, &pairs(&[]));
    assert_eq!(line, "");
    assert!(!replaced);
}

#[test]
fn expansion_needs_a_marker_and_a_previous_command() {
    assert!(should_expand(&session("foo"), "echo !!"));
    assert!(should_expand(&session("foo"), "echo '!!'"));
    assert!(!should_expand(&session("foo"), "echo !"));
    assert!(!should_expand(&session(""), "echo !!"));
    assert!(!should_expand(&Shell::new(), ""));
}

#[test]
fn expand_token_by_separator() {
    assert_eq!(expand_token("foo", "", "!!"), ("foo".to_string(), true));
    assert_eq!(expand_token("foo", "\"", "say !!"), ("say foo".to_string(), true));
    assert_eq!(expand_token("foo", "'", "say !!"), ("say !!".to_string(), false));
    assert_eq!(expand_token("foo", "", "plain"), ("plain".to_string(), false));
    assert_eq!(expand_token("", "", "a!!"), ("a".to_string(), true));
}

#[test]
fn token_expands_outside_single_quotes_only() {
    assert!(token_expands("", "!!"));
    assert!(token_expands("\"", "x!!y"));
    assert!(!token_expands("'", "!!"));
    assert!(!token_expands("", "!"));
    assert!(!token_expands("", ""));
}

#[test]
fn single_quote_is_recognized() {
    assert!(is_single_quote("'"));
    assert!(!is_single_quote(""));
    assert!(!is_single_quote("\""));
    assert!(!is_single_quote("''"));
}

#[test]
fn rebuild_line_joins_and_trims() {
    assert_eq!(rebuild_line(&pairs(&[])), "");
    assert_eq!(rebuild_line(&pairs(&[("", "ls")])), "ls");
    assert_eq!(
        rebuild_line(&pairs(&[("", "echo"), ("'", "a b"), ("\"", "c")])),
        "echo 'a b' \"c\""
    );
    assert_eq!(rebuild_line(&pairs(&[("", "a"), ("", "b \t")])), "a b");
    assert_eq!(rebuild_line(&pairs(&[("", "a"), ("'", "b ")])), "a 'b '");
    assert_eq!(rebuild_line(&pairs(&[("", ""), ("", "")])), "");
}

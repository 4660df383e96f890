use cicada_tools::extend_bandband;
use cicada_tools::is_alias;
use cicada_tools::shell;

fn tokens(pairs: &[(&str, &str)]) -> Vec<(String, String)> {
    pairs
        .iter()
        .map(|(sep, text)| (sep.to_string(), text.to_string()))
        .collect()
}

#[test]
fn test_is_alias() {
    assert!(is_alias("alias ls='ls -lh'"));
}

#[test]
fn test_extend_bandband() {
    let mut sh = shell::Shell::new();
    sh.previous_cmd = "foo".to_string();

    let mut line = "echo !!".to_string();
    extend_bandband(&sh, &mut line, &tokens(&[("", "echo"), ("", "!!")]));
    assert_eq!(line, "echo foo");

    line = "echo \"!!\"".to_string();
    extend_bandband(&sh, &mut line, &tokens(&[("", "echo"), ("\"", "!!")]));
    assert_eq!(line, "echo \"foo\"");

    line = "echo '!!'".to_string();
    extend_bandband(&sh, &mut line, &tokens(&[("", "echo"), ("'", "!!")]));
    assert_eq!(line, "echo '!!'");

    line = "echo '!!' && echo !!".to_string();
    extend_bandband(
        &sh,
        &mut line,
        &tokens(&[("", "echo"), ("'", "!!"), ("", "&&"), ("", "echo"), ("", "!!")]),
    );
    assert_eq!(line, "echo '!!' && echo foo");
}

use cicada_tools::environment::env_args_to_command_line;
use cicada_tools::environment::get_rc_file;
use cicada_tools::environment::get_user_completer_dir;
use cicada_tools::environment::is_flag_c;

fn args(items: &[&str]) -> Vec<String> {
    items.iter().map(|s| s.to_string()).collect()
}

#[test]
fn completer_dir_is_below_home() {
    assert_eq!(get_user_completer_dir("/home/mike"), "/home/mike/.cicada/completers");
    assert_eq!(get_user_completer_dir(""), "/.cicada/completers");
}

#[test]
fn rc_file_is_in_home() {
    assert_eq!(get_rc_file("/home/mike"), "/home/mike/.cicadarc");
    assert_eq!(get_rc_file(""), "/.cicadarc");
}

#[test]
fn command_line_skips_program_and_flag() {
    assert_eq!(env_args_to_command_line(&args(&["cicada", "-c", "echo hi"])), "echo hi");
    assert_eq!(env_args_to_command_line(&args(&["cicada", "-c", "echo", "hi"])), "echohi");
    assert_eq!(env_args_to_command_line(&args(&["cicada", "a", "-c", "b", "-c"])), "ab");
    assert_eq!(env_args_to_command_line(&args(&["-c", "x"])), "x");
    assert_eq!(env_args_to_command_line(&args(&["cicada", "-cx", "--c"])), "-cx--c");
}

#[test]
fn command_line_of_a_bare_start_is_empty() {
    assert_eq!(env_args_to_command_line(&args(&["cicada"])), "");
    assert_eq!(env_args_to_command_line(&args(&[])), "");
    assert_eq!(env_args_to_command_line(&args(&["cicada", "-c"])), "");
}

#[test]
fn command_flag_is_recognized() {
    assert!(is_flag_c("-c"));
    assert!(!is_flag_c("-C"));
    assert!(!is_flag_c("-c "));
    assert!(!is_flag_c(""));
}

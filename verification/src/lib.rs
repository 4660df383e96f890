//! Lexical front-end of an interactive shell: line classification, history
//! expansion and token re-quoting, with machine-checked contracts.

pub mod classify;
pub mod environment;
pub mod history;
pub mod pattern;
pub mod quoting;
pub mod shell;
pub mod text;

pub use classify::arithmetic_of;
pub use classify::classify;
pub use classify::is_alias;
pub use classify::is_arithmetic;
pub use classify::is_env;
pub use classify::is_export_env;
pub use classify::should_extend_brace;
pub use classify::tag_of;
pub use classify::ClassificationResult;
pub use environment::env_args_to_command_line;
pub use environment::get_rc_file;
pub use environment::get_user_completer_dir;
pub use history::expand_token;
pub use history::extend_bandband;
pub use history::rebuild_line;
pub use history::should_expand;
pub use history::token_expands;
pub use pattern::matched;
pub use pattern::re_contains;
pub use pattern::replace_matches;
pub use pattern::try_contains;
pub use pattern::PatternError;
pub use quoting::unescape;
pub use quoting::unquote;
pub use quoting::wrap_sep_string;
pub use shell::Shell;
pub use text::trim_end;

//! What the shell derives from the process environment. The caller reads
//! the environment; these functions compute on what it read.

use vstd::prelude::*;

verus! {

/// Where the completers live, below the home directory.
pub const COMPLETER_DIR: &'static str = "/.cicada/completers";

/// The name of the run-commands file, in the home directory.
pub const RC_FILE: &'static str = ".cicadarc";

/// The user's completer directory, given the user's home directory.
pub fn get_user_completer_dir(home: &str) -> (dir: String)
    ensures
        dir@ == home@ + COMPLETER_DIR@,
{
    String::from_str(home).concat(COMPLETER_DIR)
}

/// The user's run-commands file, given the user's home directory.
pub fn get_rc_file(home: &str) -> (file: String)
    ensures
        file@ == home@ + seq!['/'] + RC_FILE@,
{
    proof {
        reveal_strlit("/");
        assert("/"@ =~= seq!['/']);
    }
    String::from_str(home).concat("/").concat(RC_FILE)
}

/// The arguments as character sequences.
pub open spec fn arg_texts(args: Seq<String>) -> Seq<Seq<char>> {
    Seq::new(args.len(), |i: int| args[i]@)
}

/// Whether `arg` is the flag `-c`, which announces a command and is not
/// part of it.
pub open spec fn is_command_flag(arg: Seq<char>) -> bool {
    arg.len() == 2 && arg[0] == '-' && arg[1] == 'c'
}

/// What the first `n` arguments add to the command line: each one as it
/// stands, nothing between them, but for the program's name, which comes
/// first, and for every `-c`.
pub open spec fn command_text(args: Seq<Seq<char>>, n: int) -> Seq<char>
    decreases n,
{
    if n <= 1 || n > args.len() {
        Seq::empty()
    } else if is_command_flag(args[n - 1]) {
        command_text(args, n - 1)
    } else {
        command_text(args, n - 1) + args[n - 1]
    }
}

/// Decides `is_command_flag`.
pub fn is_flag_c(arg: &str) -> (b: bool)
    ensures
        b == is_command_flag(arg@),
{
    arg.unicode_len() == 2 && arg.get_char(0) == '-' && arg.get_char(1) == 'c'
}

/// The command line that the process was started with, given all its
/// arguments, the program's name first.
pub fn env_args_to_command_line(args: &Vec<String>) -> (line: String)
    ensures
        line@ == command_text(arg_texts(args@), args.len() as int),
{
    let mut line = String::new();
    if args.len() <= 1 {
        return line;
    }
    let ghost texts = arg_texts(args@);
    let mut i: usize = 1;
    while i < args.len()
        invariant
            1 <= i <= args.len(),
            texts == arg_texts(args@),
            line@ == command_text(texts, i as int),
        decreases args.len() - i,
    {
        assert(texts[i as int] == args@[i as int]@);
        if !is_flag_c(args[i].as_str()) {
            line.append(args[i].as_str());
        }
        i += 1;
    }
    line
}

} // verus!

//! History expander: puts the previous command in the place of every `!!`
//! that stands outside single quotes.
//!
//! The line arrives together with its tokens, each a pair of the separator
//! it was found under (nothing, a single quote or a double quote) and its
//! text. Splitting a line into tokens is the tokenizer's business.

use crate::pattern::contains_match;
use crate::pattern::pattern_compiles;
use crate::pattern::pattern_replaced;
use crate::pattern::re_contains;
use crate::pattern::replace_matches;
use crate::quoting::is_sep_char;
use crate::shell::Shell;
use crate::text::push_char;
use crate::text::trim_end;
use crate::text::trimmed_end;
use vstd::prelude::*;

verus! {

/// The pattern that stands for the previous command.
pub const HISTORY_MARKER: &'static str = r"!!";

/// Whether the history marker is found in `text`.
pub open spec fn has_marker(text: Seq<char>) -> bool {
    contains_match(text, HISTORY_MARKER@)
}

/// Whether `sep` is the single quote, under which nothing is expanded.
pub open spec fn single_quoted(sep: Seq<char>) -> bool {
    is_sep_char(sep, '\'')
}

/// Whether the token `(sep, text)` is rewritten by an expansion.
pub open spec fn expands(sep: Seq<char>, text: Seq<char>) -> bool {
    has_marker(text) && !single_quoted(sep)
}

/// The text of the token `(sep, text)` after an expansion: every marker
/// replaced by `previous_cmd` as it stands, unless the token is
/// single-quoted.
pub open spec fn expanded_text(previous_cmd: Seq<char>, sep: Seq<char>, text: Seq<char>) -> Seq<
    char,
> {
    if expands(sep, text) {
        pattern_replaced(HISTORY_MARKER@, text, previous_cmd)
    } else {
        text
    }
}

/// The tokens as pairs of character sequences.
pub open spec fn token_texts(tokens: Seq<(String, String)>) -> Seq<(Seq<char>, Seq<char>)> {
    Seq::new(tokens.len(), |i: int| (tokens[i].0@, tokens[i].1@))
}

/// The tokens after an expansion, separators untouched.
pub open spec fn expanded_tokens(previous_cmd: Seq<char>, tokens: Seq<(Seq<char>, Seq<char>)>) -> Seq<
    (Seq<char>, Seq<char>),
> {
    Seq::new(
        tokens.len(),
        |i: int| (tokens[i].0, expanded_text(previous_cmd, tokens[i].0, tokens[i].1)),
    )
}

/// Whether an expansion rewrites any of the tokens.
pub open spec fn any_expands(tokens: Seq<(Seq<char>, Seq<char>)>) -> bool {
    exists|i: int| 0 <= i < tokens.len() && expands(#[trigger] tokens[i].0, tokens[i].1)
}

/// One token back in its separators, followed by a space.
pub open spec fn token_piece(sep: Seq<char>, text: Seq<char>) -> Seq<char> {
    sep + text + sep + seq![' ']
}

/// All tokens back in their separators, a space after each.
pub open spec fn joined(tokens: Seq<(Seq<char>, Seq<char>)>) -> Seq<char>
    decreases tokens.len(),
{
    if tokens.len() == 0 {
        Seq::empty()
    } else {
        joined(tokens.drop_last()) + token_piece(tokens.last().0, tokens.last().1)
    }
}

/// The line that the tokens spell: each back in its separators, one space
/// between two of them, no whitespace at the end.
pub open spec fn rebuilt(tokens: Seq<(Seq<char>, Seq<char>)>) -> Seq<char> {
    trimmed_end(joined(tokens))
}

/// Whether an expansion takes place at all: the line holds a marker and
/// there is a previous command.
pub open spec fn expansion_applies(previous_cmd: Seq<char>, line: Seq<char>) -> bool {
    has_marker(line) && previous_cmd.len() > 0
}

/// The line after history expansion.
pub open spec fn expanded_line(
    previous_cmd: Seq<char>,
    line: Seq<char>,
    tokens: Seq<(Seq<char>, Seq<char>)>,
) -> Seq<char> {
    if expansion_applies(previous_cmd, line) {
        rebuilt(expanded_tokens(previous_cmd, tokens))
    } else {
        line
    }
}

/// One more token is rewritten exactly when an earlier one was or this one is.
proof fn lemma_any_expands_step(tokens: Seq<(Seq<char>, Seq<char>)>, i: int)
    requires
        0 <= i < tokens.len(),
    ensures
        any_expands(tokens.take(i + 1)) == (any_expands(tokens.take(i)) || expands(
            tokens[i].0,
            tokens[i].1,
        )),
{
    let seen = tokens.take(i);
    let now = tokens.take(i + 1);
    if any_expands(seen) {
        let j = choose|j: int| 0 <= j < seen.len() && expands(#[trigger] seen[j].0, seen[j].1);
        assert(now[j] == seen[j]);
        assert(expands(now[j].0, now[j].1));
    }
    if expands(tokens[i].0, tokens[i].1) {
        assert(now[i] == tokens[i]);
        assert(expands(now[i].0, now[i].1));
    }
    if any_expands(now) {
        let j = choose|j: int| 0 <= j < now.len() && expands(#[trigger] now[j].0, now[j].1);
        if j < i {
            assert(seen[j] == now[j]);
            assert(expands(seen[j].0, seen[j].1));
        } else {
            assert(now[j] == tokens[i]);
        }
    }
}

/// Decides `single_quoted`.
pub fn is_single_quote(sep: &str) -> (b: bool)
    ensures
        b == single_quoted(sep@),
{
    sep.unicode_len() == 1 && sep.get_char(0) == '\''
}

/// Whether the token `(sep, text)` is rewritten by an expansion.
pub fn token_expands(sep: &str, text: &str) -> (b: bool)
    ensures
        b == expands(sep@, text@),
{
    re_contains(text, HISTORY_MARKER) && !is_single_quote(sep)
}

/// Whether an expansion takes place for `line` in the session `sh`. A
/// caller may ask this before it goes to the trouble of splitting the line
/// into tokens.
pub fn should_expand(sh: &Shell, line: &str) -> (b: bool)
    ensures
        b == expansion_applies(sh.previous_cmd@, line@),
{
    re_contains(line, HISTORY_MARKER) && !sh.previous_cmd.as_str().is_empty()
}

/// The text of the token `(sep, text)` after an expansion, and whether the
/// expansion rewrote it.
pub fn expand_token(previous_cmd: &str, sep: &str, text: &str) -> (r: (String, bool))
    ensures
        r.0@ == expanded_text(previous_cmd@, sep@, text@),
        r.1 == expands(sep@, text@),
{
    if token_expands(sep, text) {
        match replace_matches(text, HISTORY_MARKER, previous_cmd) {
            Ok(replaced) => (replaced, true),
            Err(_) => {
                // The marker was found in `text` a moment ago, so it compiles.
                assert(pattern_compiles(HISTORY_MARKER@));
                (String::from_str(text), true)
            },
        }
    } else {
        (String::from_str(text), false)
    }
}

/// Spells the tokens out as one line.
pub fn rebuild_line(tokens: &Vec<(String, String)>) -> (line: String)
    ensures
        line@ == rebuilt(token_texts(tokens@)),
{
    let ghost texts = token_texts(tokens@);
    let mut all = String::new();
    let mut i: usize = 0;
    assert(texts.take(0) =~= Seq::<(Seq<char>, Seq<char>)>::empty());
    while i < tokens.len()
        invariant
            i <= tokens.len(),
            texts == token_texts(tokens@),
            all@ == joined(texts.take(i as int)),
        decreases tokens.len() - i,
    {
        let ghost before = all@;
        let token = &tokens[i];
        all.append(token.0.as_str());
        all.append(token.1.as_str());
        all.append(token.0.as_str());
        push_char(&mut all, ' ');
        proof {
            let upto = texts.take(i + 1);
            assert(upto.drop_last() =~= texts.take(i as int));
            assert(upto.last() == texts[i as int]);
            assert(all@ =~= before + token_piece(texts[i as int].0, texts[i as int].1));
        }
        i += 1;
    }
    assert(texts.take(i as int) =~= texts);
    trim_end(all.as_str())
}

/// Expands the history markers of `line`, whose tokens are `tokens`, and
/// says whether any token was rewritten, in which case the caller shows the
/// new line to the user.
///
/// Without a marker in the line, or without a previous command, the line
/// stays as it is. Otherwise it is spelled out again from its tokens, with
/// every marker outside single quotes replaced by the previous command.
pub fn extend_bandband(sh: &Shell, line: &mut String, tokens: &Vec<(String, String)>) -> (replaced:
    bool)
    ensures
        final(line)@ == expanded_line(sh.previous_cmd@, old(line)@, token_texts(tokens@)),
        !has_marker(old(line)@) ==> final(line)@ == old(line)@,
        sh.previous_cmd@.len() == 0 ==> final(line)@ == old(line)@,
        replaced == (expansion_applies(sh.previous_cmd@, old(line)@) && any_expands(
            token_texts(tokens@),
        )),
{
    if !should_expand(sh, line.as_str()) {
        return false;
    }
    let ghost texts = token_texts(tokens@);
    let ghost goal = expanded_tokens(sh.previous_cmd@, texts);
    let mut replaced = false;
    let mut pieces: Vec<(String, String)> = Vec::new();
    let mut i: usize = 0;
    while i < tokens.len()
        invariant
            i <= tokens.len(),
            texts == token_texts(tokens@),
            goal == expanded_tokens(sh.previous_cmd@, texts),
            pieces.len() == i,
            token_texts(pieces@) == goal.take(i as int),
            replaced == any_expands(texts.take(i as int)),
        decreases tokens.len() - i,
    {
        let token = &tokens[i];
        let (text, rewritten) = expand_token(
            sh.previous_cmd.as_str(),
            token.0.as_str(),
            token.1.as_str(),
        );
        proof {
            lemma_any_expands_step(texts, i as int);
            assert(texts[i as int] == (token.0@, token.1@));
        }
        replaced = replaced || rewritten;
        let ghost before = pieces@;
        pieces.push((token.0.clone(), text));
        proof {
            let done = token_texts(pieces@);
            assert(done[i as int] == goal[i as int]);
            assert forall|j: int| 0 <= j < i implies done[j] == goal.take(i as int)[j] by {
                assert(pieces@[j] == before[j]);
                assert(done[j] == token_texts(before)[j]);
            }
            assert(done =~= goal.take(i + 1));
        }
        i += 1;
    }
    assert(goal.take(i as int) =~= goal);
    assert(texts.take(i as int) =~= texts);
    assert(token_texts(pieces@) == goal);
    *line = rebuild_line(&pieces);
    replaced
}

} // verus!

//! Quoting and escaping engine: turns a token and the quoting context it
//! was found in back into text that a shell reads as that one token.

use crate::text::chars_of;
use crate::text::push_char;
use vstd::prelude::*;

verus! {

/// The characters that open and close a sub-expression inside an unquoted
/// token: the backtick and the double quote.
pub open spec fn is_subsep(c: char) -> bool {
    c == '`' || c == '"'
}

/// Whether the character at `i` of `s` is escaped: the character directly
/// before it is a backslash. Whether that backslash is itself escaped is
/// not asked.
pub open spec fn is_escaped(s: Seq<char>, i: int) -> bool {
    i > 0 && s[i - 1] == '\\'
}

/// The delimiter of the sub-expression that is open once the first `n`
/// characters of an unquoted token `s` have been read, if one is open.
///
/// A delimiter opens a sub-expression when none is open and the delimiter
/// is not escaped. It closes the open one when it is the same character,
/// escaped or not. Nesting is not tracked.
pub open spec fn open_subsep(s: Seq<char>, n: int) -> Option<char>
    decreases n,
{
    if n <= 0 || n > s.len() {
        None
    } else {
        let before = open_subsep(s, n - 1);
        let c = s[n - 1];
        if !is_subsep(c) {
            before
        } else if before is None {
            if is_escaped(s, n - 1) {
                None
            } else {
                Some(c)
            }
        } else if before == Some(c) {
            None
        } else {
            before
        }
    }
}

/// Whether the separator `sep` is the single character `c`.
pub open spec fn is_sep_char(sep: Seq<char>, c: char) -> bool {
    sep.len() == 1 && sep[0] == c
}

/// Whether the character at `i` of `s` gets a backslash in front of it:
/// it is the separator itself, or it is a space of an unquoted token
/// outside any sub-expression.
pub open spec fn escapes(sep: Seq<char>, s: Seq<char>, i: int) -> bool {
    ||| is_sep_char(sep, s[i])
    ||| (sep.len() == 0 && s[i] == ' ' && open_subsep(s, i + 1) is None)
}

/// What the character at `i` of `s` becomes.
pub open spec fn escaped_at(sep: Seq<char>, s: Seq<char>, i: int) -> Seq<char> {
    if escapes(sep, s, i) {
        seq!['\\', s[i]]
    } else {
        seq![s[i]]
    }
}

/// What the characters of `s` from `i` on become.
pub open spec fn escaped_from(sep: Seq<char>, s: Seq<char>, i: int) -> Seq<char>
    decreases s.len() - i,
{
    if i < 0 || i >= s.len() {
        Seq::empty()
    } else {
        escaped_at(sep, s, i) + escaped_from(sep, s, i + 1)
    }
}

/// `s` with its escapes, between two copies of `sep`.
pub open spec fn wrapped(sep: Seq<char>, s: Seq<char>) -> Seq<char> {
    sep + escaped_from(sep, s, 0) + sep
}

/// Re-quotes the token `s` that was found under the separator `sep`: the
/// empty string for an unquoted token, else the quote character.
///
/// Every occurrence of the separator in `s` gets a backslash. In an
/// unquoted token every space outside a sub-expression gets one too. A
/// backtick or a double quote opens a sub-expression unless it is escaped,
/// that is, unless the character directly before it is a backslash.
pub fn wrap_sep_string(sep: &str, s: &str) -> (r: String)
    ensures
        r@ == wrapped(sep@, s@),
{
    let unquoted = sep.is_empty();
    let sep_char: Option<char> = if sep.unicode_len() == 1 {
        Some(sep.get_char(0))
    } else {
        None
    };
    let mut token = String::new();
    let mut subsep: Option<char> = None;
    let mut after_backslash = false;
    for c in it: s.chars()
        invariant
            it.seq() == s@,
            after_backslash == is_escaped(s@, it.index() as int),
            unquoted == (sep@.len() == 0),
            sep_char == (if sep@.len() == 1 {
                Some(sep@[0])
            } else {
                None
            }),
            unquoted ==> subsep == open_subsep(s@, it.index() as int),
            token@ + escaped_from(sep@, s@, it.index() as int) == escaped_from(sep@, s@, 0),
    {
        if unquoted && (c == '`' || c == '"') {
            subsep = match subsep {
                None => if after_backslash {
                    None
                } else {
                    Some(c)
                },
                Some(open) => if open == c {
                    None
                } else {
                    Some(open)
                },
            };
        }
        let ghost before = token@;
        match sep_char {
            Some(q) => {
                if q == c {
                    push_char(&mut token, '\\');
                }
            },
            None => {},
        }
        if c == ' ' && unquoted && subsep.is_none() {
            push_char(&mut token, '\\');
        }
        push_char(&mut token, c);
        after_backslash = c == '\\';
        proof {
            let i = it.index() as int;
            assert(token@ =~= before + escaped_at(sep@, s@, i));
            assert(token@ + escaped_from(sep@, s@, i + 1) =~= before + escaped_from(sep@, s@, i));
        }
    }
    let mut r = String::from_str(sep);
    r.append(token.as_str());
    r.append(sep);
    r
}

/// `u` with its backslash sequences read back: a backslash that is followed
/// by a character stands for that character; a backslash at the very end
/// stands for itself.
pub open spec fn unescaped(u: Seq<char>) -> Seq<char>
    decreases u.len(),
{
    if u.len() == 0 {
        u
    } else if u[0] == '\\' && u.len() >= 2 {
        seq![u[1]] + unescaped(u.skip(2))
    } else {
        seq![u[0]] + unescaped(u.skip(1))
    }
}

/// Reads the backslash sequences of `text` back.
pub fn unescape(text: &str) -> (r: String)
    ensures
        r@ == unescaped(text@),
{
    let chars = chars_of(text);
    let mut r = String::new();
    let mut i: usize = 0;
    assert(r@ + unescaped(chars@.skip(0)) =~= unescaped(chars@)) by {
        assert(chars@.skip(0) =~= chars@);
    }
    while i < chars.len()
        invariant
            chars@ == text@,
            i <= chars.len(),
            r@ + unescaped(chars@.skip(i as int)) == unescaped(chars@),
        decreases chars.len() - i,
    {
        let ghost rest = chars@.skip(i as int);
        let ghost before = r@;
        if chars[i] == '\\' && i + 1 < chars.len() {
            push_char(&mut r, chars[i + 1]);
            assert(rest.skip(2) =~= chars@.skip(i + 2));
            assert(r@ + unescaped(chars@.skip(i + 2)) =~= before + unescaped(rest));
            i += 2;
        } else {
            push_char(&mut r, chars[i]);
            assert(rest.skip(1) =~= chars@.skip(i + 1));
            assert(r@ + unescaped(chars@.skip(i + 1)) =~= before + unescaped(rest));
            i += 1;
        }
    }
    assert(chars@.skip(i as int) =~= Seq::<char>::empty());
    r
}

/// The first of the plain tokens of a quoted string, or the empty string
/// where there is none.
pub fn unquote(plain_tokens: &Vec<String>) -> (r: String)
    ensures
        r@ == (if plain_tokens.len() == 0 {
            Seq::<char>::empty()
        } else {
            plain_tokens[0]@
        }),
{
    if plain_tokens.len() == 0 {
        return String::new();
    }
    plain_tokens[0].clone()
}

/// A wrapped string without its two separators, its backslash sequences
/// read back.
pub open spec fn unwrapped(sep: Seq<char>, w: Seq<char>) -> Seq<char> {
    unescaped(w.subrange(sep.len() as int, w.len() - sep.len()))
}

/// The separators that a token can be found under: none, the single quote,
/// the double quote.
pub open spec fn is_separator(sep: Seq<char>) -> bool {
    ||| sep.len() == 0
    ||| is_sep_char(sep, '\'')
    ||| is_sep_char(sep, '"')
}

/// Every backslash of `t`, but one that ends it, stands before a character
/// that wrapping escapes. A backslash before any other character would be
/// read back as the start of a backslash sequence.
pub open spec fn backslashes_survive(sep: Seq<char>, t: Seq<char>) -> bool {
    forall|i: int| 0 <= i < t.len() - 1 && t[i] == '\\' ==> escapes(sep, t, i + 1)
}

proof fn lemma_unescape_escaped(sep: Seq<char>, t: Seq<char>, i: int)
    requires
        is_separator(sep),
        backslashes_survive(sep, t),
        0 <= i <= t.len(),
    ensures
        unescaped(escaped_from(sep, t, i)) == t.skip(i),
    decreases t.len() - i,
{
    let body = escaped_from(sep, t, i);
    if i == t.len() {
        assert(t.skip(i) =~= Seq::<char>::empty());
    } else if escapes(sep, t, i) {
        lemma_unescape_escaped(sep, t, i + 1);
        assert(body.skip(2) =~= escaped_from(sep, t, i + 1));
        assert(t.skip(i) =~= seq![t[i]] + t.skip(i + 1));
    } else if t[i] != '\\' || i == t.len() - 1 {
        lemma_unescape_escaped(sep, t, i + 1);
        assert(body.skip(1) =~= escaped_from(sep, t, i + 1));
        assert(t.skip(i) =~= seq![t[i]] + t.skip(i + 1));
        if i == t.len() - 1 {
            assert(body.len() == 1);
        }
    } else {
        lemma_unescape_escaped(sep, t, i + 2);
        let tail = escaped_from(sep, t, i + 2);
        assert(escapes(sep, t, i + 1));
        assert(escaped_from(sep, t, i + 1) =~= seq!['\\', t[i + 1]] + tail);
        assert(body =~= seq!['\\', '\\', t[i + 1]] + tail);
        let after = body.skip(2);
        assert(after =~= seq![t[i + 1]] + tail);
        assert(after.skip(1) =~= tail);
        assert(unescaped(after) == seq![t[i + 1]] + unescaped(tail));
        assert(t.skip(i) =~= seq![t[i], t[i + 1]] + t.skip(i + 2));
    }
}

/// Wrapping can be undone. For a separator `sep` and a text `t` whose
/// backslashes survive, taking the two separators off `wrapped(sep, t)` and
/// reading its backslash sequences back gives `t`, whether or not `t` holds
/// the separator.
pub proof fn lemma_wrap_round_trip(sep: Seq<char>, t: Seq<char>)
    requires
        is_separator(sep),
        backslashes_survive(sep, t),
    ensures
        unwrapped(sep, wrapped(sep, t)) == t,
{
    let body = escaped_from(sep, t, 0);
    let w = wrapped(sep, t);
    assert(w.subrange(sep.len() as int, w.len() - sep.len()) =~= body);
    lemma_unescape_escaped(sep, t, 0);
    assert(t.skip(0) =~= t);
}

} // verus!

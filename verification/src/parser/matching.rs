//! Regular-expression matching, as the parser uses it.
//!
//! Matching is the `regex` crate's, reached through three trusted wrappers
//! that compile a pattern and run one operation; their results are named by
//! uninterpreted functions of the pattern and the text. Building the
//! patterns (escaping keywords, alternations) is this library's own code.
use vstd::prelude::*;
use crate::text::{join_seqs, str_chars, string_from_chars};

verus! {

/// The views of a sequence of optional strings.
pub open spec fn opt_views(v: Seq<Option<String>>) -> Seq<Option<Seq<char>>> {
    v.map_values(|g: Option<String>| opt_view(g))
}

pub open spec fn opt_view(g: Option<String>) -> Option<Seq<char>> {
    match g {
        Some(s) => Some(s@),
        None => None,
    }
}

pub open spec fn captures_view(c: Option<Vec<Option<String>>>) -> Option<Seq<Option<Seq<char>>>> {
    match c {
        Some(v) => Some(opt_views(v@)),
        None => None,
    }
}

/// The groups of the leftmost-first match of `pattern` in `text`, as the
/// `regex` crate finds it: the whole match first, then each capture group
/// (`None` for a group that took no part); `None` when nothing matches or
/// when `pattern` does not compile.
pub uninterp spec fn regex_first_captures(pattern: Seq<char>, text: Seq<char>) -> Option<
    Seq<Option<Seq<char>>>,
>;

/// `Regex::new(pattern)` then `Regex::captures(text)`, each group's text
/// copied out.
///
/// The contract claims only that the result is the `regex` crate's answer
/// for these two arguments; the regex language itself is not restated.
#[verifier::external_body]
pub fn regex_captures(pattern: &str, text: &str) -> (r: Option<Vec<Option<String>>>)
    ensures
        captures_view(r) == regex_first_captures(pattern@, text@),
{
    let re = regex::Regex::new(pattern).ok()?;
    let caps = re.captures(text)?;
    Some(caps.iter().map(|m| m.map(|m| m.as_str().to_string())).collect())
}

/// Group 1 of each successive non-overlapping match of `pattern` in `text`,
/// as the `regex` crate's `captures_iter` yields them; empty when `pattern`
/// does not compile.
pub uninterp spec fn regex_all_group1(pattern: Seq<char>, text: Seq<char>) -> Seq<
    Option<Seq<char>>,
>;

/// `Regex::new(pattern)` then `Regex::captures_iter(text)`, group 1 of each
/// match copied out.
///
/// The contract claims only that the result is the `regex` crate's answer
/// for these two arguments.
#[verifier::external_body]
pub fn regex_group1_all(pattern: &str, text: &str) -> (r: Vec<Option<String>>)
    ensures
        opt_views(r@) == regex_all_group1(pattern@, text@),
{
    match regex::Regex::new(pattern) {
        Ok(re) => re.captures_iter(text).map(|c| c.get(1).map(|m| m.as_str().to_string())).collect(),
        Err(_) => Vec::new(),
    }
}

/// `text` with every non-overlapping match of `pattern` replaced by
/// `replacement`, as the `regex` crate's `replace_all` does it; `None` when
/// `pattern` does not compile.
pub uninterp spec fn regex_replacement(
    pattern: Seq<char>,
    text: Seq<char>,
    replacement: Seq<char>,
) -> Option<Seq<char>>;

/// `Regex::new(pattern)` then `Regex::replace_all(text, replacement)`.
///
/// The contract claims only that the result is the `regex` crate's answer
/// for these three arguments.
#[verifier::external_body]
pub fn regex_replace_all(pattern: &str, text: &str, replacement: &str) -> (r: Option<String>)
    ensures
        r matches Some(t) ==> regex_replacement(pattern@, text@, replacement@) == Some(t@),
        r is None ==> regex_replacement(pattern@, text@, replacement@) is None,
{
    let re = regex::Regex::new(pattern).ok()?;
    Some(re.replace_all(text, replacement).to_string())
}

/// Group `i` of a match, `None` where the match has no such group.
pub open spec fn group(caps: Seq<Option<Seq<char>>>, i: int) -> Option<Seq<char>> {
    if 0 <= i < caps.len() {
        caps[i]
    } else {
        None
    }
}

/// Group `i` of a match (`Captures::get(i)` with the text copied out).
pub fn get_group(caps: &Vec<Option<String>>, i: usize) -> (r: Option<String>)
    ensures
        opt_view(r) == group(opt_views(caps@), i as int),
{
    if i < caps.len() {
        match &caps[i] {
            Some(s) => Some(s.clone()),
            None => None,
        }
    } else {
        None
    }
}

// ---------------------------------------------------------------------------
// Building patterns
// ---------------------------------------------------------------------------

/// The characters that `regex::escape` marks with a backslash
/// (`regex_syntax::is_meta_character`).
pub open spec fn is_meta(c: char) -> bool {
    ||| c == '\\'
    ||| c == '.'
    ||| c == '+'
    ||| c == '*'
    ||| c == '?'
    ||| c == '('
    ||| c == ')'
    ||| c == '|'
    ||| c == '['
    ||| c == ']'
    ||| c == '{'
    ||| c == '}'
    ||| c == '^'
    ||| c == '$'
    ||| c == '#'
    ||| c == '&'
    ||| c == '-'
    ||| c == '~'
}

/// `regex::escape(s)`: every meta character preceded by a backslash, so that
/// the pattern matches `s` literally.
pub open spec fn escape_spec(s: Seq<char>) -> Seq<char>
    decreases s.len(),
{
    if s.len() == 0 {
        seq![]
    } else if is_meta(s.last()) {
        escape_spec(s.drop_last()) + seq!['\\', s.last()]
    } else {
        escape_spec(s.drop_last()).push(s.last())
    }
}

fn is_meta_exec(c: char) -> (r: bool)
    ensures
        r == is_meta(c),
{
    c == '\\' || c == '.' || c == '+' || c == '*' || c == '?' || c == '(' || c == ')' || c == '|'
        || c == '[' || c == ']' || c == '{' || c == '}' || c == '^' || c == '$' || c == '#' || c
        == '&' || c == '-' || c == '~'
}

/// Appends `regex::escape(s)` to `out`.
pub fn push_escaped(out: &mut Vec<char>, s: &str)
    ensures
        final(out)@ == old(out)@ + escape_spec(s@),
{
    let cs = str_chars(s);
    let ghost start = out@;
    let mut i: usize = 0;
    while i < cs.len()
        invariant
            i <= cs@.len(),
            cs@ == s@,
            out@ == start + escape_spec(cs@.take(i as int)),
        decreases cs.len() - i,
    {
        let c = cs[i];
        proof {
            let t = cs@.take(i + 1);
            assert(t.drop_last() =~= cs@.take(i as int));
            assert(t.last() == c);
        }
        if is_meta_exec(c) {
            out.push('\\');
            out.push(c);
            proof {
                assert(out@ =~= start + escape_spec(cs@.take(i + 1)));
            }
        } else {
            out.push(c);
            proof {
                assert(out@ =~= start + escape_spec(cs@.take(i + 1)));
            }
        }
        i = i + 1;
    }
    assert(cs@.take(cs@.len() as int) =~= cs@);
}

/// The views of a list of string slices.
pub open spec fn str_views(v: Seq<&str>) -> Seq<Seq<char>> {
    v.map_values(|s: &str| s@)
}

/// The escaped keywords, with `|` between neighbours.
pub open spec fn escaped_alternatives(strings: Seq<Seq<char>>) -> Seq<char> {
    join_seqs(strings.map_values(|s: Seq<char>| escape_spec(s)), seq!['|'])
}

/// Appends the escaped `strings`, separated by `|`, to `out`.
fn push_escaped_alternatives(out: &mut Vec<char>, strings: &[&str])
    ensures
        final(out)@ == old(out)@ + escaped_alternatives(str_views(strings@)),
{
    let ghost start = out@;
    let ghost all = str_views(strings@).map_values(|s: Seq<char>| escape_spec(s));
    let mut i: usize = 0;
    while i < strings.len()
        invariant
            i <= strings@.len(),
            all == str_views(strings@).map_values(|s: Seq<char>| escape_spec(s)),
            out@ == start + join_seqs(all.take(i as int), seq!['|']),
        decreases strings.len() - i,
    {
        let ghost before = out@;
        if i > 0 {
            out.push('|');
        }
        push_escaped(out, strings[i]);
        proof {
            let t = all.take(i + 1);
            assert(t.drop_last() =~= all.take(i as int));
            assert(t.last() == escape_spec(strings@[i as int]@));
            if i == 0 {
                assert(join_seqs(t, seq!['|']) == t[0]);
                assert(out@ =~= start + join_seqs(t, seq!['|']));
            } else {
                assert(out@ =~= start + join_seqs(t, seq!['|']));
            }
        }
        i = i + 1;
    }
    assert(all.take(strings@.len() as int) =~= all);
}

/// A pattern matching any of the keywords literally (`regex_from_strs`).
pub fn regex_from_strs(strings: &[&str]) -> (r: String)
    ensures
        r@ == escaped_alternatives(str_views(strings@)),
{
    let mut out: Vec<char> = Vec::new();
    push_escaped_alternatives(&mut out, strings);
    string_from_chars(&out)
}

/// One escaped keyword alone, or a group of escaped alternatives.
pub open spec fn alt_spec(strings: Seq<Seq<char>>) -> Seq<char> {
    if strings.len() == 1 {
        escape_spec(strings[0])
    } else {
        seq!['('] + escaped_alternatives(strings) + seq![')']
    }
}

/// Appends `strs_to_alt(strings)` to `out`.
pub fn push_alt(out: &mut Vec<char>, strings: &[&str])
    ensures
        final(out)@ == old(out)@ + alt_spec(str_views(strings@)),
{
    if strings.len() == 1 {
        push_escaped(out, strings[0]);
    } else {
        let ghost start = out@;
        out.push('(');
        push_escaped_alternatives(out, strings);
        out.push(')');
        assert(out@ =~= start + alt_spec(str_views(strings@)));
    }
}

/// One escaped keyword alone, or a group of the escaped keywords as
/// alternatives (`strs_to_alt`).
pub fn strs_to_alt(strings: &[&str]) -> (r: String)
    ensures
        r@ == alt_spec(str_views(strings@)),
{
    let mut out: Vec<char> = Vec::new();
    push_alt(&mut out, strings);
    string_from_chars(&out)
}

} // verus!

//! Pattern matching for classification rules: regular expressions through the
//! `regex` crate, and shell-style globs rewritten as anchored expressions.
use vstd::prelude::*;
use vstd::string::*;

verus! {

/// Whether the `regex` crate accepts `p` as a regular expression.
pub uninterp spec fn pattern_accepted(p: Seq<char>) -> bool;

/// Whether the expression `p` matches somewhere in `t`.
pub uninterp spec fn pattern_finds(p: Seq<char>, t: Seq<char>) -> bool;

/// Relies on `regex::Regex::new`, which refuses an invalid pattern with an
/// error, and on `regex::Regex::is_match`, which reports a match anywhere in
/// the haystack.
#[verifier::external_body]
fn regex_search(pattern: &str, text: &str) -> (r: Option<bool>)
    ensures
        r == (if pattern_accepted(pattern@) {
            Some(pattern_finds(pattern@, text@))
        } else {
            None
        }),
{
    match regex::Regex::new(pattern) {
        Ok(re) => Some(re.is_match(text)),
        Err(_) => None,
    }
}

/// A pattern hits a text when it compiles and matches; an invalid pattern
/// never hits.
pub open spec fn regex_hit(p: Seq<char>, t: Seq<char>) -> bool {
    pattern_accepted(p) && pattern_finds(p, t)
}

pub fn matches_regex(pattern: &str, text: &str) -> (r: bool)
    ensures
        r == regex_hit(pattern@, text@),
{
    match regex_search(pattern, text) {
        Some(b) => b,
        None => false,
    }
}

/// The expression text that one glob character stands for.
pub open spec fn glob_piece(c: char) -> Seq<char> {
    if c == '.' {
        seq!['\\', '.']
    } else if c == '*' {
        seq!['.', '*']
    } else if c == '?' {
        seq!['.']
    } else {
        seq![c]
    }
}

pub open spec fn glob_body(p: Seq<char>) -> Seq<char>
    decreases p.len(),
{
    if p.len() == 0 {
        Seq::empty()
    } else {
        glob_body(p.drop_last()) + glob_piece(p.last())
    }
}

/// The anchored expression for a glob: `.` is literal, `*` any run, `?` any
/// one character.
pub open spec fn glob_regex(p: Seq<char>) -> Seq<char> {
    seq!['^'] + glob_body(p) + seq!['$']
}

pub fn glob_to_regex(pattern: &str) -> (r: String)
    ensures
        r@ == glob_regex(pattern@),
{
    proof {
        reveal_strlit("^");
        reveal_strlit("$");
        reveal_strlit("\\.");
        reveal_strlit(".*");
        reveal_strlit(".");
    }
    let mut out = String::from_str("^");
    let n = pattern.unicode_len();
    let mut i: usize = 0;
    while i < n
        invariant
            n == pattern@.len(),
            0 <= i <= n,
            out@ == seq!['^'] + glob_body(pattern@.take(i as int)),
        decreases n - i,
    {
        let c = pattern.get_char(i);
        let ghost before = out@;
        if c == '.' {
            out.append("\\.");
            proof {
                reveal_strlit("\\.");
                assert("\\."@.len() == 2);
                assert("\\."@[0] == '\\');
                assert("\\."@[1] == '.');
                assert("\\."@ =~= glob_piece(c));
            }
        } else if c == '*' {
            out.append(".*");
            proof {
                reveal_strlit(".*");
                assert(".*"@.len() == 2);
                assert(".*"@[0] == '.');
                assert(".*"@[1] == '*');
                assert(".*"@ =~= glob_piece(c));
            }
        } else if c == '?' {
            out.append(".");
            proof {
                reveal_strlit(".");
                assert("."@.len() == 1);
                assert("."@[0] == '.');
                assert("."@ =~= glob_piece(c));
            }
        } else {
            let one = pattern.substring_char(i, i + 1);
            proof {
                assert(one@ =~= seq![c]);
            }
            out.append(one);
        }
        assert(out@ == before + glob_piece(c));
        proof {
            let t = pattern@.take(i as int + 1);
            assert(t.drop_last() =~= pattern@.take(i as int));
            assert(t.last() == c);
            assert(glob_body(t) == glob_body(pattern@.take(i as int)) + glob_piece(c));
            assert(out@ =~= seq!['^'] + glob_body(t));
        }
        i = i + 1;
    }
    proof {
        assert(pattern@.take(n as int) =~= pattern@);
    }
    out.append("$");
    out
}

pub fn matches_glob(pattern: &str, text: &str) -> (r: bool)
    ensures
        r == regex_hit(glob_regex(pattern@), text@),
{
    let re = glob_to_regex(pattern);
    matches_regex(re.as_str(), text)
}

} // verus!

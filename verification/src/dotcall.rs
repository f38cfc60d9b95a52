//! A verified parser for dotted call expressions of the form
//! `a.b.c(args)`: a dot-separated path of identifiers followed by an
//! optional parenthesized argument text.  Each piece consumes the
//! longest prefix its rule allows and hands the remainder back.

use vstd::prelude::*;
use vstd::string::{StrSliceExecFns, StringExecFns};

verus! {

/// An ASCII letter, as an identifier's first character.
pub open spec fn is_alpha_char(c: char) -> bool {
    ('a' <= c && c <= 'z') || ('A' <= c && c <= 'Z')
}

/// An ASCII letter, digit or underscore, as an identifier's later
/// character.
pub open spec fn is_word_char(c: char) -> bool {
    is_alpha_char(c) || ('0' <= c && c <= '9') || c == '_'
}

/// The first position at or after `i` that does not hold a word
/// character; the end of the maximal identifier run starting at `i`.
pub open spec fn ident_end(s: Seq<char>, i: int) -> int
    decreases s.len() - i,
{
    if i < 0 || i >= s.len() {
        s.len() as int
    } else if is_word_char(s[i]) {
        ident_end(s, i + 1)
    } else {
        i
    }
}

/// The maximal identifier run: its end stays within the text, it
/// holds word characters only, and the character after it, if any, is
/// no word character.
pub proof fn lemma_ident_end_props(s: Seq<char>, i: int)
    requires
        0 <= i <= s.len(),
    ensures
        i <= ident_end(s, i) <= s.len(),
        forall|k: int| i <= k < ident_end(s, i) ==> is_word_char(#[trigger] s[k]),
        ident_end(s, i) < s.len() ==> !is_word_char(s[ident_end(s, i)]),
    decreases s.len() - i,
{
    if i < s.len() && is_word_char(s[i]) {
        lemma_ident_end_props(s, i + 1);
    }
}

/// A well-formed identifier: non-empty, a letter first, word
/// characters after.
pub open spec fn ident_wf(p: Seq<char>) -> bool {
    &&& p.len() >= 1
    &&& is_alpha_char(p[0])
    &&& forall|k: int| 1 <= k < p.len() ==> is_word_char(#[trigger] p[k])
}

/// Whether the character at this position of the text continues an
/// identifier.
fn word_char_at(s: &str, i: usize) -> (r: bool)
    requires
        i < s@.len(),
    ensures
        r == is_word_char(s@[i as int]),
{
    let c = s.get_char(i);
    (c >= 'a' && c <= 'z') || (c >= 'A' && c <= 'Z') || (c >= '0' && c <= '9') || c == '_'
}

/// Parses one identifier off the front of the text: a letter followed
/// by the longest run of word characters.  Returns the remainder and
/// the matched identifier, or nothing when the text does not start
/// with a letter.
pub fn identifier<'a>(input: &'a str) -> (r: Option<(&'a str, &'a str)>)
    ensures
        match r {
            None => input@.len() == 0 || !is_alpha_char(input@[0]),
            Some((rest, m)) => {
                &&& input@.len() > 0 && is_alpha_char(input@[0])
                &&& 1 <= ident_end(input@, 1) <= input@.len()
                &&& m@ == input@.subrange(0, ident_end(input@, 1))
                &&& rest@ == input@.subrange(ident_end(input@, 1), input@.len() as int)
            },
        },
{
    let n = input.unicode_len();
    if n == 0 {
        return None;
    }
    let c0 = input.get_char(0);
    if !((c0 >= 'a' && c0 <= 'z') || (c0 >= 'A' && c0 <= 'Z')) {
        return None;
    }
    let mut end: usize = 1;
    while end < n && word_char_at(input, end)
        invariant
            1 <= end <= n,
            n == input@.len(),
            ident_end(input@, 1) == ident_end(input@, end as int),
        decreases n - end,
    {
        end = end + 1;
    }
    proof {
        assert(ident_end(input@, end as int) == end as int);
    }
    let m = input.substring_char(0, end);
    let rest = input.substring_char(end, n);
    Some((rest, m))
}

/// The character sequences of a list of owned strings.
pub open spec fn views_of(v: Seq<String>) -> Seq<Seq<char>> {
    v.map_values(|s: String| s@)
}

/// All parts of a path are well-formed identifiers.
pub open spec fn parts_wf(parts: Seq<Seq<char>>) -> bool {
    forall|i: int| 0 <= i < parts.len() ==> ident_wf(#[trigger] parts[i])
}

/// The text a dotted path prints as: its parts joined by dots.
pub open spec fn join_dots(parts: Seq<Seq<char>>) -> Seq<char>
    decreases parts.len(),
{
    if parts.len() == 0 {
        Seq::empty()
    } else if parts.len() == 1 {
        parts[0]
    } else {
        parts[0] + seq!['.'] + join_dots(parts.drop_first())
    }
}

/// Appending one more part to a non-empty path appends a dot and the
/// part to the joined text.
pub proof fn lemma_join_dots_push(parts: Seq<Seq<char>>, x: Seq<char>)
    requires
        parts.len() >= 1,
    ensures
        join_dots(parts.push(x)) == join_dots(parts) + seq!['.'] + x,
    decreases parts.len(),
{
    if parts.len() == 1 {
        assert(parts.push(x).drop_first() =~= seq![x]);
        assert(join_dots(seq![x]) == x);
    } else {
        lemma_join_dots_push(parts.drop_first(), x);
        assert(parts.push(x).drop_first() =~= parts.drop_first().push(x));
        assert((parts[0] + seq!['.'] + (join_dots(parts.drop_first()) + seq!['.'] + x)) =~= (
        parts[0] + seq!['.'] + join_dots(parts.drop_first())) + seq!['.'] + x);
    }
}

/// A parse of a dotted path off the front of the text: at least one
/// well-formed identifier part, the parts joined by dots followed by
/// the remainder reproduce the text, the remainder does not start with
/// a word character, and a remainder that starts with a dot does not
/// continue with a letter (else the path would have gone on).
pub open spec fn dot_path_parse_ok(
    input: Seq<char>,
    parts: Seq<Seq<char>>,
    rest: Seq<char>,
) -> bool {
    &&& parts.len() >= 1
    &&& parts_wf(parts)
    &&& input == join_dots(parts) + rest
    &&& (rest.len() == 0 || !is_word_char(rest[0]))
    &&& (rest.len() >= 2 && rest[0] == '.' ==> !is_alpha_char(rest[1]))
}

/// Parses the longest dot-separated identifier path off the front of
/// the text.  Returns the remainder and the parts in order, or nothing
/// when the text does not start with a letter.  A trailing dot that no
/// identifier follows is left in the remainder.
pub fn dot_path<'a>(input: &'a str) -> (r: Option<(&'a str, Vec<String>)>)
    ensures
        match r {
            None => input@.len() == 0 || !is_alpha_char(input@[0]),
            Some((rest, parts)) => dot_path_parse_ok(input@, views_of(parts@), rest@),
        },
{
    let mut cur: &str;
    let mut parts: Vec<String> = Vec::new();
    match identifier(input) {
        None => {
            return None;
        },
        Some((rest0, m0)) => {
            proof {
                lemma_ident_end_props(input@, 1);
            }
            parts.push(String::from_str(m0));
            cur = rest0;
            proof {
                assert(views_of(parts@) =~= seq![m0@]);
                assert(input@ =~= join_dots(views_of(parts@)) + cur@);
                assert(ident_wf(m0@));
            }
        },
    }
    loop
        invariant
            parts@.len() >= 1,
            parts_wf(views_of(parts@)),
            input@ == join_dots(views_of(parts@)) + cur@,
            cur@.len() == 0 || !is_word_char(cur@[0]),
        ensures
            parts@.len() >= 1,
            parts_wf(views_of(parts@)),
            input@ == join_dots(views_of(parts@)) + cur@,
            cur@.len() == 0 || !is_word_char(cur@[0]),
            cur@.len() >= 2 && cur@[0] == '.' ==> !is_alpha_char(cur@[1]),
        decreases cur@.len(),
    {
        let nc = cur.unicode_len();
        if nc == 0 {
            break;
        }
        if cur.get_char(0) != '.' {
            break;
        }
        let tail = cur.substring_char(1, nc);
        match identifier(tail) {
            None => {
                proof {
                    assert(cur@.len() >= 2 ==> tail@[0] == cur@[1]);
                }
                break;
            },
            Some((rest2, m)) => {
                proof {
                    lemma_ident_end_props(tail@, 1);
                    lemma_join_dots_push(views_of(parts@), m@);
                    assert(ident_wf(m@));
                    assert(tail@ =~= m@ + rest2@);
                    assert(cur@ =~= seq!['.'] + tail@);
                }
                let ghost old_views = views_of(parts@);
                parts.push(String::from_str(m));
                proof {
                    assert(views_of(parts@) =~= old_views.push(m@));
                    assert(input@ =~= join_dots(views_of(parts@)) + rest2@);
                }
                cur = rest2;
            },
        }
    }
    Some((cur, parts))
}

/// The parenthesized-content rule fails on this text: it does not
/// start with an opening parenthesis, or no closing parenthesis
/// follows.
pub open spec fn parens_fail(s: Seq<char>) -> bool {
    ||| s.len() == 0
    ||| s[0] != '('
    ||| (forall|k: int| 1 <= k < s.len() ==> s[k] != ')')
}

/// Parses a parenthesized text off the front: an opening parenthesis,
/// everything up to the first closing parenthesis, and that closing
/// parenthesis.  Returns the remainder and the content without the
/// parentheses, or nothing when the rule fails.
pub fn parentheses_content<'a>(input: &'a str) -> (r: Option<(&'a str, &'a str)>)
    ensures
        match r {
            None => parens_fail(input@),
            Some((rest, content)) => {
                &&& input@.len() >= 2
                &&& input@[0] == '('
                &&& (forall|k: int| 0 <= k < content@.len() ==> content@[k] != ')')
                &&& input@ =~= seq!['('] + content@ + seq![')'] + rest@
            },
        },
{
    let n = input.unicode_len();
    if n == 0 {
        return None;
    }
    if input.get_char(0) != '(' {
        return None;
    }
    let mut k: usize = 1;
    while k < n && input.get_char(k) != ')'
        invariant
            1 <= k <= n,
            n == input@.len(),
            forall|j: int| 1 <= j < k ==> input@[j] != ')',
        decreases n - k,
    {
        k = k + 1;
    }
    if k == n {
        return None;
    }
    let content = input.substring_char(1, k);
    let rest = input.substring_char(k + 1, n);
    proof {
        assert(input@ =~= seq!['('] + content@ + seq![')'] + rest@);
    }
    Some((rest, content))
}

/// A dotted call: the identifier path and the argument text of the
/// optional trailing parentheses.
#[derive(Debug)]
pub struct DotCall {
    pub path: Vec<String>,
    pub arguments: Option<String>,
}

/// Parses a dotted call off the front of the text: a dot-separated
/// identifier path, then, when one directly follows, a parenthesized
/// argument text.  Returns the remainder and the call, or nothing when
/// the text does not start with a letter.  When the parenthesis rule
/// fails, the call carries no arguments and the remainder keeps the
/// unconsumed text.
pub fn parse_dot_call<'a>(input: &'a str) -> (r: Option<(&'a str, DotCall)>)
    ensures
        match r {
            None => input@.len() == 0 || !is_alpha_char(input@[0]),
            Some((rest, dc)) => {
                ||| {
                    &&& dc.arguments is None
                    &&& dot_path_parse_ok(input@, views_of(dc.path@), rest@)
                    &&& parens_fail(rest@)
                }
                ||| {
                    &&& dc.arguments matches Some(a) && (forall|k: int|
                        0 <= k < a@.len() ==> a@[k] != ')') && dot_path_parse_ok(
                        input@,
                        views_of(dc.path@),
                        seq!['('] + a@ + seq![')'] + rest@,
                    )
                }
            },
        },
{
    match dot_path(input) {
        None => None,
        Some((mid, path)) => {
            match parentheses_content(mid) {
                None => Some((mid, DotCall { path, arguments: None })),
                Some((rest, content)) => {
                    let dc = DotCall { path, arguments: Some(String::from_str(content)) };
                    Some((rest, dc))
                },
            }
        },
    }
}

} // verus!

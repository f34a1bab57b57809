use vstd::prelude::*;

use crate::error::ScoreError;

verus! {

/// Characters that may never appear in a spliced name: quotes, the
/// statement separator and the escape character.
pub open spec fn is_forbidden_char(c: char) -> bool {
    c == '\'' || c == '"' || c == '`' || c == ';' || c == '\\'
}

/// Two-character comment markers: `--`, `/*` and `*/`.
pub open spec fn is_comment_marker(a: char, b: char) -> bool {
    (a == '-' && b == '-') || (a == '/' && b == '*') || (a == '*' && b == '/')
}

pub open spec fn is_ascii_letter(c: char) -> bool {
    ('a' <= c && c <= 'z') || ('A' <= c && c <= 'Z')
}

pub open spec fn is_space(c: char) -> bool {
    c == ' ' || c == '\t' || c == '\n' || c == '\r' || c == '\x0B' || c == '\x0C'
}

pub open spec fn to_upper(c: char) -> char {
    if 'a' <= c && c <= 'z' {
        ((c as u8) - 32) as char
    } else {
        c
    }
}

/// The SQL keywords that must not stand as separate words in a name.
pub open spec fn sql_keywords() -> Seq<Seq<char>> {
    seq![
        seq!['S', 'E', 'L', 'E', 'C', 'T'],
        seq!['I', 'N', 'S', 'E', 'R', 'T'],
        seq!['U', 'P', 'D', 'A', 'T', 'E'],
        seq!['D', 'E', 'L', 'E', 'T', 'E'],
        seq!['D', 'R', 'O', 'P'],
        seq!['U', 'N', 'I', 'O', 'N'],
        seq!['A', 'L', 'T', 'E', 'R'],
        seq!['C', 'R', 'E', 'A', 'T', 'E'],
        seq!['T', 'R', 'U', 'N', 'C', 'A', 'T', 'E'],
        seq!['O', 'R'],
        seq!['A', 'N', 'D'],
    ]
}

/// `kw` stands in `s` at `i`, ignoring case, as a whole word (no letter
/// right before or after it) with whitespace right before or after it.
pub open spec fn keyword_at(s: Seq<char>, i: int, kw: Seq<char>) -> bool {
    let j = i + kw.len();
    &&& 0 <= i
    &&& j <= s.len()
    &&& forall|k: int| 0 <= k < kw.len() ==> to_upper(#[trigger] s[i + k]) == kw[k]
    &&& (i == 0 || !is_ascii_letter(s[i - 1]))
    &&& (j == s.len() || !is_ascii_letter(s[j]))
    &&& ((i > 0 && is_space(s[i - 1])) || (j < s.len() && is_space(s[j])))
}

/// A name that can be spliced unescaped between single quotes of a query.
pub open spec fn is_injection_safe(s: Seq<char>) -> bool {
    &&& forall|i: int| 0 <= i < s.len() ==> !is_forbidden_char(#[trigger] s[i])
    &&& forall|i: int| 0 <= i < s.len() - 1 ==> !is_comment_marker(#[trigger] s[i], s[i + 1])
    &&& forall|i: int, k: int|
        0 <= k < sql_keywords().len() ==> !#[trigger] keyword_at(s, i, sql_keywords()[k])
}

fn keyword_list() -> (r: Vec<Vec<char>>)
    ensures
        r@.len() == sql_keywords().len(),
        forall|k: int| 0 <= k < r@.len() ==> (#[trigger] r@[k])@ == sql_keywords()[k],
{
    let r = vec![
        vec!['S', 'E', 'L', 'E', 'C', 'T'],
        vec!['I', 'N', 'S', 'E', 'R', 'T'],
        vec!['U', 'P', 'D', 'A', 'T', 'E'],
        vec!['D', 'E', 'L', 'E', 'T', 'E'],
        vec!['D', 'R', 'O', 'P'],
        vec!['U', 'N', 'I', 'O', 'N'],
        vec!['A', 'L', 'T', 'E', 'R'],
        vec!['C', 'R', 'E', 'A', 'T', 'E'],
        vec!['T', 'R', 'U', 'N', 'C', 'A', 'T', 'E'],
        vec!['O', 'R'],
        vec!['A', 'N', 'D'],
    ];
    proof {
        assert forall|k: int| 0 <= k < r@.len() implies (#[trigger] r@[k])@ == sql_keywords()[k] by {
            assert(r@[k]@ =~= sql_keywords()[k]);
        }
    }
    r
}

fn upper_char(c: char) -> (r: char)
    ensures
        r == to_upper(c),
{
    if 'a' <= c && c <= 'z' {
        ((c as u8) - 32) as char
    } else {
        c
    }
}

fn letter(c: char) -> (r: bool)
    ensures
        r == is_ascii_letter(c),
{
    ('a' <= c && c <= 'z') || ('A' <= c && c <= 'Z')
}

fn space(c: char) -> (r: bool)
    ensures
        r == is_space(c),
{
    c == ' ' || c == '\t' || c == '\n' || c == '\r' || c == '\x0B' || c == '\x0C'
}

fn keyword_hit(s: &Vec<char>, i: usize, kw: &Vec<char>) -> (r: bool)
    ensures
        r == keyword_at(s@, i as int, kw@),
{
    let n = s.len();
    if kw.len() > n || i > n - kw.len() {
        return false;
    }
    let j = i + kw.len();
    let mut k: usize = 0;
    while k < kw.len()
        invariant
            j == i + kw@.len(),
            j <= s@.len(),
            k <= kw@.len(),
            forall|m: int| 0 <= m < k ==> to_upper(#[trigger] s@[i + m]) == kw@[m],
        decreases kw@.len() - k,
    {
        if upper_char(s[i + k]) != kw[k] {
            return false;
        }
        k = k + 1;
    }
    if i > 0 && letter(s[i - 1]) {
        return false;
    }
    if j < n && letter(s[j]) {
        return false;
    }
    (i > 0 && space(s[i - 1])) || (j < n && space(s[j]))
}

fn chars_of(s: &str) -> (r: Vec<char>)
    ensures
        r@ == s@,
{
    let n = s.unicode_len();
    let mut r: Vec<char> = Vec::new();
    let mut i: usize = 0;
    while i < n
        invariant
            n == s@.len(),
            i <= n,
            r@ == s@.take(i as int),
        decreases n - i,
    {
        r.push(s.get_char(i));
        i = i + 1;
        assert(r@ =~= s@.take(i as int));
    }
    assert(s@.take(n as int) =~= s@);
    r
}

/// Accepts a name exactly when it is safe to splice unescaped into a query:
/// no quote, separator or escape character, no comment marker, and no SQL
/// keyword standing as a whitespace-delimited word.
pub fn validate_string_against_injection(name: &str) -> (r: Result<(), ScoreError>)
    ensures
        r is Ok <==> is_injection_safe(name@),
        r is Err ==> r == Err::<(), ScoreError>(ScoreError::InvalidInput),
{
    let s = chars_of(name);
    let kws = keyword_list();
    let n = s.len();
    let mut i: usize = 0;
    while i < n
        invariant
            s@ == name@,
            n == s@.len(),
            i <= n,
            kws@.len() == sql_keywords().len(),
            forall|k: int| 0 <= k < kws@.len() ==> (#[trigger] kws@[k])@ == sql_keywords()[k],
            forall|m: int| 0 <= m < i ==> !is_forbidden_char(#[trigger] s@[m]),
            forall|m: int| 0 <= m < i && m < n - 1 ==> !is_comment_marker(#[trigger] s@[m], s@[m + 1]),
            forall|m: int, k: int|
                0 <= m < i && 0 <= k < sql_keywords().len() ==> !#[trigger] keyword_at(
                    s@,
                    m,
                    sql_keywords()[k],
                ),
        decreases n - i,
    {
        let c = s[i];
        if c == '\'' || c == '"' || c == '`' || c == ';' || c == '\\' {
            return Err(ScoreError::InvalidInput);
        }
        if i + 1 < n {
            let d = s[i + 1];
            if (c == '-' && d == '-') || (c == '/' && d == '*') || (c == '*' && d == '/') {
                return Err(ScoreError::InvalidInput);
            }
        }
        let mut k: usize = 0;
        while k < kws.len()
            invariant
                s@ == name@,
                n == s@.len(),
                i < n,
                k <= kws@.len(),
                kws@.len() == sql_keywords().len(),
                forall|q: int| 0 <= q < kws@.len() ==> (#[trigger] kws@[q])@ == sql_keywords()[q],
                forall|q: int| 0 <= q < k ==> !#[trigger] keyword_at(s@, i as int, sql_keywords()[q]),
            decreases kws@.len() - k,
        {
            if keyword_hit(&s, i, &kws[k]) {
                return Err(ScoreError::InvalidInput);
            }
            k = k + 1;
        }
        i = i + 1;
    }
    proof {
        assert forall|m: int, k: int|
            0 <= k < sql_keywords().len() implies !#[trigger] keyword_at(
            s@,
            m,
            sql_keywords()[k],
        ) by {
            if m >= n {
                assert(sql_keywords()[k].len() > 0);
            }
        }
    }
    Ok(())
}

} // verus!

verus! {

pub open spec fn is_plain_name_char(c: char) -> bool {
    is_ascii_letter(c) || ('0' <= c && c <= '9') || c == '_' || c == '-'
}

/// A name made only of ASCII letters, digits, underscores and hyphens, with
/// no two hyphens in a row, is safe, and so accepted by the guard.
pub proof fn lemma_plain_names_are_safe(s: Seq<char>)
    requires
        forall|i: int| 0 <= i < s.len() ==> is_plain_name_char(#[trigger] s[i]),
        forall|i: int| 0 <= i < s.len() - 1 ==> !(#[trigger] s[i] == '-' && s[i + 1] == '-'),
    ensures
        is_injection_safe(s),
{
    assert forall|i: int| 0 <= i < s.len() - 1 implies !is_comment_marker(
        #[trigger] s[i],
        s[i + 1],
    ) by {
        assert(is_plain_name_char(s[i]));
        assert(is_plain_name_char(s[i + 1]));
    }
    assert forall|i: int, k: int| 0 <= k < sql_keywords().len() implies !#[trigger] keyword_at(
        s,
        i,
        sql_keywords()[k],
    ) by {
        let j = i + sql_keywords()[k].len();
        if keyword_at(s, i, sql_keywords()[k]) {
            if i > 0 && is_space(s[i - 1]) {
                assert(is_plain_name_char(s[i - 1]));
            } else {
                assert(is_plain_name_char(s[j]));
            }
        }
    }
}

/// A name holding a single quote, a semicolon, a double hyphen, or an SQL
/// keyword set off by whitespace is unsafe, and so rejected by the guard.
pub proof fn lemma_unsafe_names_are_rejected(s: Seq<char>, i: int)
    requires
        0 <= i < s.len(),
        s[i] == '\'' || s[i] == ';' || (i + 1 < s.len() && s[i] == '-' && s[i + 1] == '-')
            || exists|k: int| 0 <= k < sql_keywords().len() && keyword_at(s, i, sql_keywords()[k]),
    ensures
        !is_injection_safe(s),
{
    if s[i] == '\'' || s[i] == ';' {
        assert(is_forbidden_char(s[i]));
    } else if i + 1 < s.len() && s[i] == '-' && s[i + 1] == '-' {
        assert(is_comment_marker(s[i], s[i + 1]));
    } else {
        let k = choose|k: int| 0 <= k < sql_keywords().len() && keyword_at(s, i, sql_keywords()[k]);
        assert(keyword_at(s, i, sql_keywords()[k]));
    }
}

} // verus!

//! Character classes and elementary text operations (search, trim, split)
//! that the ARN grammar and the link rules are built from.

use vstd::prelude::*;

verus! {

// ---------------------------------------------------------------------------
// Character classes
// ---------------------------------------------------------------------------

/// ASCII letters and digits.
pub open spec fn is_ascii_alnum(c: char) -> bool {
    ('0' <= c && c <= '9') || ('A' <= c && c <= 'Z') || ('a' <= c && c <= 'z')
}

/// The punctuation an ARN may contain besides letters and digits.
pub open spec fn is_arn_punct(c: char) -> bool {
    c == ':' || c == '/' || c == '+' || c == '=' || c == ',' || c == '.' || c == '@' || c == '_'
        || c == '*' || c == '#' || c == '-'
}

/// A character that may appear anywhere in an ARN.
pub open spec fn is_allowed_char(c: char) -> bool {
    is_ascii_alnum(c) || is_arn_punct(c)
}

/// A character that may appear in the region field, which later becomes a
/// subdomain of the console host.
pub open spec fn is_region_char(c: char) -> bool {
    is_ascii_alnum(c) || c == '-'
}

/// The characters with the Unicode `White_Space` property, as
/// `char::is_whitespace` recognises them.
pub open spec fn is_ws(c: char) -> bool {
    c == ' ' || c == '\t' || c == '\n' || c == '\u{b}' || c == '\u{c}' || c == '\r'
        || c == '\u{85}' || c == '\u{a0}' || c == '\u{1680}' || ('\u{2000}' <= c && c
        <= '\u{200a}') || c == '\u{2028}' || c == '\u{2029}' || c == '\u{202f}' || c == '\u{205f}'
        || c == '\u{3000}'
}

pub open spec fn all_allowed(s: Seq<char>) -> bool {
    forall|i: int| 0 <= i < s.len() ==> is_allowed_char(#[trigger] s[i])
}

pub open spec fn all_region(s: Seq<char>) -> bool {
    forall|i: int| 0 <= i < s.len() ==> is_region_char(#[trigger] s[i])
}

/// Allowed ARN characters are never whitespace, so a fully checked ARN
/// cannot gain or lose characters by trimming.
pub proof fn lemma_allowed_not_ws(c: char)
    requires
        is_allowed_char(c),
    ensures
        !is_ws(c),
{
}

pub fn exec_is_ascii_alnum(c: char) -> (r: bool)
    ensures
        r == is_ascii_alnum(c),
{
    ('0' <= c && c <= '9') || ('A' <= c && c <= 'Z') || ('a' <= c && c <= 'z')
}

pub fn exec_is_allowed_char(c: char) -> (r: bool)
    ensures
        r == is_allowed_char(c),
{
    exec_is_ascii_alnum(c) || c == ':' || c == '/' || c == '+' || c == '=' || c == ',' || c == '.'
        || c == '@' || c == '_' || c == '*' || c == '#' || c == '-'
}

pub fn exec_is_region_char(c: char) -> (r: bool)
    ensures
        r == is_region_char(c),
{
    exec_is_ascii_alnum(c) || c == '-'
}

pub fn exec_is_ws(c: char) -> (r: bool)
    ensures
        r == is_ws(c),
{
    c == ' ' || c == '\t' || c == '\n' || c == '\u{b}' || c == '\u{c}' || c == '\r' || c == '\u{85}'
        || c == '\u{a0}' || c == '\u{1680}' || ('\u{2000}' <= c && c <= '\u{200a}') || c
        == '\u{2028}' || c == '\u{2029}' || c == '\u{202f}' || c == '\u{205f}' || c == '\u{3000}'
}

pub fn exec_all_allowed(s: &str) -> (r: bool)
    ensures
        r == all_allowed(s@),
{
    let n = s.unicode_len();
    let mut i: usize = 0;
    while i < n
        invariant
            n == s@.len(),
            i <= n,
            forall|j: int| 0 <= j < i ==> is_allowed_char(#[trigger] s@[j]),
        decreases n - i,
    {
        if !exec_is_allowed_char(s.get_char(i)) {
            return false;
        }
        i += 1;
    }
    true
}

pub fn exec_all_region(s: &str) -> (r: bool)
    ensures
        r == all_region(s@),
{
    let n = s.unicode_len();
    let mut i: usize = 0;
    while i < n
        invariant
            n == s@.len(),
            i <= n,
            forall|j: int| 0 <= j < i ==> is_region_char(#[trigger] s@[j]),
        decreases n - i,
    {
        if !exec_is_region_char(s.get_char(i)) {
            return false;
        }
        i += 1;
    }
    true
}

// ---------------------------------------------------------------------------
// Searching for delimiters
// ---------------------------------------------------------------------------

/// A character at which the grammar's field parsers stop.
pub open spec fn is_delim(c: char) -> bool {
    c == ':' || c == '/'
}

/// Position of the first occurrence of `c` in `s`.
pub open spec fn find_ch(s: Seq<char>, c: char) -> Option<int>
    decreases s.len(),
{
    if s.len() == 0 {
        None
    } else if s[0] == c {
        Some(0int)
    } else {
        match find_ch(s.skip(1), c) {
            Some(i) => Some(i + 1),
            None => None,
        }
    }
}

/// Position of the first `:` or `/` in `s`.
pub open spec fn find_stop(s: Seq<char>) -> Option<int>
    decreases s.len(),
{
    if s.len() == 0 {
        None
    } else if is_delim(s[0]) {
        Some(0int)
    } else {
        match find_stop(s.skip(1)) {
            Some(i) => Some(i + 1),
            None => None,
        }
    }
}

/// Position of the last occurrence of `c` in `s`.
pub open spec fn find_last_ch(s: Seq<char>, c: char) -> Option<int>
    decreases s.len(),
{
    if s.len() == 0 {
        None
    } else if s[s.len() - 1] == c {
        Some(s.len() - 1)
    } else {
        find_last_ch(s.drop_last(), c)
    }
}

pub broadcast proof fn lemma_find_ch_props(s: Seq<char>, c: char)
    ensures
        #![trigger find_ch(s, c)]
        match find_ch(s, c) {
            Some(i) => 0 <= i < s.len() && s[i] == c && forall|j: int| 0 <= j < i ==> s[j] != c,
            None => forall|j: int| 0 <= j < s.len() ==> s[j] != c,
        },
    decreases s.len(),
{
    if s.len() > 0 && s[0] != c {
        lemma_find_ch_props(s.skip(1), c);
        if find_ch(s.skip(1), c) is Some {
            let i = find_ch(s.skip(1), c)->0;
            assert(s[i + 1] == s.skip(1)[i]);
            assert forall|j: int| 0 <= j < i + 1 implies s[j] != c by {
                if j > 0 {
                    assert(s.skip(1)[j - 1] != c);
                }
            }
        } else {
            assert forall|j: int| 0 <= j < s.len() implies s[j] != c by {
                if j > 0 {
                    assert(s.skip(1)[j - 1] != c);
                }
            }
        }
    }
}

pub broadcast proof fn lemma_find_stop_props(s: Seq<char>)
    ensures
        #![trigger find_stop(s)]
        match find_stop(s) {
            Some(i) => 0 <= i < s.len() && is_delim(s[i]) && forall|j: int|
                0 <= j < i ==> !is_delim(s[j]),
            None => forall|j: int| 0 <= j < s.len() ==> !is_delim(s[j]),
        },
    decreases s.len(),
{
    if s.len() > 0 && !is_delim(s[0]) {
        lemma_find_stop_props(s.skip(1));
        if find_stop(s.skip(1)) is Some {
            let i = find_stop(s.skip(1))->0;
            assert(s[i + 1] == s.skip(1)[i]);
            assert forall|j: int| 0 <= j < i + 1 implies !is_delim(s[j]) by {
                if j > 0 {
                    assert(!is_delim(s.skip(1)[j - 1]));
                }
            }
        } else {
            assert forall|j: int| 0 <= j < s.len() implies !is_delim(s[j]) by {
                if j > 0 {
                    assert(!is_delim(s.skip(1)[j - 1]));
                }
            }
        }
    }
}

pub broadcast proof fn lemma_find_last_ch_props(s: Seq<char>, c: char)
    ensures
        #![trigger find_last_ch(s, c)]
        match find_last_ch(s, c) {
            Some(i) => 0 <= i < s.len() && s[i] == c && forall|j: int|
                i < j < s.len() ==> s[j] != c,
            None => forall|j: int| 0 <= j < s.len() ==> s[j] != c,
        },
    decreases s.len(),
{
    if s.len() > 0 && s[s.len() - 1] != c {
        lemma_find_last_ch_props(s.drop_last(), c);
        if find_last_ch(s.drop_last(), c) is Some {
            let i = find_last_ch(s.drop_last(), c)->0;
            assert(s[i] == s.drop_last()[i]);
            assert forall|j: int| i < j < s.len() implies s[j] != c by {
                if j < s.len() - 1 {
                    assert(s.drop_last()[j] != c);
                }
            }
        } else {
            assert forall|j: int| 0 <= j < s.len() implies s[j] != c by {
                if j < s.len() - 1 {
                    assert(s.drop_last()[j] != c);
                }
            }
        }
    }
}

pub fn exec_find_ch(s: &str, c: char) -> (r: Option<usize>)
    ensures
        match r {
            Some(i) => find_ch(s@, c) == Some(i as int),
            None => find_ch(s@, c) is None,
        },
{
    let n = s.unicode_len();
    let mut i: usize = 0;
    while i < n
        invariant
            n == s@.len(),
            i <= n,
            forall|j: int| 0 <= j < i ==> s@[j] != c,
        decreases n - i,
    {
        if s.get_char(i) == c {
            proof {
                lemma_find_ch_props(s@, c);
            }
            return Some(i);
        }
        i += 1;
    }
    proof {
        lemma_find_ch_props(s@, c);
    }
    None
}

pub fn exec_find_stop(s: &str) -> (r: Option<usize>)
    ensures
        match r {
            Some(i) => find_stop(s@) == Some(i as int),
            None => find_stop(s@) is None,
        },
{
    let n = s.unicode_len();
    let mut i: usize = 0;
    while i < n
        invariant
            n == s@.len(),
            i <= n,
            forall|j: int| 0 <= j < i ==> !is_delim(#[trigger] s@[j]),
        decreases n - i,
    {
        let ch = s.get_char(i);
        if ch == ':' || ch == '/' {
            proof {
                lemma_find_stop_props(s@);
            }
            return Some(i);
        }
        i += 1;
    }
    proof {
        lemma_find_stop_props(s@);
    }
    None
}

pub fn exec_find_last_ch(s: &str, c: char) -> (r: Option<usize>)
    ensures
        match r {
            Some(i) => find_last_ch(s@, c) == Some(i as int),
            None => find_last_ch(s@, c) is None,
        },
{
    let n = s.unicode_len();
    let mut i: usize = n;
    while i > 0
        invariant
            n == s@.len(),
            i <= n,
            forall|j: int| i <= j < n ==> s@[j] != c,
        decreases i,
    {
        if s.get_char(i - 1) == c {
            proof {
                lemma_find_last_ch_props(s@, c);
            }
            return Some(i - 1);
        }
        i -= 1;
    }
    proof {
        lemma_find_last_ch_props(s@, c);
    }
    None
}

// ---------------------------------------------------------------------------
// Trimming
// ---------------------------------------------------------------------------

pub open spec fn trim_start_spec(s: Seq<char>) -> Seq<char>
    decreases s.len(),
{
    if s.len() > 0 && is_ws(s[0]) {
        trim_start_spec(s.skip(1))
    } else {
        s
    }
}

pub open spec fn trim_end_spec(s: Seq<char>) -> Seq<char>
    decreases s.len(),
{
    if s.len() > 0 && is_ws(s[s.len() - 1]) {
        trim_end_spec(s.drop_last())
    } else {
        s
    }
}

/// Leading and trailing whitespace removed.
pub open spec fn trim_spec(s: Seq<char>) -> Seq<char> {
    trim_end_spec(trim_start_spec(s))
}

/// A sequence without whitespace at either end trims to itself.
pub proof fn lemma_trim_no_ws(s: Seq<char>)
    requires
        forall|i: int| 0 <= i < s.len() ==> !is_ws(#[trigger] s[i]),
    ensures
        trim_spec(s) == s,
{
}

pub fn exec_trim<'a>(s: &'a str) -> (r: &'a str)
    ensures
        r@ == trim_spec(s@),
{
    let n = s.unicode_len();
    let mut lo: usize = 0;
    proof {
        assert(s@.skip(0) =~= s@);
    }
    while lo < n && exec_is_ws(s.get_char(lo))
        invariant
            n == s@.len(),
            lo <= n,
            trim_start_spec(s@) == trim_start_spec(s@.skip(lo as int)),
        decreases n - lo,
    {
        proof {
            assert(s@.skip(lo as int).skip(1) =~= s@.skip(lo as int + 1));
        }
        lo += 1;
    }
    proof {
        assert(trim_start_spec(s@) == s@.skip(lo as int));
        assert(s@.skip(lo as int) =~= s@.subrange(lo as int, n as int));
    }
    let mut hi: usize = n;
    while hi > lo && exec_is_ws(s.get_char(hi - 1))
        invariant
            n == s@.len(),
            lo <= hi <= n,
            trim_end_spec(s@.subrange(lo as int, n as int)) == trim_end_spec(
                s@.subrange(lo as int, hi as int),
            ),
        decreases hi,
    {
        proof {
            assert(s@.subrange(lo as int, hi as int).drop_last() =~= s@.subrange(
                lo as int,
                hi as int - 1,
            ));
        }
        hi -= 1;
    }
    s.substring_char(lo, hi)
}

// ---------------------------------------------------------------------------
// Comparing and assembling
// ---------------------------------------------------------------------------

/// Character-for-character equality of two string slices.
pub fn str_eq(a: &str, b: &str) -> (r: bool)
    ensures
        r == (a@ == b@),
{
    let na = a.unicode_len();
    let nb = b.unicode_len();
    if na != nb {
        return false;
    }
    let mut i: usize = 0;
    while i < na
        invariant
            na == a@.len(),
            nb == b@.len(),
            na == nb,
            i <= na,
            forall|j: int| 0 <= j < i ==> a@[j] == b@[j],
        decreases na - i,
    {
        if a.get_char(i) != b.get_char(i) {
            return false;
        }
        i += 1;
    }
    proof {
        assert(a@ =~= b@);
    }
    true
}

/// Whether `needle` occurs as a contiguous run of characters inside `hay`.
pub open spec fn contains_seq(hay: Seq<char>, needle: Seq<char>) -> bool {
    exists|i: int|
        0 <= i && i + needle.len() <= hay.len() && #[trigger] hay.subrange(i, i + needle.len())
            == needle
}

// ---------------------------------------------------------------------------
// Splitting and rewriting
// ---------------------------------------------------------------------------

/// The segments of `s` between the occurrences of `c`: one segment more
/// than there are occurrences, in order, each without `c`.
pub open spec fn split_ch(s: Seq<char>, c: char) -> Seq<Seq<char>>
    decreases s.len(),
{
    match find_ch(s, c) {
        Some(i) => if 0 <= i < s.len() {
            seq![s.take(i)] + split_ch(s.skip(i + 1), c)
        } else {
            seq![s]
        },
        None => seq![s],
    }
}

pub fn exec_split_ch(s: &str, c: char) -> (r: Vec<String>)
    ensures
        r.deep_view() == split_ch(s@, c),
{
    let mut parts: Vec<String> = Vec::new();
    let mut rem: &str = s;
    proof {
        assert(parts.deep_view() =~= Seq::<Seq<char>>::empty());
        assert(Seq::<Seq<char>>::empty() + split_ch(rem@, c) =~= split_ch(rem@, c));
    }
    loop
        invariant_except_break
            split_ch(s@, c) == parts.deep_view() + split_ch(rem@, c),
        ensures
            parts.deep_view() == split_ch(s@, c),
        decreases rem@.len(),
    {
        let n = rem.unicode_len();
        let ghost old_dv = parts.deep_view();
        let ghost old_rem = rem@;
        match exec_find_ch(rem, c) {
            Some(i) => {
                proof {
                    lemma_find_ch_props(old_rem, c);
                }
                parts.push(String::from_str(rem.substring_char(0, i)));
                rem = rem.substring_char(i + 1, n);
                proof {
                    assert(rem@ =~= old_rem.skip(i + 1));
                    assert(parts.deep_view() =~= old_dv + seq![old_rem.take(i as int)]);
                    assert(old_dv + (seq![old_rem.take(i as int)] + split_ch(rem@, c)) =~= (old_dv
                        + seq![old_rem.take(i as int)]) + split_ch(rem@, c));
                }
            },
            None => {
                parts.push(String::from_str(rem));
                proof {
                    assert(parts.deep_view() =~= old_dv + seq![old_rem]);
                }
                break ;
            },
        }
    }
    parts
}

/// `s` without its leading zero characters.
pub open spec fn skip_zeros(s: Seq<char>) -> Seq<char>
    decreases s.len(),
{
    if s.len() > 0 && s[0] == '0' {
        skip_zeros(s.skip(1))
    } else {
        s
    }
}

pub fn exec_skip_zeros<'a>(s: &'a str) -> (r: &'a str)
    ensures
        r@ == skip_zeros(s@),
{
    let n = s.unicode_len();
    let mut i: usize = 0;
    proof {
        assert(s@.skip(0) =~= s@);
    }
    while i < n && s.get_char(i) == '0'
        invariant
            n == s@.len(),
            i <= n,
            skip_zeros(s@) == skip_zeros(s@.skip(i as int)),
        decreases n - i,
    {
        proof {
            assert(s@.skip(i as int).skip(1) =~= s@.skip(i as int + 1));
        }
        i += 1;
    }
    proof {
        assert(s@.subrange(i as int, n as int) =~= s@.skip(i as int));
    }
    s.substring_char(i, n)
}

/// Each colon replaced by `$3A`, each hash sign by `$2523`, and each slash
/// by `$252F`; every other character kept.
pub open spec fn escape_log_group(s: Seq<char>) -> Seq<char>
    decreases s.len(),
{
    if s.len() == 0 {
        Seq::<char>::empty()
    } else {
        (if s[0] == ':' {
            "$3A"@
        } else if s[0] == '#' {
            "$2523"@
        } else if s[0] == '/' {
            "$252F"@
        } else {
            seq![s[0]]
        }) + escape_log_group(s.skip(1))
    }
}

pub fn exec_escape_log_group(s: &str) -> (r: String)
    ensures
        r@ == escape_log_group(s@),
{
    let n = s.unicode_len();
    let mut out = String::new();
    let mut i: usize = 0;
    proof {
        assert(Seq::<char>::empty() + escape_log_group(s@) =~= escape_log_group(s@));
        assert(s@.skip(0) =~= s@);
    }
    while i < n
        invariant
            n == s@.len(),
            i <= n,
            out@ + escape_log_group(s@.skip(i as int)) == escape_log_group(s@),
        decreases n - i,
    {
        let ghost old_out = out@;
        let ghost t = s@.skip(i as int);
        let c = s.get_char(i);
        if c == ':' {
            out.append("$3A");
        } else if c == '#' {
            out.append("$2523");
        } else if c == '/' {
            out.append("$252F");
        } else {
            out.append(s.substring_char(i, i + 1));
            proof {
                assert(s@.subrange(i as int, i as int + 1) =~= seq![t[0]]);
            }
        }
        proof {
            assert(t.skip(1) =~= s@.skip(i as int + 1));
            let head = if t[0] == ':' {
                "$3A"@
            } else if t[0] == '#' {
                "$2523"@
            } else if t[0] == '/' {
                "$252F"@
            } else {
                seq![t[0]]
            };
            assert(old_out + (head + escape_log_group(t.skip(1))) =~= (old_out + head)
                + escape_log_group(t.skip(1)));
        }
        i += 1;
    }
    proof {
        assert(s@.skip(n as int) =~= Seq::<char>::empty());
        assert(out@ + Seq::<char>::empty() =~= out@);
    }
    out
}

/// Position of the first occurrence of `needle` as a contiguous run inside
/// `hay`.
pub open spec fn find_sub(hay: Seq<char>, needle: Seq<char>) -> Option<int>
    decreases hay.len(),
{
    if needle.len() > hay.len() {
        None
    } else if hay.take(needle.len() as int) == needle {
        Some(0int)
    } else if hay.len() == 0 {
        None
    } else {
        match find_sub(hay.skip(1), needle) {
            Some(i) => Some(i + 1),
            None => None,
        }
    }
}

pub proof fn lemma_find_sub_props(hay: Seq<char>, needle: Seq<char>)
    ensures
        match find_sub(hay, needle) {
            Some(i) => 0 <= i && i + needle.len() <= hay.len() && hay.subrange(
                i,
                i + needle.len() as int,
            ) == needle && forall|j: int|
                0 <= j < i ==> #[trigger] hay.subrange(j, j + needle.len() as int) != needle,
            None => forall|j: int|
                0 <= j && j + needle.len() <= hay.len() ==> #[trigger] hay.subrange(
                    j,
                    j + needle.len() as int,
                ) != needle,
        },
    decreases hay.len(),
{
    if needle.len() > hay.len() {
    } else if hay.take(needle.len() as int) == needle {
        assert(hay.subrange(0, needle.len() as int) == hay.take(needle.len() as int));
    } else if hay.len() == 0 {
        assert(hay.take(needle.len() as int) =~= needle);
    } else {
        lemma_find_sub_props(hay.skip(1), needle);
        match find_sub(hay.skip(1), needle) {
            Some(k) => {
                assert(hay.subrange(k + 1, k + 1 + needle.len() as int) =~= hay.skip(1).subrange(
                    k,
                    k + needle.len() as int,
                ));
                assert forall|j: int| 0 <= j < k + 1 implies #[trigger] hay.subrange(
                    j,
                    j + needle.len() as int,
                ) != needle by {
                    if j == 0 {
                        assert(hay.subrange(0, needle.len() as int) =~= hay.take(
                            needle.len() as int,
                        ));
                    } else {
                        assert(hay.skip(1).subrange(j - 1, j - 1 + needle.len() as int)
                            =~= hay.subrange(j, j + needle.len() as int));
                    }
                }
            },
            None => {
                assert forall|j: int| 0 <= j && j + needle.len() <= hay.len() implies #[trigger] hay
                    .subrange(j, j + needle.len() as int) != needle by {
                    if j == 0 {
                        assert(hay.subrange(0, needle.len() as int) =~= hay.take(
                            needle.len() as int,
                        ));
                    } else {
                        assert(hay.skip(1).subrange(j - 1, j - 1 + needle.len() as int)
                            =~= hay.subrange(j, j + needle.len() as int));
                    }
                }
            },
        }
    }
}

/// `s` with every occurrence of `pat` removed, scanning once from the
/// left; the text behind a removed occurrence is scanned afresh, so no
/// occurrence that spans a removal is removed itself.
pub open spec fn remove_all_sub(s: Seq<char>, pat: Seq<char>) -> Seq<char>
    decreases s.len(),
{
    if pat.len() == 0 {
        s
    } else {
        match find_sub(s, pat) {
            Some(i) => if 0 <= i && i + pat.len() <= s.len() {
                s.take(i) + remove_all_sub(s.skip(i + pat.len() as int), pat)
            } else {
                s
            },
            None => s,
        }
    }
}

proof fn lemma_remove_all_sub_head_match(s: Seq<char>, pat: Seq<char>)
    requires
        pat.len() > 0,
        pat.len() <= s.len(),
        s.take(pat.len() as int) == pat,
    ensures
        remove_all_sub(s, pat) == remove_all_sub(s.skip(pat.len() as int), pat),
{
    assert(find_sub(s, pat) == Some(0int));
    assert(s.take(0) + remove_all_sub(s.skip(pat.len() as int), pat) =~= remove_all_sub(
        s.skip(pat.len() as int),
        pat,
    ));
}

proof fn lemma_remove_all_sub_head_miss(s: Seq<char>, pat: Seq<char>)
    requires
        pat.len() > 0,
        s.len() > 0,
        pat.len() > s.len() || s.take(pat.len() as int) != pat,
    ensures
        remove_all_sub(s, pat) == seq![s[0]] + remove_all_sub(s.skip(1), pat),
{
    if pat.len() > s.len() {
        assert(find_sub(s, pat) is None);
        assert(find_sub(s.skip(1), pat) is None);
        assert(seq![s[0]] + s.skip(1) =~= s);
    } else {
        match find_sub(s.skip(1), pat) {
            Some(k) => {
                lemma_find_sub_props(s.skip(1), pat);
                assert(find_sub(s, pat) == Some(k + 1));
                assert(s.skip(1).skip(k + pat.len() as int) =~= s.skip(k + 1 + pat.len() as int));
                assert(seq![s[0]] + (s.skip(1).take(k) + remove_all_sub(
                    s.skip(k + 1 + pat.len() as int),
                    pat,
                )) =~= s.take(k + 1) + remove_all_sub(s.skip(k + 1 + pat.len() as int), pat));
            },
            None => {
                assert(find_sub(s, pat) is None);
                assert(seq![s[0]] + s.skip(1) =~= s);
            },
        }
    }
}

pub fn exec_remove_all_sub(s: &str, pat: &str) -> (r: String)
    ensures
        r@ == remove_all_sub(s@, pat@),
{
    let n = s.unicode_len();
    let np = pat.unicode_len();
    if np == 0 {
        return String::from_str(s);
    }
    let mut out = String::new();
    let mut i: usize = 0;
    proof {
        assert(Seq::<char>::empty() + remove_all_sub(s@, pat@) =~= remove_all_sub(s@, pat@));
        assert(s@.skip(0) =~= s@);
    }
    while i < n
        invariant
            n == s@.len(),
            np == pat@.len(),
            np >= 1,
            i <= n,
            out@ + remove_all_sub(s@.skip(i as int), pat@) == remove_all_sub(s@, pat@),
        decreases n - i,
    {
        let ghost old_out = out@;
        let ghost t = s@.skip(i as int);
        if np <= n - i && str_eq(s.substring_char(i, i + np), pat) {
            proof {
                assert(t.take(np as int) =~= s@.subrange(i as int, i as int + np as int));
                lemma_remove_all_sub_head_match(t, pat@);
                assert(t.skip(np as int) =~= s@.skip(i as int + np as int));
            }
            i += np;
        } else {
            out.append(s.substring_char(i, i + 1));
            proof {
                assert(s@.subrange(i as int, i as int + 1) =~= seq![t[0]]);
                if np <= n - i {
                    assert(t.take(np as int) =~= s@.subrange(i as int, i as int + np as int));
                }
                lemma_remove_all_sub_head_miss(t, pat@);
                assert(t.skip(1) =~= s@.skip(i as int + 1));
                assert(old_out + (seq![t[0]] + remove_all_sub(s@.skip(i as int + 1), pat@)) =~= (
                old_out + seq![t[0]]) + remove_all_sub(s@.skip(i as int + 1), pat@));
            }
            i += 1;
        }
    }
    proof {
        assert(s@.skip(n as int) =~= Seq::<char>::empty());
        assert(out@ + Seq::<char>::empty() =~= out@);
    }
    out
}

pub fn exec_contains(hay: &str, needle: &str) -> (r: bool)
    ensures
        r == contains_seq(hay@, needle@),
{
    let nh = hay.unicode_len();
    let nn = needle.unicode_len();
    if nn > nh {
        return false;
    }
    if nn == 0 {
        proof {
            assert(0 + needle@.len() <= hay@.len() && hay@.subrange(0, 0 + needle@.len() as int)
                =~= needle@);
        }
        return true;
    }
    let mut i: usize = 0;
    while i <= nh - nn
        invariant
            nh == hay@.len(),
            nn == needle@.len(),
            1 <= nn <= nh,
            i <= nh - nn + 1,
            forall|k: int| 0 <= k < i ==> #[trigger] hay@.subrange(k, k + nn as int) != needle@,
        decreases nh + 1 - i,
    {
        let sub = hay.substring_char(i, i + nn);
        if str_eq(sub, needle) {
            return true;
        }
        i += 1;
    }
    false
}

} // verus!

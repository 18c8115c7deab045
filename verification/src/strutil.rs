//! Verified string helpers: equality, prefix handling, searching, trimming,
//! splitting and joining, and path-style concatenation over `&str` values
//! viewed as sequences of characters.

use vstd::prelude::*;
use vstd::string::*;

verus! {

/// `p` is an initial segment of `s`.
pub open spec fn spec_has_prefix(s: Seq<char>, p: Seq<char>) -> bool {
    p.len() <= s.len() && s.subrange(0, p.len() as int) == p
}

/// First index of `c` in `s`, if any.
pub open spec fn spec_find_char(s: Seq<char>, c: char) -> Option<int>
    decreases s.len(),
{
    if s.len() == 0 {
        None
    } else if s[0] == c {
        Some(0)
    } else {
        match spec_find_char(s.skip(1), c) {
            None => None,
            Some(i) => Some(i + 1),
        }
    }
}

/// `spec_find_char` returns exactly the first position holding `c`.
pub proof fn lemma_find_char_first(s: Seq<char>, c: char)
    ensures
        match spec_find_char(s, c) {
            None => forall|j: int| 0 <= j < s.len() ==> s[j] != c,
            Some(i) => 0 <= i < s.len() && s[i] == c && (forall|j: int| 0 <= j < i ==> s[j] != c),
        },
    decreases s.len(),
{
    if s.len() > 0 && s[0] != c {
        lemma_find_char_first(s.skip(1), c);
        assert forall|j: int| 1 <= j < s.len() implies s[j] == s.skip(1)[j - 1] by {}
    }
}

/// `sub` occurs somewhere in `s`.
pub open spec fn spec_contains_substr(s: Seq<char>, sub: Seq<char>) -> bool {
    exists|i: int|
        0 <= i && i + sub.len() <= s.len() && #[trigger] s.subrange(i, i + sub.len() as int) == sub
}

pub fn str_eq(a: &str, b: &str) -> (r: bool)
    ensures
        r == (a@ == b@),
{
    let alen = a.unicode_len();
    let blen = b.unicode_len();
    if alen != blen {
        return false;
    }
    let mut i: usize = 0;
    while i < alen
        invariant
            alen == a@.len(),
            alen == b@.len(),
            i <= alen,
            forall|j: int| 0 <= j < i ==> a@[j] == b@[j],
        decreases alen - i,
    {
        if a.get_char(i) != b.get_char(i) {
            return false;
        }
        i += 1;
    }
    proof {
        assert(a@ =~= b@);
    }
    true
}

pub fn has_prefix(s: &str, p: &str) -> (r: bool)
    ensures
        r == spec_has_prefix(s@, p@),
{
    let plen = p.unicode_len();
    let slen = s.unicode_len();
    if plen > slen {
        return false;
    }
    let mut i: usize = 0;
    while i < plen
        invariant
            plen == p@.len(),
            slen == s@.len(),
            plen <= slen,
            i <= plen,
            forall|j: int| 0 <= j < i ==> s@[j] == p@[j],
        decreases plen - i,
    {
        if s.get_char(i) != p.get_char(i) {
            assert(spec_has_prefix(s@, p@) ==> s@.subrange(0, plen as int)[i as int] == p@[i as int]);
            return false;
        }
        i += 1;
    }
    proof {
        assert(s@.subrange(0, plen as int) =~= p@);
    }
    true
}

/// What remains of `s` after removing the prefix `p`, when `p` is a prefix.
pub fn strip_prefix_str(s: &str, p: &str) -> (r: Option<String>)
    ensures
        r is Some <==> spec_has_prefix(s@, p@),
        r matches Some(rest) ==> rest@ == s@.skip(p@.len() as int),
{
    if has_prefix(s, p) {
        let rest = s.substring_char(p.unicode_len(), s.unicode_len());
        assert(rest@ =~= s@.skip(p@.len() as int));
        Some(rest.to_owned())
    } else {
        None
    }
}

pub fn find_char(s: &str, c: char) -> (r: Option<usize>)
    ensures
        r matches Some(i) ==> spec_find_char(s@, c) == Some(i as int),
        r is None ==> spec_find_char(s@, c) is None,
{
    let len = s.unicode_len();
    let mut i: usize = 0;
    while i < len
        invariant
            len == s@.len(),
            i <= len,
            forall|j: int| 0 <= j < i ==> s@[j] != c,
        decreases len - i,
    {
        if s.get_char(i) == c {
            proof {
                lemma_find_char_first(s@, c);
            }
            return Some(i);
        }
        i += 1;
    }
    proof {
        lemma_find_char_first(s@, c);
    }
    None
}

pub fn contains_substr(s: &str, sub: &str) -> (r: bool)
    ensures
        r == spec_contains_substr(s@, sub@),
{
    let slen = s.unicode_len();
    let sublen = sub.unicode_len();
    if sublen > slen {
        assert(!spec_contains_substr(s@, sub@));
        return false;
    }
    if sublen == 0 {
        assert(s@.subrange(0, 0 + sub@.len() as int) =~= sub@);
        return true;
    }
    let mut i: usize = 0;
    while i <= slen - sublen
        invariant
            slen == s@.len(),
            sublen == sub@.len(),
            0 < sublen <= slen,
            i <= slen - sublen + 1,
            forall|k: int|
                0 <= k < i ==> #[trigger] s@.subrange(k, k + sub@.len() as int) != sub@,
        decreases slen - i,
    {
        let mut j: usize = 0;
        let mut matches_here = true;
        while j < sublen
            invariant
                slen == s@.len(),
                sublen == sub@.len(),
                i + sublen <= slen,
                j <= sublen,
                matches_here ==> forall|t: int| 0 <= t < j ==> s@[i + t] == sub@[t],
                !matches_here ==> s@.subrange(i as int, i + sub@.len() as int) != sub@,
            decreases sublen - j,
        {
            if s.get_char(i + j) != sub.get_char(j) {
                assert(s@.subrange(i as int, i + sub@.len() as int)[j as int] == s@[i + j]);
                matches_here = false;
                j = sublen;
            } else {
                j += 1;
            }
        }
        if matches_here {
            assert(s@.subrange(i as int, i + sub@.len() as int) =~= sub@);
            return true;
        }
        i += 1;
    }
    assert forall|k: int| 0 <= k && k + sub@.len() <= s@.len() implies #[trigger] s@.subrange(
        k,
        k + sub@.len() as int,
    ) != sub@ by {
        assert(k < i);
    }
    false
}

/// A character the flag tokenizer treats as blank.
pub open spec fn is_flag_space(c: char) -> bool {
    c == ' ' || c == '\t' || c == '\r' || c == '\n'
}

fn flag_space(c: char) -> (r: bool)
    ensures
        r == is_flag_space(c),
{
    c == ' ' || c == '\t' || c == '\r' || c == '\n'
}

/// `s` without leading blank characters.
pub open spec fn spec_trim_left(s: Seq<char>) -> Seq<char>
    decreases s.len(),
{
    if s.len() > 0 && is_flag_space(s[0]) {
        spec_trim_left(s.skip(1))
    } else {
        s
    }
}

/// `s` without trailing blank characters.
pub open spec fn spec_trim_right(s: Seq<char>) -> Seq<char>
    decreases s.len(),
{
    if s.len() > 0 && is_flag_space(s.last()) {
        spec_trim_right(s.drop_last())
    } else {
        s
    }
}

/// `s` without leading and trailing blank characters.
pub open spec fn spec_trim(s: Seq<char>) -> Seq<char> {
    spec_trim_right(spec_trim_left(s))
}

fn trim_left(s: &str) -> (r: String)
    ensures
        r@ == spec_trim_left(s@),
    decreases s@.len(),
{
    let len = s.unicode_len();
    if len > 0 && flag_space(s.get_char(0)) {
        let rest = s.substring_char(1, len);
        assert(rest@ =~= s@.skip(1));
        trim_left(rest)
    } else {
        s.to_owned()
    }
}

fn trim_right(s: &str) -> (r: String)
    ensures
        r@ == spec_trim_right(s@),
    decreases s@.len(),
{
    let len = s.unicode_len();
    if len > 0 && flag_space(s.get_char(len - 1)) {
        let rest = s.substring_char(0, len - 1);
        assert(rest@ =~= s@.drop_last());
        trim_right(rest)
    } else {
        s.to_owned()
    }
}

pub fn trim_str(s: &str) -> (r: String)
    ensures
        r@ == spec_trim(s@),
{
    let left = trim_left(s);
    trim_right(left.as_str())
}

/// The segments of `s` between occurrences of `c`, in order; an `s` free of
/// `c` is one segment, and every occurrence of `c` separates two segments.
pub open spec fn spec_split_char(s: Seq<char>, c: char) -> Seq<Seq<char>>
    decreases s.len(),
    via spec_split_char_decreases
{
    match spec_find_char(s, c) {
        None => seq![s],
        Some(i) => seq![s.subrange(0, i)] + spec_split_char(s.skip(i + 1), c),
    }
}

#[via_fn]
proof fn spec_split_char_decreases(s: Seq<char>, c: char) {
    lemma_find_char_first(s, c);
}

pub fn split_on_char(s: &str, c: char) -> (r: Vec<String>)
    ensures
        r.deep_view() == spec_split_char(s@, c),
    decreases s@.len(),
{
    proof {
        lemma_find_char_first(s@, c);
    }
    match find_char(s, c) {
        None => {
            let mut r: Vec<String> = Vec::new();
            r.push(s.to_owned());
            assert(r.deep_view() =~= spec_split_char(s@, c));
            r
        },
        Some(i) => {
            let len = s.unicode_len();
            let first = s.substring_char(0, i).to_owned();
            let rest = s.substring_char(i + 1, len);
            assert(rest@ =~= s@.skip(i + 1));
            let mut r = split_on_char(rest, c);
            r.insert(0, first);
            assert(r.deep_view() =~= spec_split_char(s@, c));
            r
        },
    }
}

/// The elements of `list` joined by `sep`.
pub open spec fn spec_join(list: Seq<Seq<char>>, sep: Seq<char>) -> Seq<char>
    decreases list.len(),
{
    if list.len() == 0 {
        Seq::empty()
    } else if list.len() == 1 {
        list[0]
    } else {
        list[0] + sep + spec_join(list.skip(1), sep)
    }
}

fn join_from(list: &Vec<String>, sep: &str, i: usize) -> (r: String)
    requires
        i <= list.len(),
    ensures
        r@ == spec_join(list.deep_view().skip(i as int), sep@),
    decreases list.len() - i,
{
    if i == list.len() {
        let r = String::new();
        assert(list.deep_view().skip(i as int) =~= Seq::<Seq<char>>::empty());
        r
    } else if i + 1 == list.len() {
        assert(list.deep_view().skip(i as int).len() == 1);
        assert(list.deep_view().skip(i as int)[0] == list.deep_view()[i as int]);
        list[i].clone()
    } else {
        let mut r = list[i].clone();
        r.append(sep);
        let tail = join_from(list, sep, i + 1);
        r.append(tail.as_str());
        proof {
            let l = list.deep_view().skip(i as int);
            assert(l[0] == list.deep_view()[i as int]);
            assert(l.skip(1) =~= list.deep_view().skip(i as int + 1));
        }
        r
    }
}

pub fn join_with(list: &Vec<String>, sep: &str) -> (r: String)
    ensures
        r@ == spec_join(list.deep_view(), sep@),
{
    let r = join_from(list, sep, 0);
    assert(list.deep_view().skip(0) =~= list.deep_view());
    r
}

/// Two path components joined by a single separator.
pub open spec fn spec_path_join(a: Seq<char>, b: Seq<char>) -> Seq<char> {
    a + "/"@ + b
}

pub fn path_join(a: &str, b: &str) -> (r: String)
    ensures
        r@ == spec_path_join(a@, b@),
{
    let mut r = a.to_owned();
    r.append("/");
    r.append(b);
    r
}

pub fn concat_str(a: &str, b: &str) -> (r: String)
    ensures
        r@ == a@ + b@,
{
    let mut r = a.to_owned();
    r.append(b);
    r
}


/// The escape of one character inside a quoted path: quotes and backslashes
/// are preceded by a backslash, all else stands as it is.
pub open spec fn escape_char(c: char) -> Seq<char> {
    if c == '"' {
        seq!['\\', '"']
    } else if c == '\\' {
        seq!['\\', '\\']
    } else {
        seq![c]
    }
}

/// The body of a quoted path: every character escaped, in order.
pub open spec fn spec_escaped(s: Seq<char>) -> Seq<char>
    decreases s.len(),
{
    if s.len() == 0 {
        Seq::empty()
    } else {
        spec_escaped(s.drop_last()) + escape_char(s.last())
    }
}

/// A path wrapped in double quotes with quotes and backslashes escaped.
pub open spec fn spec_quoted(s: Seq<char>) -> Seq<char> {
    seq!['"'] + spec_escaped(s) + seq!['"']
}

/// Renders a path as a double-quoted string, escaping quotes and
/// backslashes.
pub fn quote_path(s: &str) -> (r: String)
    ensures
        r@ == spec_quoted(s@),
{
    let len = s.unicode_len();
    let mut r = "\"".to_owned();
    proof {
        reveal_strlit("\"");
        assert(r@ =~= seq!['"'] + spec_escaped(s@.subrange(0, 0)));
    }
    let mut i: usize = 0;
    while i < len
        invariant
            len == s@.len(),
            i <= len,
            r@ == seq!['"'] + spec_escaped(s@.subrange(0, i as int)),
        decreases len - i,
    {
        let ghost pre = s@.subrange(0, i as int);
        let ghost cur = s@.subrange(0, i as int + 1);
        proof {
            assert(cur.drop_last() =~= pre);
            assert(cur.last() == s@[i as int]);
        }
        let c = s.get_char(i);
        if c == '"' {
            r.append("\\\"");
            proof {
                reveal_strlit("\\\"");
                assert("\\\""@ =~= escape_char(s@[i as int]));
            }
        } else if c == '\\' {
            r.append("\\\\");
            proof {
                reveal_strlit("\\\\");
                assert("\\\\"@ =~= escape_char(s@[i as int]));
            }
        } else {
            let one = s.substring_char(i, i + 1);
            assert(one@ =~= escape_char(s@[i as int]));
            r.append(one);
        }
        proof {
            assert(r@ =~= seq!['"'] + spec_escaped(cur));
        }
        i += 1;
    }
    r.append("\"");
    proof {
        reveal_strlit("\"");
        assert(s@.subrange(0, len as int) =~= s@);
        assert(r@ =~= spec_quoted(s@));
    }
    r
}


/// Last index of `c` in `s`, if any.
pub open spec fn spec_rfind_char(s: Seq<char>, c: char) -> Option<int>
    decreases s.len(),
{
    if s.len() == 0 {
        None
    } else if s.last() == c {
        Some(s.len() - 1)
    } else {
        spec_rfind_char(s.drop_last(), c)
    }
}

/// `spec_rfind_char` returns exactly the last position holding `c`.
pub proof fn lemma_rfind_char_last(s: Seq<char>, c: char)
    ensures
        match spec_rfind_char(s, c) {
            None => forall|j: int| 0 <= j < s.len() ==> s[j] != c,
            Some(i) => 0 <= i < s.len() && s[i] == c && (forall|j: int|
                i < j < s.len() ==> s[j] != c),
        },
    decreases s.len(),
{
    if s.len() > 0 && s.last() != c {
        lemma_rfind_char_last(s.drop_last(), c);
        assert forall|j: int| 0 <= j < s.len() - 1 implies s[j] == s.drop_last()[j] by {}
    }
}

pub fn rfind_char(s: &str, c: char) -> (r: Option<usize>)
    ensures
        r matches Some(i) ==> spec_rfind_char(s@, c) == Some(i as int),
        r is None ==> spec_rfind_char(s@, c) is None,
{
    let len = s.unicode_len();
    let mut i: usize = len;
    while i > 0
        invariant
            len == s@.len(),
            i <= len,
            forall|j: int| i <= j < len ==> s@[j] != c,
        decreases i,
    {
        i -= 1;
        if s.get_char(i) == c {
            proof {
                lemma_rfind_char_last(s@, c);
            }
            return Some(i);
        }
    }
    proof {
        lemma_rfind_char_last(s@, c);
    }
    None
}

/// The directory part of a path: what stands before its last separator.
pub open spec fn spec_parent_dir(s: Seq<char>) -> Option<Seq<char>> {
    match spec_rfind_char(s, '/') {
        Some(i) => Some(s.subrange(0, i)),
        None => None,
    }
}

/// The directory part of a path, when the path has one.
pub fn parent_dir(s: &str) -> (r: Option<String>)
    ensures
        r.deep_view() == spec_parent_dir(s@),
{
    proof {
        lemma_rfind_char_last(s@, '/');
    }
    match rfind_char(s, '/') {
        Some(i) => {
            let p = s.substring_char(0, i);
            assert(p@ =~= s@.subrange(0, i as int));
            Some(p.to_owned())
        },
        None => None,
    }
}

} // verus!\n
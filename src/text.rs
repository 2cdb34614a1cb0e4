//! Small verified helpers on text: characters of a string, searching and
//! joining path components.

use vstd::prelude::*;

verus! {

/// Relies on std's `FromIterator<char>` for `String`: the string holds exactly
/// the given characters, in order.
#[verifier::external_body]
pub(crate) fn string_from_chars(cs: &[char]) -> (r: String)
    ensures
        r@ == cs@,
{
    cs.iter().collect()
}

/// The characters of `s`, in order.
pub fn chars_of(s: &str) -> (r: Vec<char>)
    ensures
        r@ == s@,
{
    let n = s.unicode_len();
    let mut out: Vec<char> = Vec::new();
    let mut i: usize = 0;
    while i < n
        invariant
            n == s@.len(),
            i <= n,
            out@ == s@.subrange(0, i as int),
        decreases n - i,
    {
        out.push(s.get_char(i));
        i = i + 1;
        assert(out@ =~= s@.subrange(0, i as int));
    }
    assert(out@ =~= s@);
    out
}

/// `needle` occurs in `hay` starting at position `i`.
pub open spec fn occurs_at(hay: Seq<char>, needle: Seq<char>, i: int) -> bool {
    0 <= i && i + needle.len() <= hay.len() && hay.subrange(i, i + needle.len()) == needle
}

/// `needle` occurs somewhere in `hay`.
pub open spec fn contains_seq(hay: Seq<char>, needle: Seq<char>) -> bool {
    exists|i: int| occurs_at(hay, needle, i)
}

/// `hay` ends with `suffix`.
pub open spec fn ends_with_seq(hay: Seq<char>, suffix: Seq<char>) -> bool {
    suffix.len() <= hay.len() && hay.subrange(hay.len() - suffix.len(), hay.len() as int)
        == suffix
}

fn occurs_at_exec(hay: &Vec<char>, needle: &Vec<char>, i: usize) -> (r: bool)
    requires
        i + needle@.len() <= hay@.len(),
    ensures
        r == occurs_at(hay@, needle@, i as int),
{
    let hn = hay.len();
    let mut j: usize = 0;
    while j < needle.len()
        invariant
            hn == hay@.len(),
            i + needle@.len() <= hay@.len(),
            j <= needle@.len(),
            forall|k: int| 0 <= k < j ==> hay@[i + k] == needle@[k],
        decreases needle@.len() - j,
    {
        if hay[i + j] != needle[j] {
            proof {
                let sub = hay@.subrange(i as int, i + needle@.len());
                assert(sub[j as int] != needle@[j as int]);
            }
            return false;
        }
        j = j + 1;
    }
    assert(hay@.subrange(i as int, i + needle@.len()) =~= needle@);
    true
}

/// Whether `needle` occurs in `hay`.
pub fn contains_chars(hay: &Vec<char>, needle: &Vec<char>) -> (r: bool)
    ensures
        r == contains_seq(hay@, needle@),
{
    if needle.len() > hay.len() {
        return false;
    }
    if needle.len() == 0 {
        assert(hay@.subrange(0, 0) =~= needle@);
        assert(occurs_at(hay@, needle@, 0));
        return true;
    }
    let hn = hay.len();
    let last = hn - needle.len();
    let mut i: usize = 0;
    while i <= last
        invariant
            hn == hay@.len(),
            needle@.len() > 0,
            last == hay@.len() - needle@.len(),
            i <= last + 1,
            forall|k: int| 0 <= k < i ==> !occurs_at(hay@, needle@, k),
        decreases last + 1 - i,
    {
        if occurs_at_exec(hay, needle, i) {
            return true;
        }
        i = i + 1;
    }
    false
}

/// Whether `hay` ends with `suffix`.
pub fn ends_with_chars(hay: &Vec<char>, suffix: &Vec<char>) -> (r: bool)
    ensures
        r == ends_with_seq(hay@, suffix@),
{
    if suffix.len() > hay.len() {
        return false;
    }
    let start = hay.len() - suffix.len();
    let r = occurs_at_exec(hay, suffix, start);
    r
}

/// The path `part` appended to `base` as `Path::join` does on Unix: an
/// absolute `part` replaces `base`; otherwise one `/` separates the two
/// unless `base` is empty or already ends with one.
pub open spec fn join_spec(base: Seq<char>, part: Seq<char>) -> Seq<char> {
    if part.len() > 0 && part[0] == '/' {
        part
    } else if base.len() == 0 || base.last() == '/' {
        base + part
    } else {
        base + seq!['/'] + part
    }
}

/// Joins two path components (see `join_spec`).
pub fn join_path(base: &str, part: &str) -> (r: String)
    ensures
        r@ == join_spec(base@, part@),
{
    proof {
        reveal_strlit("/");
    }
    let pn = part.unicode_len();
    let bn = base.unicode_len();
    if pn > 0 && part.get_char(0) == '/' {
        return String::from_str(part);
    }
    let mut out = String::from_str(base);
    if !(bn == 0 || base.get_char(bn - 1) == '/') {
        out.append("/");
    }
    out.append(part);
    out
}

/// `s` without one leading `/`, if it has one.
pub open spec fn strip_slash(s: Seq<char>) -> Seq<char> {
    if s.len() > 0 && s[0] == '/' {
        s.drop_first()
    } else {
        s
    }
}

/// Removes one leading `/`, if there is one.
pub fn strip_leading_slash(s: &str) -> (r: String)
    ensures
        r@ == strip_slash(s@),
{
    let cs = chars_of(s);
    if cs.len() > 0 && cs[0] == '/' {
        let rest = cs.as_slice().split_at(1).1;
        let r = string_from_chars(rest);
        assert(rest@ =~= s@.drop_first());
        r
    } else {
        String::from_str(s)
    }
}

/// The texts of a list of strings.
pub open spec fn strings_view(v: Seq<String>) -> Seq<Seq<char>> {
    v.map_values(|s: String| s@)
}

/// Whether `a` holds exactly the text `b`.
pub fn eq_str(a: &String, b: &str) -> (r: bool)
    ensures
        r == (a@ == b@),
{
    *a == String::from_str(b)
}

} // verus!

//! Verified text helpers: substring search and endpoint trimming.
//!
//! These are the few string operations the core needs beyond what the
//! standard library's specifications already cover: finding the first
//! occurrence of a pattern (used to split namespaced tool names and to
//! filter model identifiers) and stripping trailing slashes from endpoint
//! URLs before a path is appended.

use vstd::prelude::*;

verus! {

/// `needle` occurs in `hay` starting at position `i`.
pub open spec fn occurs_at(hay: Seq<char>, needle: Seq<char>, i: int) -> bool {
    0 <= i && i + needle.len() <= hay.len() && hay.subrange(i, i + needle.len() as int) == needle
}

/// `needle` occurs somewhere in `hay`.
pub open spec fn has_substr(hay: Seq<char>, needle: Seq<char>) -> bool {
    exists|i: int| occurs_at(hay, needle, i)
}

/// `i` is the position of the first occurrence of `needle` in `hay`.
pub open spec fn is_first_occ(hay: Seq<char>, needle: Seq<char>, i: int) -> bool {
    occurs_at(hay, needle, i) && forall|j: int| 0 <= j < i ==> !occurs_at(hay, needle, j)
}

/// The position of the first occurrence of `needle` in `hay`, or `None`
/// when `needle` does not occur at all. The empty needle occurs at 0.
pub fn find_first(hay: &str, needle: &str) -> (r: Option<usize>)
    ensures
        match r {
            Some(i) => is_first_occ(hay@, needle@, i as int),
            None => !has_substr(hay@, needle@),
        },
{
    let hlen = hay.unicode_len();
    let nlen = needle.unicode_len();
    if nlen > hlen {
        proof {
            assert(forall|i: int| !occurs_at(hay@, needle@, i));
        }
        return None;
    }
    let mut i: usize = 0;
    while i <= hlen - nlen
        invariant
            hlen == hay@.len(),
            nlen == needle@.len(),
            nlen <= hlen,
            i <= hlen - nlen + 1,
            forall|j: int| 0 <= j < i ==> !occurs_at(hay@, needle@, j),
        decreases hlen - nlen - i + 1,
    {
        let mut k: usize = 0;
        let mut ok = true;
        while k < nlen
            invariant
                hlen == hay@.len(),
                nlen == needle@.len(),
                i + nlen <= hlen,
                k <= nlen,
                ok ==> forall|m: int| 0 <= m < k ==> hay@[i + m] == needle@[m],
                !ok ==> exists|m: int| 0 <= m < k && hay@[i + m] != needle@[m],
            decreases nlen - k + (if ok { 1int } else { 0int }),
        {
            if ok && hay.get_char(i + k) != needle.get_char(k) {
                ok = false;
            }
            k += 1;
        }
        if ok {
            proof {
                assert(hay@.subrange(i as int, i + nlen as int) =~= needle@);
            }
            return Some(i);
        }
        proof {
            let m = choose|m: int| 0 <= m < nlen && hay@[i + m] != needle@[m];
            assert(hay@.subrange(i as int, i + nlen as int)[m] == hay@[i + m]);
            assert(!occurs_at(hay@, needle@, i as int));
        }
        i += 1;
    }
    proof {
        assert(forall|j: int| occurs_at(hay@, needle@, j) ==> 0 <= j <= hlen - nlen);
    }
    None
}

/// Whether `needle` occurs in `hay`.
pub fn contains_str(hay: &str, needle: &str) -> (r: bool)
    ensures
        r == has_substr(hay@, needle@),
{
    find_first(hay, needle).is_some()
}

/// Whether two string slices hold the same characters.
pub fn str_eq(a: &str, b: &str) -> (r: bool)
    ensures
        r == (a@ == b@),
{
    let alen = a.unicode_len();
    let blen = b.unicode_len();
    if alen != blen {
        return false;
    }
    let mut i: usize = 0;
    while i < alen
        invariant
            alen == a@.len(),
            alen == b@.len(),
            i <= alen,
            forall|m: int| 0 <= m < i ==> a@[m] == b@[m],
        decreases alen - i,
    {
        if a.get_char(i) != b.get_char(i) {
            return false;
        }
        i += 1;
    }
    proof {
        assert(a@ =~= b@);
    }
    true
}

/// `s` with every trailing `c` removed.
pub open spec fn spec_trim_trailing(s: Seq<char>, c: char) -> Seq<char>
    decreases s.len(),
{
    if s.len() > 0 && s.last() == c {
        spec_trim_trailing(s.drop_last(), c)
    } else {
        s
    }
}

/// Strip every trailing occurrence of `c` from `s`.
pub fn trim_trailing<'a>(s: &'a str, c: char) -> (r: &'a str)
    ensures
        r@ == spec_trim_trailing(s@, c),
{
    let len = s.unicode_len();
    let mut end: usize = len;
    proof {
        assert(s@.take(len as int) =~= s@);
    }
    while end > 0 && s.get_char(end - 1) == c
        invariant
            len == s@.len(),
            end <= len,
            spec_trim_trailing(s@, c) == spec_trim_trailing(s@.take(end as int), c),
        decreases end,
    {
        proof {
            assert(s@.take(end as int).drop_last() =~= s@.take(end - 1));
        }
        end -= 1;
    }
    proof {
        assert(spec_trim_trailing(s@.take(end as int), c) == s@.take(end as int));
    }
    s.substring_char(0, end)
}

/// The views of a sequence of strings.
pub open spec fn string_views(v: Seq<String>) -> Seq<Seq<char>> {
    v.map_values(|x: String| x@)
}

/// An ASCII blank: space, tab, or a line break.
pub open spec fn is_blank(c: char) -> bool {
    c == ' ' || c == '\t' || c == '\n' || c == '\r'
}

/// `s` with its trailing blanks removed.
pub open spec fn spec_trim_back(s: Seq<char>) -> Seq<char>
    decreases s.len(),
{
    if s.len() > 0 && is_blank(s.last()) {
        spec_trim_back(s.drop_last())
    } else {
        s
    }
}

/// `s` with its leading blanks removed.
pub open spec fn spec_trim_front(s: Seq<char>) -> Seq<char>
    decreases s.len(),
{
    if s.len() > 0 && is_blank(s[0]) {
        spec_trim_front(s.skip(1))
    } else {
        s
    }
}

/// `s` with blanks removed from both ends.
pub open spec fn spec_trim(s: Seq<char>) -> Seq<char> {
    spec_trim_front(spec_trim_back(s))
}

/// Whether `c` is an ASCII blank.
fn is_blank_char(c: char) -> (r: bool)
    ensures
        r == is_blank(c),
{
    c == ' ' || c == '\t' || c == '\n' || c == '\r'
}

/// Strip ASCII blanks from both ends of `s`.
pub fn trim_blank<'a>(s: &'a str) -> (r: &'a str)
    ensures
        r@ == spec_trim(s@),
{
    let len = s.unicode_len();
    let mut end: usize = len;
    proof {
        assert(s@.take(len as int) =~= s@);
    }
    while end > 0 && is_blank_char(s.get_char(end - 1))
        invariant
            len == s@.len(),
            end <= len,
            spec_trim_back(s@) == spec_trim_back(s@.take(end as int)),
        decreases end,
    {
        proof {
            assert(s@.take(end as int).drop_last() =~= s@.take(end - 1));
        }
        end -= 1;
    }
    proof {
        assert(spec_trim_back(s@.take(end as int)) == s@.take(end as int));
    }
    let mut start: usize = 0;
    proof {
        assert(s@.take(end as int).subrange(0int, end as int) =~= s@.take(end as int));
    }
    while start < end && is_blank_char(s.get_char(start))
        invariant
            len == s@.len(),
            start <= end <= len,
            spec_trim_back(s@) == s@.take(end as int),
            spec_trim_front(s@.take(end as int)) == spec_trim_front(
                s@.subrange(start as int, end as int),
            ),
        decreases end - start,
    {
        proof {
            assert(s@.subrange(start as int, end as int)[0] == s@[start as int]);
            assert(s@.subrange(start as int, end as int).skip(1) =~= s@.subrange(
                start + 1,
                end as int,
            ));
        }
        start += 1;
    }
    proof {
        if start < end {
            assert(s@.subrange(start as int, end as int)[0] == s@[start as int]);
        }
        assert(spec_trim_front(s@.subrange(start as int, end as int)) == s@.subrange(
            start as int,
            end as int,
        ));
    }
    s.substring_char(start, end)
}

/// The comma-separated segments of `s`, split on every comma: one segment
/// more than there are commas, each possibly empty.
pub open spec fn spec_split_commas(s: Seq<char>) -> Seq<Seq<char>>
    decreases s.len(),
{
    if s.len() == 0 {
        seq![Seq::<char>::empty()]
    } else if s.last() == ',' {
        spec_split_commas(s.drop_last()).push(Seq::empty())
    } else {
        let p = spec_split_commas(s.drop_last());
        p.update(p.len() - 1, p.last().push(s.last()))
    }
}

/// Splitting always yields at least one segment.
pub proof fn lemma_split_commas_nonempty(s: Seq<char>)
    ensures
        spec_split_commas(s).len() >= 1,
    decreases s.len(),
{
    if s.len() > 0 {
        lemma_split_commas_nonempty(s.drop_last());
    }
}

/// Split `s` on every comma.
pub fn split_commas(s: &str) -> (r: Vec<String>)
    ensures
        string_views(r@) == spec_split_commas(s@),
{
    let mut done: Vec<String> = Vec::new();
    let mut cur = String::new();
    let len = s.unicode_len();
    let mut i: usize = 0;
    proof {
        assert(s@.take(0int) =~= Seq::<char>::empty());
        assert(string_views(done@).push(cur@) =~= spec_split_commas(s@.take(0int)));
    }
    while i < len
        invariant
            len == s@.len(),
            i <= len,
            string_views(done@).push(cur@) == spec_split_commas(s@.take(i as int)),
        decreases len - i,
    {
        let c = s.get_char(i);
        proof {
            assert(s@.take(i + 1).drop_last() =~= s@.take(i as int));
            assert(s@.take(i + 1).last() == s@[i as int]);
            lemma_split_commas_nonempty(s@.take(i as int));
        }
        if c == ',' {
            done.push(cur);
            cur = String::new();
            proof {
                assert(string_views(done@).push(cur@) =~= spec_split_commas(s@.take(i + 1)));
            }
        } else {
            let ghost cur0 = cur@;
            cur.append(s.substring_char(i, i + 1));
            proof {
                assert(s@.subrange(i as int, i + 1) =~= seq![s@[i as int]]);
                assert(cur@ =~= cur0.push(s@[i as int]));
                let p = spec_split_commas(s@.take(i as int));
                assert(p.last() == cur0);
                assert(string_views(done@).push(cur@) =~= p.update(p.len() - 1, p.last().push(
                    s@[i as int],
                )));
            }
        }
        i += 1;
    }
    proof {
        assert(s@.take(len as int) =~= s@);
    }
    done.push(cur);
    done
}

/// The argument list a comma-separated setting denotes: each segment
/// trimmed of blanks, empty segments dropped.
pub open spec fn spec_args_parts(parts: Seq<Seq<char>>) -> Seq<Seq<char>>
    decreases parts.len(),
{
    if parts.len() == 0 {
        Seq::empty()
    } else {
        spec_args_parts(parts.drop_last()) + if spec_trim(parts.last()).len() > 0 {
            seq![spec_trim(parts.last())]
        } else {
            Seq::empty()
        }
    }
}

/// The arguments a comma-separated setting denotes.
pub open spec fn spec_args_of(s: Seq<char>) -> Seq<Seq<char>> {
    spec_args_parts(spec_split_commas(s))
}

/// Parse a comma-separated argument string: split on commas, trim each
/// segment, drop the empty ones.
pub fn parse_args(s: &str) -> (r: Vec<String>)
    ensures
        string_views(r@) == spec_args_of(s@),
{
    let parts = split_commas(s);
    let mut r: Vec<String> = Vec::new();
    let mut i: usize = 0;
    proof {
        assert(string_views(parts@).take(0int) =~= Seq::<Seq<char>>::empty());
        assert(string_views(r@) =~= spec_args_parts(string_views(parts@).take(0int)));
    }
    while i < parts.len()
        invariant
            i <= parts@.len(),
            string_views(parts@) == spec_split_commas(s@),
            string_views(r@) == spec_args_parts(string_views(parts@).take(i as int)),
        decreases parts@.len() - i,
    {
        proof {
            assert(string_views(parts@).take(i + 1).drop_last() =~= string_views(parts@).take(
                i as int,
            ));
            assert(string_views(parts@).take(i + 1).last() == parts@[i as int]@);
        }
        let t = trim_blank(parts[i].as_str());
        if t.unicode_len() > 0 {
            r.push(t.to_owned());
            proof {
                assert(string_views(r@) =~= spec_args_parts(string_views(parts@).take(i + 1)));
            }
        } else {
            proof {
                assert(string_views(r@) =~= spec_args_parts(string_views(parts@).take(i + 1)));
            }
        }
        i += 1;
    }
    proof {
        assert(string_views(parts@).take(parts@.len() as int) =~= string_views(parts@));
    }
    r
}

/// An endpoint with its trailing slashes removed and `path` appended; every
/// provider URL is built this way.
pub fn endpoint_join(endpoint: &str, path: &str) -> (r: String)
    ensures
        r@ == spec_trim_trailing(endpoint@, '/') + path@,
{
    let trimmed = trim_trailing(endpoint, '/');
    let base = trimmed.to_owned();
    base.concat(path)
}

} // verus!

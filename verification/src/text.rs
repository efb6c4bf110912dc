use vstd::prelude::*;
use vstd::string::StrSliceExecFns;
use vstd::string::StringExecFns;

verus! {

/// `needle` occurs as a contiguous run of characters somewhere in `hay`.
pub open spec fn seq_contains(hay: Seq<char>, needle: Seq<char>) -> bool {
    exists|i: int|
        0 <= i && i + needle.len() <= hay.len() && #[trigger] hay.subrange(
            i,
            i + needle.len() as int,
        ) == needle
}

/// Whether `hay` matches `needle` character by character starting at `at`.
fn matches_at(hay: &str, needle: &str, at: usize) -> (b: bool)
    requires
        at + needle@.len() <= hay@.len(),
    ensures
        b == (hay@.subrange(at as int, at + needle@.len() as int) == needle@),
{
    let hl = hay.unicode_len();
    let nl = needle.unicode_len();
    let mut k: usize = 0;
    while k < nl
        invariant
            k <= nl,
            hl == hay@.len(),
            nl == needle@.len(),
            at + nl <= hl,
            forall|m: int| 0 <= m < k ==> hay@[at + m] == needle@[m],
        decreases nl - k,
    {
        if hay.get_char(at + k) != needle.get_char(k) {
            proof {
                assert(hay@.subrange(at as int, at + needle@.len() as int)[k as int] == hay@[at
                    + k]);
            }
            return false;
        }
        k += 1;
    }
    proof {
        assert(hay@.subrange(at as int, at + needle@.len() as int) =~= needle@);
    }
    true
}

/// Substring search: decides whether `needle` occurs anywhere in `hay`.
pub fn str_contains(hay: &str, needle: &str) -> (b: bool)
    ensures
        b == seq_contains(hay@, needle@),
{
    let hl = hay.unicode_len();
    let nl = needle.unicode_len();
    if nl > hl {
        return false;
    }
    let mut i: usize = 0;
    loop
        invariant
            hl == hay@.len(),
            nl == needle@.len(),
            nl <= hl,
            i <= hl - nl,
            forall|j: int|
                0 <= j < i ==> #[trigger] hay@.subrange(j, j + needle@.len() as int) != needle@,
        decreases hl - nl - i,
    {
        if matches_at(hay, needle, i) {
            return true;
        }
        if i == hl - nl {
            proof {
                assert(forall|j: int|
                    0 <= j && j + needle@.len() <= hay@.len() ==> #[trigger] hay@.subrange(
                        j,
                        j + needle@.len() as int,
                    ) != needle@);
            }
            return false;
        }
        i += 1;
    }
}

/// A sequence built around `mid` contains `mid` itself.
pub proof fn lemma_contains_middle(pre: Seq<char>, mid: Seq<char>, post: Seq<char>)
    ensures
        seq_contains(pre + mid + post, mid),
{
    assert(mid.subrange(0, mid.len() as int) =~= mid);
    lemma_contains_of_part(pre, mid, mid, 0, post);
}

/// A sequence built around `part` contains any `needle` that occurs inside
/// `part` at offset `off`.
pub proof fn lemma_contains_of_part(
    pre: Seq<char>,
    part: Seq<char>,
    needle: Seq<char>,
    off: int,
    post: Seq<char>,
)
    requires
        0 <= off,
        off + needle.len() <= part.len(),
        part.subrange(off, off + needle.len() as int) == needle,
    ensures
        seq_contains(pre + part + post, needle),
{
    let s = pre + part + post;
    let i = pre.len() + off;
    assert forall|k: int| 0 <= k < needle.len() implies s[i + k] == needle[k] by {
        assert(part.subrange(off, off + needle.len() as int)[k] == part[off + k]);
    }
    assert(s.subrange(i, i + needle.len() as int) =~= needle);
}

/// Concatenation of two pieces into a fresh `String`.
pub fn concat2(a: &str, b: &str) -> (r: String)
    ensures
        r@ == a@ + b@,
{
    let mut s = a.to_owned();
    s.append(b);
    s
}

/// Concatenation of a literal, a caller-supplied middle part, another
/// literal, and a trailing part, the shape of every classified message.
pub fn concat4(a: &str, b: &str, c: &str, d: &str) -> (r: String)
    ensures
        r@ == a@ + b@ + c@ + d@,
{
    let mut s = a.to_owned();
    s.append(b);
    s.append(c);
    s.append(d);
    s
}

} // verus!

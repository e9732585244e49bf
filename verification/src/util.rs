//! Small byte-vector helpers shared by the context abstraction and the wire
//! codecs.

use vstd::prelude::*;

verus! {

/// Whether a byte is ASCII whitespace.
pub open spec fn spec_is_ascii_ws(c: u8) -> bool {
    c == 0x20 || c == 0x09 || c == 0x0a || c == 0x0b || c == 0x0c || c == 0x0d
}

/// Everything after the first line feed, or nothing when there is none.
pub open spec fn spec_drop_line(s: Seq<u8>) -> Seq<u8>
    decreases s.len(),
{
    if s.len() == 0 {
        s
    } else if s[0] == 0x0a {
        s.subrange(1, s.len() as int)
    } else {
        spec_drop_line(s.subrange(1, s.len() as int))
    }
}

/// Dropping a line consumes at least one byte.
proof fn lemma_drop_line_shorter(s: Seq<u8>)
    requires
        s.len() > 0,
    ensures
        spec_drop_line(s).len() < s.len(),
    decreases s.len(),
{
    if s[0] != 0x0a {
        let t = s.subrange(1, s.len() as int);
        if t.len() > 0 {
            lemma_drop_line_shorter(t);
        }
    }
}

/// A text with its leading whitespace and '#'-comment lines removed: leading
/// whitespace is skipped, and while the text then starts with '#', that line
/// is dropped through its line feed and the process repeats.
pub open spec fn spec_strip_comments(s: Seq<u8>) -> Seq<u8>
    decreases s.len(),
    via spec_strip_comments_decreases
{
    if s.len() == 0 {
        s
    } else if spec_is_ascii_ws(s[0]) {
        spec_strip_comments(s.subrange(1, s.len() as int))
    } else if s[0] == 0x23 {
        spec_strip_comments(spec_drop_line(s))
    } else {
        s
    }
}

#[via_fn]
proof fn spec_strip_comments_decreases(s: Seq<u8>) {
    if s.len() > 0 {
        lemma_drop_line_shorter(s);
    }
}

/// Returns the text with its leading whitespace and '#'-comment lines
/// removed, as a key file's commented header is skipped before decoding.
pub fn strip_comment_lines(s: &[u8]) -> (r: Vec<u8>)
    ensures
        r@ == spec_strip_comments(s@),
{
    let n = s.len();
    let mut i: usize = 0;
    proof {
        assert(s@.subrange(0, n as int) =~= s@);
    }
    while i < n
        invariant
            i <= n,
            n == s@.len(),
            spec_strip_comments(s@) == spec_strip_comments(s@.subrange(i as int, n as int)),
        ensures
            i <= n,
            n == s@.len(),
            spec_strip_comments(s@) == spec_strip_comments(s@.subrange(i as int, n as int)),
            i == n || (!spec_is_ascii_ws(s@[i as int]) && s@[i as int] != 0x23),
        decreases n - i,
    {
        let c = s[i];
        if c == 0x20 || c == 0x09 || c == 0x0a || c == 0x0b || c == 0x0c || c == 0x0d {
            proof {
                let cur = s@.subrange(i as int, n as int);
                assert(cur.subrange(1, cur.len() as int) =~= s@.subrange(i + 1, n as int));
            }
            i = i + 1;
        } else if c == 0x23 {
            proof {
                let cur = s@.subrange(i as int, n as int);
                assert(cur[0] == 0x23);
            }
            let ghost start = i;
            while i < n && s[i] != 0x0a
                invariant
                    start <= i <= n,
                    n == s@.len(),
                    spec_drop_line(s@.subrange(start as int, n as int)) == spec_drop_line(
                        s@.subrange(i as int, n as int),
                    ),
                decreases n - i,
            {
                proof {
                    let cur = s@.subrange(i as int, n as int);
                    assert(cur[0] != 0x0a);
                    assert(cur.subrange(1, cur.len() as int) =~= s@.subrange(i + 1, n as int));
                }
                i = i + 1;
            }
            proof {
                let cur = s@.subrange(i as int, n as int);
                if i < n {
                    assert(cur[0] == 0x0a);
                    assert(cur.subrange(1, cur.len() as int) =~= s@.subrange(i + 1, n as int));
                } else {
                    assert(cur.len() == 0);
                    assert(cur =~= s@.subrange(i as int, n as int));
                }
            }
            if i < n {
                i = i + 1;
            }
        } else {
            break ;
        }
    }
    proof {
        if i == n {
            assert(s@.subrange(i as int, n as int).len() == 0);
        }
    }
    vstd::slice::slice_to_vec(vstd::slice::slice_subrange(s, i, n))
}

/// Appends every byte of `src` to `dst`.
pub fn vec_append(dst: &mut Vec<u8>, src: &[u8])
    ensures
        final(dst)@ == old(dst)@ + src@,
{
    let mut i: usize = 0;
    while i < src.len()
        invariant
            i <= src@.len(),
            dst@ == old(dst)@ + src@.subrange(0, i as int),
        decreases src@.len() - i,
    {
        dst.push(src[i]);
        i = i + 1;
        proof {
            assert(dst@ == old(dst)@ + src@.subrange(0, i as int));
        }
    }
    proof {
        assert(src@.subrange(0, src@.len() as int) == src@);
    }
}

/// Whether two byte strings hold the same bytes.
pub fn bytes_eq(a: &[u8], b: &[u8]) -> (r: bool)
    ensures
        r <==> a@ == b@,
{
    if a.len() != b.len() {
        proof {
            assert(a@.len() != b@.len());
        }
        return false;
    }
    let mut i: usize = 0;
    while i < a.len()
        invariant
            i <= a@.len(),
            a@.len() == b@.len(),
            forall|j: int| 0 <= j < i ==> a@[j] == b@[j],
        decreases a@.len() - i,
    {
        if a[i] != b[i] {
            return false;
        }
        i = i + 1;
    }
    proof {
        assert(a@ =~= b@);
    }
    true
}

} // verus!

//! The compatibility gate: which input files this loader accepts.

use vstd::prelude::*;

verus! {

/// The only file extension (in lower case) that this loader handles.
pub const SUPPORTED_EXTENSION: &'static str = "dae";

/// Index just past the last `/` of `p`, or 0 when `p` holds none.
pub open spec fn segment_start(p: Seq<char>) -> int
    decreases p.len(),
{
    if p.len() == 0 {
        0
    } else if p.last() == '/' {
        p.len() as int
    } else {
        segment_start(p.drop_last())
    }
}

/// The last component of a `/`-separated path, skipping empty and `.`
/// components; empty when there is none.
pub open spec fn last_component(p: Seq<char>) -> Seq<char>
    decreases p.len(),
{
    if p.len() == 0 {
        Seq::empty()
    } else if p.last() == '/' {
        last_component(p.drop_last())
    } else {
        let s = segment_start(p);
        if p.len() - s == 1 && p.last() == '.' {
            last_component(p.subrange(0, s))
        } else {
            p.subrange(s, p.len() as int)
        }
    }
}

/// Index of the last `.` in `s`, or -1 when `s` holds none.
pub open spec fn last_dot(s: Seq<char>) -> int
    decreases s.len(),
{
    if s.len() == 0 {
        -1
    } else if s.last() == '.' {
        s.len() - 1
    } else {
        last_dot(s.drop_last())
    }
}

/// The extension of a path: what follows the last `.` of its file name,
/// empty where the file name has no `.` but a leading one, or there is no
/// file name.
pub open spec fn extension_of(p: Seq<char>) -> Seq<char> {
    let name = last_component(p);
    let k = last_dot(name);
    if k <= 0 {
        Seq::empty()
    } else {
        name.subrange(k + 1, name.len() as int)
    }
}

/// ASCII lower case of one character; other characters stay as they are.
pub open spec fn ascii_lower_char(c: char) -> char {
    if 'A' <= c && c <= 'Z' {
        ((c as u32) + 32) as char
    } else {
        c
    }
}

/// ASCII lower case of every character of `s`.
pub open spec fn ascii_lower(s: Seq<char>) -> Seq<char> {
    s.map_values(|c: char| ascii_lower_char(c))
}

/// Whether a path names a file that this loader accepts, given whether it is
/// an existing regular file.
pub open spec fn compatible(is_file: bool, p: Seq<char>) -> bool {
    is_file && ascii_lower(extension_of(p)) == SUPPORTED_EXTENSION@
}

/// Relies on str::to_ascii_lowercase: ASCII letters map to lower case, every
/// other character is kept.
#[verifier::external_body]
fn to_ascii_lowercase(s: &str) -> (r: String)
    ensures
        r@ == ascii_lower(s@),
{
    s.to_ascii_lowercase()
}

/// The lower-case extension of `path`, empty where it has none.
pub fn extension(path: &str) -> (r: String)
    ensures
        r@ == ascii_lower(extension_of(path@)),
{
    let n = path.unicode_len();
    let ghost p = path@;
    // `end` is the exclusive end of the prefix that may still hold the file
    // name; trailing separators and `.` components are dropped from it.
    let mut end: usize = n;
    let mut start: usize = n;
    assert(p.subrange(0, n as int) =~= p);
    loop
        invariant
            n == p.len(),
            p == path@,
            end <= n,
            last_component(p.subrange(0, end as int)) == last_component(p),
        ensures
            start <= end <= n,
            last_component(p) == p.subrange(start as int, end as int),
        decreases end,
    {
        let ghost end0 = end;
        while end > 0 && path.get_char(end - 1) == '/'
            invariant
                n == p.len(),
                p == path@,
                end <= end0 <= n,
                last_component(p.subrange(0, end as int)) == last_component(p),
            decreases end,
        {
            assert(p.subrange(0, end as int).drop_last() =~= p.subrange(0, end - 1));
            end = end - 1;
        }
        start = end;
        while start > 0 && path.get_char(start - 1) != '/'
            invariant
                n == p.len(),
                p == path@,
                start <= end <= end0 <= n,
                end > 0 ==> p[end - 1] != '/',
                last_component(p.subrange(0, end as int)) == last_component(p),
                segment_start(p.subrange(0, end as int)) == segment_start(
                    p.subrange(0, start as int),
                ),
            decreases start,
        {
            assert(p.subrange(0, start as int).drop_last() =~= p.subrange(0, start - 1));
            start = start - 1;
        }
        let ghost q = p.subrange(0, end as int);
        proof {
            if start > 0 {
                assert(p.subrange(0, start as int).last() == '/');
            } else {
                assert(p.subrange(0, 0) =~= Seq::<char>::empty());
            }
            assert(segment_start(q) == start);
        }
        if end - start == 1 && path.get_char(start) == '.' {
            proof {
                assert(q.last() == '.');
                assert(q.subrange(0, start as int) =~= p.subrange(0, start as int));
            }
            end = start;
        } else {
            proof {
                if end > 0 {
                    assert(q.subrange(start as int, end as int) =~= p.subrange(
                        start as int,
                        end as int,
                    ));
                } else {
                    assert(q =~= Seq::<char>::empty());
                    assert(p.subrange(start as int, end as int) =~= Seq::<char>::empty());
                }
            }
            break;
        }
    }
    let ghost name = p.subrange(start as int, end as int);
    // Find the last `.` of the file name.
    let mut k: usize = end;
    assert(p.subrange(start as int, end as int) =~= name);
    while k > start && path.get_char(k - 1) != '.'
        invariant
            n == p.len(),
            p == path@,
            start <= k <= end <= n,
            name == p.subrange(start as int, end as int),
            last_dot(name) == last_dot(p.subrange(start as int, k as int)),
        decreases k,
    {
        assert(p.subrange(start as int, k as int).drop_last() =~= p.subrange(
            start as int,
            k - 1,
        ));
        k = k - 1;
    }
    proof {
        let t = p.subrange(start as int, k as int);
        if k > start {
            assert(t.last() == '.');
            assert(last_dot(t) == k - start - 1);
        } else {
            assert(t.len() == 0);
        }
    }
    if k <= start || k - start == 1 {
        let r = to_ascii_lowercase("");
        proof {
            reveal_strlit("");
            assert(extension_of(p) =~= Seq::<char>::empty());
            assert(ascii_lower(Seq::<char>::empty()) =~= Seq::<char>::empty());
        }
        r
    } else {
        let ext = path.substring_char(k, end);
        proof {
            assert(ext@ =~= extension_of(p));
        }
        to_ascii_lowercase(ext)
    }
}

/// Whether the loader accepts `path`: it must be an existing regular file
/// (`is_file`) whose extension is the supported one, in any letter case.
pub fn is_compatible(is_file: bool, path: &str) -> (r: bool)
    ensures
        r == compatible(is_file, path@),
{
    let ext = extension(path);
    let supported = SUPPORTED_EXTENSION.to_string();
    proof {
        reveal_strlit("dae");
    }
    is_file && ext == supported
}

} // verus!

//! Small operations on strings, stated over their characters.

use vstd::prelude::*;
use vstd::string::StringSliceAdditionalSpecFns;
use vstd::utf8::encode_utf8_decode_utf8;

verus! {

/// Whether two strings hold the same characters.
pub fn str_equal(a: &str, b: &str) -> (same: bool)
    ensures
        same == (a@ == b@),
{
    let x = a.as_bytes();
    let y = b.as_bytes();
    proof {
        encode_utf8_decode_utf8(a@);
        encode_utf8_decode_utf8(b@);
    }
    if x.len() != y.len() {
        return false;
    }
    let mut i: usize = 0;
    while i < x.len()
        invariant
            i <= x.len(),
            x.len() == y.len(),
            x@ == a.spec_bytes(),
            y@ == b.spec_bytes(),
            forall|j: int| 0 <= j < i ==> x@[j] == y@[j],
        decreases x.len() - i,
    {
        if x[i] != y[i] {
            return false;
        }
        i += 1;
    }
    assert(x@ =~= y@);
    true
}

/// Where the part of `path` after its last `'.'` begins: just behind that
/// dot, or at 0 where `path` holds none.
pub open spec fn extension_start(path: Seq<char>) -> int
    decreases path.len(),
{
    if path.len() == 0 {
        0
    } else if path.last() == '.' {
        path.len() as int
    } else {
        extension_start(path.drop_last())
    }
}

/// The part of `path` after its last `'.'`; all of `path` where it holds none.
pub open spec fn extension(path: Seq<char>) -> Seq<char> {
    path.subrange(extension_start(path), path.len() as int)
}

/// The extension begins at the start of the path or just behind a dot, and
/// holds no dot itself.
pub proof fn lemma_extension_start(path: Seq<char>)
    ensures
        0 <= extension_start(path) <= path.len(),
        extension_start(path) == 0 || path[extension_start(path) - 1] == '.',
        forall|j: int| extension_start(path) <= j < path.len() ==> path[j] != '.',
    decreases path.len(),
{
    if path.len() > 0 && path.last() != '.' {
        let shorter = path.drop_last();
        lemma_extension_start(shorter);
        assert forall|j: int| extension_start(path) <= j < path.len() implies path[j] != '.' by {
            if j < shorter.len() {
                assert(path[j] == shorter[j]);
            }
        }
    }
}

/// The part of `path` after its last `'.'`; all of `path` where it holds none.
pub fn extension_of(path: &str) -> (ext: &str)
    ensures
        ext@ == extension(path@),
{
    let len: usize = path.unicode_len();
    let mut start: usize = 0;
    let mut seen: usize = 0;
    for c in it: path.chars()
        invariant
            it.seq() == path@,
            seen == it.index(),
            len == path@.len(),
            start == extension_start(path@.take(seen as int)),
            start <= seen <= len,
    {
        assert(path@.take(seen + 1).drop_last() =~= path@.take(seen as int));
        seen += 1;
        if c == '.' {
            start = seen;
        }
    }
    assert(path@.take(seen as int) =~= path@);
    path.substring_char(start, len)
}

} // verus!

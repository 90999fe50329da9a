//! Project identity: a stable key derived from the current working directory.

use vstd::prelude::*;

verus! {

/// What one character of the working directory contributes to the key:
/// path separators become the filler character, everything else is kept.
pub open spec fn filler(c: char) -> char {
    if c == '/' {
        '_'
    } else {
        c
    }
}

/// The project key for a working directory: the fixed namespace tag followed
/// by the directory with every path separator replaced by the filler.
pub open spec fn key_of(dir: Seq<char>) -> Seq<char> {
    "project_"@ + dir.map_values(|c: char| filler(c))
}

/// Derives the key that scopes a file list to one project. Deterministic:
/// two invocations from the same working directory produce the same key.
pub fn project_key(dir: &str) -> (key: String)
    ensures
        key@ == key_of(dir@),
{
    let mut out: String = String::from_str("project_");
    let n: usize = dir.unicode_len();
    let mut i: usize = 0;
    while i < n
        invariant
            n == dir@.len(),
            i <= n,
            out@ == "project_"@ + dir@.subrange(0, i as int).map_values(|c: char| filler(c)),
        decreases n - i,
    {
        let c = dir.get_char(i);
        if c == '/' {
            out.append("_");
        } else {
            let piece = dir.substring_char(i, i + 1);
            out.append(piece);
        }
        proof {
            reveal_strlit("_");
            assert(dir@.subrange(0, i + 1) =~= dir@.subrange(0, i as int).push(dir@[i as int]));
            assert(dir@.subrange(0, i + 1).map_values(|c: char| filler(c)) =~= dir@.subrange(
                0,
                i as int,
            ).map_values(|c: char| filler(c)).push(filler(dir@[i as int])));
            if dir@[i as int] == '/' {
                assert(out@ =~= "project_"@ + dir@.subrange(0, i + 1).map_values(
                    |c: char| filler(c),
                ));
            } else {
                assert(dir@.subrange(i as int, i + 1) =~= seq![dir@[i as int]]);
                assert(out@ =~= "project_"@ + dir@.subrange(0, i + 1).map_values(
                    |c: char| filler(c),
                ));
            }
        }
        i += 1;
    }
    proof {
        assert(dir@.subrange(0, n as int) =~= dir@);
    }
    out
}

} // verus!

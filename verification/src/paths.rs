//! Byte-level path arithmetic for the module loader.
//!
//! Paths and specifiers are byte strings, as the operating system hands them
//! over. The loader needs three operations: the directory of a module's path,
//! joining that directory with an import specifier, and replacing the final
//! component's extension with `js`. Each is specified exactly, so specifier
//! resolution is a function of these definitions alone.

use vstd::prelude::*;

verus! {

/// The byte `/`, the path separator.
pub open spec fn slash() -> u8 {
    47u8
}

/// The byte `.`, the extension separator.
pub open spec fn dot() -> u8 {
    46u8
}

/// The index of the last occurrence of `b` in `s`, or `-1` when `b` does not
/// occur.
pub open spec fn last_index(s: Seq<u8>, b: u8) -> int
    decreases s.len(),
{
    if s.len() == 0 {
        -1
    } else if s[s.len() - 1] == b {
        s.len() - 1
    } else {
        last_index(s.drop_last(), b)
    }
}

/// `last_index` names the last occurrence: `b` stands there, and nowhere
/// later; `-1` means `b` does not occur at all.
pub proof fn lemma_last_index(s: Seq<u8>, b: u8)
    ensures
        last_index(s, b) == -1 ==> forall|k: int| 0 <= k < s.len() ==> s[k] != b,
        last_index(s, b) != -1 ==> {
            &&& 0 <= last_index(s, b) < s.len()
            &&& s[last_index(s, b)] == b
            &&& forall|k: int| last_index(s, b) < k < s.len() ==> s[k] != b
        },
    decreases s.len(),
{
    if s.len() > 0 && s[s.len() - 1] != b {
        lemma_last_index(s.drop_last(), b);
        assert(forall|k: int| 0 <= k < s.len() - 1 ==> s[k] == s.drop_last()[k]);
    }
}

/// The last occurrence of `b` in `s`, as an executable search.
pub fn find_last(s: &[u8], b: u8) -> (found: Option<usize>)
    ensures
        found matches Some(j) ==> j < s@.len() && last_index(s@, b) == j as int,
        found is None ==> last_index(s@, b) == -1,
{
    let mut i: usize = s.len();
    while i > 0
        invariant
            i <= s@.len(),
            forall|k: int| i <= k < s@.len() ==> s@[k] != b,
        decreases i,
    {
        i = i - 1;
        if s[i] == b {
            proof {
                lemma_last_index(s@, b);
            }
            return Some(i);
        }
    }
    proof {
        lemma_last_index(s@, b);
    }
    None
}

/// The directory holding the file a path names: the part before the last
/// separator. A path with no separator has the empty directory; a file
/// directly under the root has the root.
pub open spec fn dirname_spec(path: Seq<u8>) -> Seq<u8> {
    let i = last_index(path, slash());
    if i == -1 {
        Seq::empty()
    } else if i == 0 {
        seq![slash()]
    } else {
        path.take(i)
    }
}

/// The directory of a path, as the loader uses it for relative specifiers and
/// for `import.meta.dirname`.
pub fn dirname(path: &[u8]) -> (dir: Vec<u8>)
    ensures
        dir@ == dirname_spec(path@),
{
    let mut dir: Vec<u8> = Vec::new();
    match find_last(path, 47u8) {
        None => {},
        Some(0) => {
            dir.push(47u8);
            proof {
                assert(dir@ =~= seq![slash()]);
            }
        },
        Some(i) => {
            append_range(&mut dir, path, 0, i);
        },
    }
    dir
}

/// Append `src[from..to]` to `dst`.
pub fn append_range(dst: &mut Vec<u8>, src: &[u8], from: usize, to: usize)
    requires
        from <= to <= src@.len(),
    ensures
        final(dst)@ == old(dst)@ + src@.subrange(from as int, to as int),
{
    let mut i: usize = from;
    while i < to
        invariant
            from <= i <= to <= src@.len(),
            dst@ == old(dst)@ + src@.subrange(from as int, i as int),
        decreases to - i,
    {
        dst.push(src[i]);
        proof {
            assert(dst@ =~= old(dst)@ + src@.subrange(from as int, i + 1));
        }
        i = i + 1;
    }
}

/// Append all of `src` to `dst`.
pub fn append_bytes(dst: &mut Vec<u8>, src: &[u8])
    ensures
        final(dst)@ == old(dst)@ + src@,
{
    append_range(dst, src, 0, src.len());
    proof {
        assert(src@.subrange(0, src@.len() as int) =~= src@);
    }
}

/// Joining a directory with a specifier: an absolute specifier stands on its
/// own; otherwise the specifier is appended to the directory, behind a
/// separator unless the directory is empty or already ends in one.
pub open spec fn join_spec(dir: Seq<u8>, rel: Seq<u8>) -> Seq<u8> {
    if rel.len() > 0 && rel[0] == slash() {
        rel
    } else if dir.len() == 0 {
        rel
    } else if dir[dir.len() - 1] == slash() {
        dir + rel
    } else {
        dir + seq![slash()] + rel
    }
}

/// Join a directory and a specifier.
pub fn join_path(dir: &[u8], rel: &[u8]) -> (joined: Vec<u8>)
    ensures
        joined@ == join_spec(dir@, rel@),
{
    let mut joined: Vec<u8> = Vec::new();
    if rel.len() > 0 && rel[0] == 47u8 {
        append_bytes(&mut joined, rel);
        proof {
            assert(joined@ =~= rel@);
        }
    } else if dir.len() == 0 {
        append_bytes(&mut joined, rel);
        proof {
            assert(joined@ =~= rel@);
        }
    } else {
        append_bytes(&mut joined, dir);
        if dir[dir.len() - 1] != 47u8 {
            joined.push(47u8);
        }
        append_bytes(&mut joined, rel);
        proof {
            if dir@[dir@.len() - 1] == slash() {
                assert(joined@ =~= dir@ + rel@);
            } else {
                assert(joined@ =~= dir@ + seq![slash()] + rel@);
            }
        }
    }
    joined
}

/// Where the final component's extension begins: the index of its last dot,
/// provided the dot is not the component's first byte (a name that only
/// starts with a dot has no extension); `-1` when the component has no
/// extension.
pub open spec fn extension_dot(path: Seq<u8>) -> int {
    let component_start = last_index(path, slash()) + 1;
    let d = last_index(path, dot());
    if d > component_start {
        d
    } else {
        -1
    }
}

/// The path with its final component's extension replaced by `js`: everything
/// from the extension dot on is dropped, and `.js` appended.
pub open spec fn with_js_extension(path: Seq<u8>) -> Seq<u8> {
    let d = extension_dot(path);
    if d == -1 {
        path + seq![dot(), 106u8, 115u8]
    } else {
        path.take(d) + seq![dot(), 106u8, 115u8]
    }
}

/// Replace the final component's extension with `js` (or append `.js` when it
/// has none).
pub fn set_js_extension(path: &[u8]) -> (out: Vec<u8>)
    ensures
        out@ == with_js_extension(path@),
{
    let mut out: Vec<u8> = Vec::new();
    let stem_end: usize = match (find_last(path, 46u8), find_last(path, 47u8)) {
        (Some(d), Some(s)) => {
            if d > s && d - 1 > s {
                d
            } else {
                path.len()
            }
        },
        (Some(d), None) => {
            if d > 0 {
                d
            } else {
                path.len()
            }
        },
        _ => path.len(),
    };
    append_range(&mut out, path, 0, stem_end);
    out.push(46u8);
    out.push(106u8);
    out.push(115u8);
    proof {
        if extension_dot(path@) == -1 {
            assert(path@.subrange(0, path@.len() as int) =~= path@);
            assert(out@ =~= path@ + seq![dot(), 106u8, 115u8]);
        } else {
            assert(out@ =~= path@.take(extension_dot(path@)) + seq![dot(), 106u8, 115u8]);
        }
    }
    out
}

/// Byte-string equality.
pub fn bytes_eq(a: &[u8], b: &[u8]) -> (r: bool)
    ensures
        r == (a@ == b@),
{
    if a.len() != b.len() {
        return false;
    }
    let mut i: usize = 0;
    while i < a.len()
        invariant
            a@.len() == b@.len(),
            i <= a@.len(),
            forall|k: int| 0 <= k < i ==> a@[k] == b@[k],
        decreases a@.len() - i,
    {
        if a[i] != b[i] {
            return false;
        }
        i = i + 1;
    }
    proof {
        assert(a@ =~= b@);
    }
    true
}

} // verus!

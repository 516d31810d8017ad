//! Specifier resolution: how an import specifier, seen from a referrer
//! module, is mapped to a module to load.
//!
//! A specifier that starts with `./` or `/` names a user module on disk; any
//! other specifier names a built-in module. A user-path specifier is joined
//! with the referrer's directory, and two candidates are tried in order: the
//! joined path itself, then the joined path with its extension replaced by
//! `js`. The first candidate the filesystem canonicalizes to an existing path
//! wins.

use vstd::prelude::*;
use crate::paths::{
    dirname_spec, join_spec, with_js_extension, slash, dot, dirname, join_path, set_js_extension,
    append_bytes,
};

verus! {

/// The two ways a specifier resolves.
#[derive(PartialEq, Eq, Structural, Clone, Copy, Debug)]
pub enum SpecifierKind {
    /// A `./`-relative or `/`-absolute path: a user module on disk.
    UserPath,
    /// Any other specifier: a built-in module synthesized by the host.
    Builtin,
}

/// The classification of a specifier.
pub open spec fn classify_spec(s: Seq<u8>) -> SpecifierKind {
    if (s.len() >= 2 && s[0] == dot() && s[1] == slash()) || (s.len() >= 1 && s[0] == slash()) {
        SpecifierKind::UserPath
    } else {
        SpecifierKind::Builtin
    }
}

/// Classify a specifier: user path or built-in.
pub fn classify_specifier(s: &[u8]) -> (kind: SpecifierKind)
    ensures
        kind == classify_spec(s@),
{
    if s.len() >= 2 && s[0] == 46u8 && s[1] == 47u8 {
        SpecifierKind::UserPath
    } else if s.len() >= 1 && s[0] == 47u8 {
        SpecifierKind::UserPath
    } else {
        SpecifierKind::Builtin
    }
}

/// The candidate paths tried for a user-path specifier resolved against a
/// referrer directory: the joined path literally, then the joined path with
/// its extension replaced by `js`.
pub open spec fn candidate_paths(referrer_dir: Seq<u8>, rel: Seq<u8>) -> Seq<Seq<u8>> {
    let joined = join_spec(referrer_dir, rel);
    seq![joined, with_js_extension(joined)]
}

/// Build the candidate paths for a specifier seen from a referrer module's
/// path.
pub fn resolve_candidates(referrer_path: &[u8], rel: &[u8]) -> (cands: Vec<Vec<u8>>)
    ensures
        cands@.map_values(|c: Vec<u8>| c@) == candidate_paths(dirname_spec(referrer_path@), rel@),
{
    let dir = dirname(referrer_path);
    let joined = join_path(dir.as_slice(), rel);
    let with_js = set_js_extension(joined.as_slice());
    let mut cands: Vec<Vec<u8>> = Vec::new();
    cands.push(joined);
    cands.push(with_js);
    proof {
        assert(cands@.map_values(|c: Vec<u8>| c@) =~= candidate_paths(
            dirname_spec(referrer_path@),
            rel@,
        ));
    }
    cands
}

/// The first candidate the filesystem answered for: each entry is the
/// canonical path of an existing file, or nothing when the candidate does not
/// exist. The earliest existing candidate decides.
pub open spec fn first_existing(canon: Seq<Option<Seq<u8>>>) -> Option<Seq<u8>>
    decreases canon.len(),
{
    if canon.len() == 0 {
        None
    } else if canon[0] is Some {
        canon[0]
    } else {
        first_existing(canon.drop_first())
    }
}

/// When every answer before `i` says "does not exist", the resolution is
/// decided at `i`: the answer there, when it exists; and a run of answers
/// that are all "does not exist" resolves to nothing.
pub proof fn lemma_first_existing(canon: Seq<Option<Seq<u8>>>, i: int)
    requires
        0 <= i <= canon.len(),
        forall|k: int| 0 <= k < i ==> canon[k] is None,
    ensures
        i < canon.len() && canon[i] is Some ==> first_existing(canon) == canon[i],
        i == canon.len() ==> first_existing(canon) is None,
    decreases canon.len(),
{
    if canon.len() > 0 && i > 0 {
        lemma_first_existing(canon.drop_first(), i - 1);
        assert(forall|k: int| 0 <= k < canon.len() - 1 ==> canon.drop_first()[k] == canon[k + 1]);
    }
}

/// Pick the resolution from the filesystem's answers, one per candidate and
/// in candidate order: the first canonical path of an existing candidate, or
/// nothing when no candidate exists.
pub fn pick_resolved(canon: &Vec<Option<Vec<u8>>>) -> (resolved: Option<Vec<u8>>)
    ensures
        resolved matches Some(p) ==> first_existing(canon.deep_view()) == Some(p@),
        resolved is None ==> first_existing(canon.deep_view()) is None,
{
    let ghost all = canon.deep_view();
    let mut i: usize = 0;
    while i < canon.len()
        invariant
            i <= canon@.len(),
            all == canon.deep_view(),
            forall|k: int| 0 <= k < i ==> all[k] is None,
        decreases canon@.len() - i,
    {
        match &canon[i] {
            Some(v) => {
                let mut owned: Vec<u8> = Vec::new();
                append_bytes(&mut owned, v.as_slice());
                proof {
                    assert(owned@ =~= v@);
                    assert(all[i as int] == Some(v.deep_view()));
                    assert(v.deep_view() =~= v@);
                    lemma_first_existing(all, i as int);
                }
                return Some(owned);
            },
            None => {
                proof {
                    assert(all[i as int] is None);
                }
            },
        }
        i = i + 1;
    }
    proof {
        lemma_first_existing(all, i as int);
    }
    None
}

/// Specifier resolution is stable: it is a function of the referrer's
/// directory, the specifier, and the filesystem's answers alone. Referrers
/// sharing a directory see the same candidates, and the same answers for the
/// candidates force the same resolution.
pub proof fn lemma_resolution_stable(
    referrer1: Seq<u8>,
    referrer2: Seq<u8>,
    rel: Seq<u8>,
    canon1: Seq<Option<Seq<u8>>>,
    canon2: Seq<Option<Seq<u8>>>,
)
    requires
        dirname_spec(referrer1) == dirname_spec(referrer2),
        canon1 == canon2,
    ensures
        candidate_paths(dirname_spec(referrer1), rel) == candidate_paths(
            dirname_spec(referrer2),
            rel,
        ),
        first_existing(canon1) == first_existing(canon2),
{
}

} // verus!

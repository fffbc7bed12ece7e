//! Prefix and suffix matching over sequences of interned handles.
//!
//! The collector recognises the fixed container boundary and semantically
//! fixed leaf locations by comparing the rolling ancestor path against known
//! paths, elementwise from the root or from the tail.

use vstd::prelude::*;

use crate::interner::StrRef;

verus! {

/// True iff `path` is at least as long as `prefix` and agrees with it
/// elementwise from the root.
pub fn path_starts_with(path: &Vec<StrRef>, prefix: &Vec<StrRef>) -> (r: bool)
    ensures
        r == prefix@.is_prefix_of(path@),
{
    if path.len() < prefix.len() {
        return false;
    }
    let mut i: usize = 0;
    while i < prefix.len()
        invariant
            prefix@.len() <= path@.len(),
            i <= prefix@.len(),
            forall|j: int| 0 <= j < i ==> path@[j] == prefix@[j],
        decreases prefix@.len() - i,
    {
        if path[i] != prefix[i] {
            assert(!prefix@.is_prefix_of(path@));
            return false;
        }
        i = i + 1;
    }
    proof {
        assert(prefix@ =~= path@.subrange(0, prefix@.len() as int));
    }
    true
}

/// True iff `path` is at least as long as `suffix` and agrees with it
/// elementwise from the tail.
pub fn path_ends_with(path: &Vec<StrRef>, suffix: &Vec<StrRef>) -> (r: bool)
    ensures
        r == suffix@.is_suffix_of(path@),
{
    let plen: usize = path.len();
    let slen: usize = suffix.len();
    if plen < slen {
        return false;
    }
    let offset: usize = plen - slen;
    let mut i: usize = 0;
    while i < slen
        invariant
            plen == path@.len(),
            slen == suffix@.len(),
            slen <= plen,
            offset == plen - slen,
            i <= slen,
            forall|j: int| 0 <= j < i ==> path@[offset + j] == suffix@[j],
        decreases slen - i,
    {
        assert(offset + i < plen);
        if path[offset + i] != suffix[i] {
            assert(path@.subrange(
                path@.len() - suffix@.len(),
                path@.len() as int,
            )[i as int] != suffix@[i as int]);
            return false;
        }
        i = i + 1;
    }
    proof {
        assert(suffix@ =~= path@.subrange(path@.len() - suffix@.len(), path@.len() as int));
    }
    true
}

/// Two paths are equal iff each is a prefix of the other; `path_eq` tests
/// exact elementwise equality.
pub fn path_eq(path: &Vec<StrRef>, other: &Vec<StrRef>) -> (r: bool)
    ensures
        r == (path@ == other@),
{
    if path.len() != other.len() {
        return false;
    }
    let r = path_starts_with(path, other);
    proof {
        if r {
            assert(path@ =~= other@);
        }
    }
    r
}

} // verus!

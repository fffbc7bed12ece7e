//! Symbol interner: maps name strings to small stable integer handles.
//!
//! Path comparison happens on every event, so the collector reduces it to
//! integer-sequence comparison.  Handles are indices into an append-only table
//! of distinct strings; identical strings always map to the identical handle
//! within a run, and allocation fails only when the number of distinct strings
//! exceeds the handle width.

use vstd::prelude::*;

use crate::GmlError;
use crate::strutil::str_eq;

verus! {

/// Most distinct strings an interner can hold: the greatest count for which
/// every assigned handle still fits the 16-bit handle type.
pub const MAX_SYMBOLS: usize = 65535;

/// An opaque handle for an interned name string.  Equal handles from one
/// interner stand for equal strings.
#[derive(Debug, Clone, Copy, PartialEq, Eq, Hash, Structural)]
pub struct StrRef(pub u16);

/// The interner: a table of distinct strings, indexed by handle.
pub struct StringInterner {
    strings: Vec<String>,
}

impl View for StringInterner {
    type V = Seq<Seq<char>>;

    closed spec fn view(&self) -> Seq<Seq<char>> {
        self.strings.deep_view()
    }
}

/// A well-formed interner model: within capacity, all entries distinct.
pub open spec fn model_wf(m: Seq<Seq<char>>) -> bool {
    &&& m.len() <= MAX_SYMBOLS
    &&& forall|i: int, j: int| 0 <= i < j < m.len() ==> m[i] != m[j]
}

/// Whether the model already holds the string `s`.
pub open spec fn model_contains(m: Seq<Seq<char>>, s: Seq<char>) -> bool {
    exists|i: int| 0 <= i < m.len() && m[i] == s
}

/// The handle of `s` in `m`; meaningful only when `model_contains(m, s)`
/// (unique whenever the entries are distinct).
pub open spec fn model_handle(m: Seq<Seq<char>>, s: Seq<char>) -> int {
    choose|i: int| 0 <= i < m.len() && m[i] == s
}

/// What `intern` does to the model: an existing string keeps its handle and
/// the table; a fresh string is appended and gets the next handle, unless the
/// table is at capacity, in which case nothing changes and no handle results.
pub open spec fn spec_intern(m: Seq<Seq<char>>, s: Seq<char>) -> (Seq<Seq<char>>, Option<int>) {
    if model_contains(m, s) {
        (m, Some(model_handle(m, s)))
    } else if m.len() < MAX_SYMBOLS {
        (m.push(s), Some(m.len() as int))
    } else {
        (m, None)
    }
}

/// In a distinct table, the handle of a contained string is the one index
/// that holds it.
pub proof fn lemma_handle_unique(m: Seq<Seq<char>>, s: Seq<char>, i: int)
    requires
        model_wf(m),
        0 <= i < m.len(),
        m[i] == s,
    ensures
        model_handle(m, s) == i,
{
    let h = model_handle(m, s);
    assert(0 <= h < m.len() && m[h] == s);
    if h != i {
        if h < i {
            assert(m[h] != m[i]);
        } else {
            assert(m[i] != m[h]);
        }
    }
}

impl StringInterner {
    /// Every handle an interner hands out is well formed by construction.
    pub open spec fn wf(&self) -> bool {
        model_wf(self@)
    }

    /// A fresh, empty interner.
    pub fn new() -> (r: StringInterner)
        ensures
            r@ == Seq::<Seq<char>>::empty(),
            r.wf(),
    {
        let r = StringInterner { strings: Vec::new() };
        proof {
            assert(r@ =~= Seq::<Seq<char>>::empty());
        }
        r
    }

    /// The handle for `s`: the existing one if `s` was seen before, otherwise
    /// the next handle in first-seen order.  Fails only when a fresh string
    /// arrives with the table at capacity.
    pub fn intern(&mut self, s: &str) -> (r: Result<StrRef, GmlError>)
        requires
            old(self).wf(),
        ensures
            final(self).wf(),
            final(self)@ == spec_intern(old(self)@, s@).0,
            match r {
                Ok(sym) => {
                    &&& spec_intern(old(self)@, s@).1 == Some(sym.0 as int)
                    &&& sym.0 < final(self)@.len()
                    &&& final(self)@[sym.0 as int] == s@
                },
                Err(e) => {
                    &&& spec_intern(old(self)@, s@).1 is None
                    &&& e == GmlError::SymbolCapacityExceeded
                },
            },
    {
        let n = self.strings.len();
        let mut i: usize = 0;
        while i < n
            invariant
                *self == *old(self),
                self.wf(),
                n == self.strings.len(),
                i <= n,
                forall|j: int| 0 <= j < i ==> self@[j] != s@,
            decreases n - i,
        {
            if str_eq(self.strings[i].as_str(), s) {
                proof {
                    assert(self@[i as int] == s@);
                    assert(model_contains(self@, s@));
                    lemma_handle_unique(self@, s@, i as int);
                    assert(spec_intern(old(self)@, s@) == (old(self)@, Some(i as int)));
                }
                return Ok(StrRef(i as u16));
            }
            i = i + 1;
        }
        assert(!model_contains(self@, s@));
        if n < MAX_SYMBOLS {
            self.strings.push(s.to_owned());
            proof {
                assert(self@ =~= old(self)@.push(s@));
            }
            Ok(StrRef(n as u16))
        } else {
            Err(GmlError::SymbolCapacityExceeded)
        }
    }

    /// The string a handle stands for.
    pub fn get(&self, id: StrRef) -> (r: &str)
        requires
            (id.0 as int) < self@.len(),
        ensures
            r@ == self@[id.0 as int],
    {
        self.strings[id.0 as usize].as_str()
    }
}

impl Default for StringInterner {
    /// Same as [`StringInterner::new`].
    fn default() -> (r: Self)
        ensures
            r@ == Seq::<Seq<char>>::empty(),
            r.wf(),
    {
        StringInterner::new()
    }
}

/// Interning a string and resolving the returned handle yields the same
/// string again.
pub proof fn lemma_intern_then_resolve(m: Seq<Seq<char>>, s: Seq<char>)
    requires
        model_wf(m),
        spec_intern(m, s).1 is Some,
    ensures
        spec_intern(m, s).0[spec_intern(m, s).1.unwrap()] == s,
{
    if model_contains(m, s) {
        let h = model_handle(m, s);
        assert(0 <= h < m.len() && m[h] == s);
    }
}

/// Interning the same string twice returns the same handle, and the second
/// call leaves the table untouched.
pub proof fn lemma_intern_idempotent(m: Seq<Seq<char>>, s: Seq<char>)
    requires
        model_wf(m),
        spec_intern(m, s).1 is Some,
    ensures
        spec_intern(spec_intern(m, s).0, s) == (spec_intern(m, s).0, spec_intern(m, s).1),
{
    let (m1, h) = spec_intern(m, s);
    let h = h.unwrap();
    lemma_intern_then_resolve(m, s);
    assert(m1[h] == s);
    assert(model_contains(m1, s));
    if model_contains(m, s) {
        lemma_handle_unique(m1, s, h);
    } else {
        assert(forall|i: int| 0 <= i < m.len() ==> m1[i] == m[i]);
        assert(model_wf(m1));
        lemma_handle_unique(m1, s, h);
    }
}

/// Distinct strings always receive distinct handles: after interning both,
/// the two handles differ.
pub proof fn lemma_intern_injective(m: Seq<Seq<char>>, s1: Seq<char>, s2: Seq<char>)
    requires
        model_wf(m),
        s1 != s2,
        spec_intern(m, s1).1 is Some,
        spec_intern(spec_intern(m, s1).0, s2).1 is Some,
    ensures
        spec_intern(spec_intern(m, s1).0, s2).1 != spec_intern(m, s1).1,
{
    let (m1, h1opt) = spec_intern(m, s1);
    let h1 = h1opt.unwrap();
    let h2 = spec_intern(m1, s2).1.unwrap();
    lemma_intern_then_resolve(m, s1);
    assert(m1[h1] == s1);
    proof_intern_wf(m, s1);
    lemma_intern_then_resolve(m1, s2);
    assert(spec_intern(m1, s2).0[h2] == s2);
    if h1 == h2 {
        if model_contains(m1, s2) {
            assert(m1[h2] == s2);
        } else {
            // s2 is appended at index m1.len(), so h2 == m1.len() > h1.
            assert(h2 == m1.len());
            assert(h1 < m1.len());
        }
    }
}

/// Interning preserves well-formedness of the model.
pub proof fn proof_intern_wf(m: Seq<Seq<char>>, s: Seq<char>)
    requires
        model_wf(m),
    ensures
        model_wf(spec_intern(m, s).0),
{
    let m1 = spec_intern(m, s).0;
    if !model_contains(m, s) && m.len() < MAX_SYMBOLS {
        assert(forall|i: int| 0 <= i < m.len() ==> m1[i] == m[i]);
        assert(forall|i: int, j: int| 0 <= i < j < m1.len() ==> m1[i] != m1[j]) by {
            assert(forall|i: int| 0 <= i < m.len() ==> m1[i] != s);
        }
    }
}

} // verus!

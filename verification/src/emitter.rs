//! The sink abstraction consuming completed records.
//!
//! A sink is modelled by the sequence of records it has consumed so far:
//! `emit` appends exactly one record, `start` and `end` consume none.  The
//! run loop calls `start` once before any record, `emit` once per completed
//! record in document order, and `end` once after input is exhausted.

use vstd::prelude::*;

use crate::{FeatureMember, FeatureMemberView};

verus! {

/// Output abstraction: tabular files, a relational store, a no-op, or
/// anything else that consumes completed records one at a time.
pub trait FeatureMemberEmitter {
    /// The records this sink has consumed so far, in order.
    spec fn emitted(&self) -> Seq<FeatureMemberView>;

    /// Consume one completed record.
    fn emit(&mut self, feature_member: FeatureMember)
        ensures
            final(self).emitted() == old(self).emitted().push(feature_member@),
    ;

    /// Idempotent setup; runs once before any record.
    fn start(&mut self)
        ensures
            final(self).emitted() == old(self).emitted(),
    ;

    /// Durability; runs once after input is exhausted.
    fn end(&mut self)
        ensures
            final(self).emitted() == old(self).emitted(),
    ;
}

/// The no-op sink: discards every record.
pub struct NullEmitter {
    records: Ghost<Seq<FeatureMemberView>>,
}

impl NullEmitter {
    /// A fresh no-op sink.
    pub fn new() -> (r: NullEmitter)
        ensures
            r.emitted() == Seq::<FeatureMemberView>::empty(),
    {
        NullEmitter { records: Ghost(Seq::empty()) }
    }
}

impl Default for NullEmitter {
    /// Same as [`NullEmitter::new`].
    fn default() -> (r: Self)
        ensures
            r.emitted() == Seq::<FeatureMemberView>::empty(),
    {
        NullEmitter::new()
    }
}

impl FeatureMemberEmitter for NullEmitter {
    closed spec fn emitted(&self) -> Seq<FeatureMemberView> {
        self.records@
    }

    fn emit(&mut self, feature_member: FeatureMember) {
        self.records = Ghost(self.records@.push(feature_member@));
    }

    fn start(&mut self) {
    }

    fn end(&mut self) {
    }
}

/// An in-memory sink: keeps every record, in order.
pub struct VecEmitter {
    /// The records consumed so far.
    pub records: Vec<FeatureMember>,
}

impl VecEmitter {
    /// A fresh, empty in-memory sink.
    pub fn new() -> (r: VecEmitter)
        ensures
            r.emitted() == Seq::<FeatureMemberView>::empty(),
            r.records@.len() == 0,
    {
        let r = VecEmitter { records: Vec::new() };
        proof {
            assert(r.emitted() =~= Seq::<FeatureMemberView>::empty());
        }
        r
    }
}

impl FeatureMemberEmitter for VecEmitter {
    open spec fn emitted(&self) -> Seq<FeatureMemberView> {
        self.records.deep_view()
    }

    fn emit(&mut self, feature_member: FeatureMember) {
        self.records.push(feature_member);
        proof {
            assert(self.records.deep_view() =~= old(self).records.deep_view().push(
                feature_member@,
            ));
        }
    }

    fn start(&mut self) {
    }

    fn end(&mut self) {
    }
}

} // verus!

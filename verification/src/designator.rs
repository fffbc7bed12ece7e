//! Order-independent joiner for (type, value) designator pairs.
//!
//! The wire format emits a designator's type code and its value text in
//! document order, but the relative order between the two is not guaranteed.
//! The builder holds at most one of the two halves; completing the missing
//! half immediately yields the pair and clears the builder.

use vstd::prelude::*;

verus! {

/// The closed set of designator type codes an Address understands.
#[derive(Debug, Clone, Copy, PartialEq, Eq, Structural)]
pub enum LocatorDesignatorType {
    Number,
    NumberExtension,
    Number2ndExtension,
    PostalDeliveryIdentifier,
}

/// One completed structured address-number component.
#[derive(Debug, PartialEq, Eq)]
pub struct LocatorDesignator {
    pub type_: LocatorDesignatorType,
    pub designator: String,
}

/// Mathematical abstraction of a completed pair.
#[verifier::ext_equal]
pub struct LocatorDesignatorView {
    pub type_: LocatorDesignatorType,
    pub designator: Seq<char>,
}

impl View for LocatorDesignator {
    type V = LocatorDesignatorView;

    open spec fn view(&self) -> LocatorDesignatorView {
        LocatorDesignatorView { type_: self.type_, designator: self.designator@ }
    }
}

impl DeepView for LocatorDesignator {
    type V = LocatorDesignatorView;

    open spec fn deep_view(&self) -> LocatorDesignatorView {
        self.view()
    }
}

/// The in-progress pair: at most one half present at any time.
pub struct LocatorDesignatorBuilder {
    type_: Option<LocatorDesignatorType>,
    designator: Option<String>,
}

/// Abstraction of the in-progress pair.
#[verifier::ext_equal]
pub struct DesignatorSlotView {
    pub type_: Option<LocatorDesignatorType>,
    pub designator: Option<Seq<char>>,
}

impl View for LocatorDesignatorBuilder {
    type V = DesignatorSlotView;

    closed spec fn view(&self) -> DesignatorSlotView {
        DesignatorSlotView { type_: self.type_, designator: self.designator.deep_view() }
    }
}

impl DeepView for LocatorDesignatorBuilder {
    type V = DesignatorSlotView;

    open spec fn deep_view(&self) -> DesignatorSlotView {
        self.view()
    }
}

/// An empty slot: neither half held.
pub open spec fn empty_slot() -> DesignatorSlotView {
    DesignatorSlotView { type_: None, designator: None }
}

/// A slot never holds both halves at once.
pub open spec fn slot_wf(b: DesignatorSlotView) -> bool {
    !(b.type_ is Some && b.designator is Some)
}

/// What `set_type` does: a held value completes the pair and is taken out;
/// otherwise the type half is stored.
pub open spec fn spec_set_type(b: DesignatorSlotView, t: LocatorDesignatorType) -> (
    DesignatorSlotView,
    Option<LocatorDesignatorView>,
) {
    match b.designator {
        Some(v) => (
            (DesignatorSlotView { type_: b.type_, designator: None }),
            Some(LocatorDesignatorView { type_: t, designator: v }),
        ),
        None => ((DesignatorSlotView { type_: Some(t), designator: b.designator }), None),
    }
}

/// What `set_designator` does: a held type completes the pair and is taken
/// out; otherwise the value half is stored.
pub open spec fn spec_set_designator(b: DesignatorSlotView, v: Seq<char>) -> (
    DesignatorSlotView,
    Option<LocatorDesignatorView>,
) {
    match b.type_ {
        Some(t) => (
            (DesignatorSlotView { type_: None, designator: b.designator }),
            Some(LocatorDesignatorView { type_: t, designator: v }),
        ),
        None => ((DesignatorSlotView { type_: b.type_, designator: Some(v) }), None),
    }
}

impl LocatorDesignatorBuilder {
    /// A slot holding only the type half.
    pub fn new_with_type(type_: LocatorDesignatorType) -> (r: LocatorDesignatorBuilder)
        ensures
            r@ == (DesignatorSlotView { type_: Some(type_), designator: None }),
            slot_wf(r@),
    {
        LocatorDesignatorBuilder { type_: Some(type_), designator: None }
    }

    /// A slot holding only the value half.
    pub fn new_with_designator(designator: String) -> (r: LocatorDesignatorBuilder)
        ensures
            r@ == (DesignatorSlotView { type_: None, designator: Some(designator@) }),
            slot_wf(r@),
    {
        LocatorDesignatorBuilder { type_: None, designator: Some(designator) }
    }

    /// Supply the type half; yields the completed pair if the value half was
    /// already held.
    pub fn set_type(&mut self, type_: LocatorDesignatorType) -> (r: Option<LocatorDesignator>)
        ensures
            final(self)@ == spec_set_type(old(self)@, type_).0,
            r.deep_view() == spec_set_type(old(self)@, type_).1,
    {
        if let Some(designator) = self.designator.take() {
            return Some(LocatorDesignator { type_, designator });
        }
        self.type_ = Some(type_);
        None
    }

    /// Supply the value half; yields the completed pair if the type half was
    /// already held.
    pub fn set_designator(&mut self, designator: String) -> (r: Option<LocatorDesignator>)
        ensures
            final(self)@ == spec_set_designator(old(self)@, designator@).0,
            r.deep_view() == spec_set_designator(old(self)@, designator@).1,
    {
        if let Some(type_) = self.type_.take() {
            return Some(LocatorDesignator { type_, designator });
        }
        self.designator = Some(designator);
        None
    }
}

/// For one `set_type` and one `set_designator` call on an empty slot, in
/// either order, the first call completes nothing, the second completes
/// exactly the pair of the two inputs, and the slot ends empty again.
pub proof fn lemma_pairing_order_independent(t: LocatorDesignatorType, v: Seq<char>)
    ensures
        ({
            let (b1, r1) = spec_set_type(empty_slot(), t);
            let (b2, r2) = spec_set_designator(b1, v);
            &&& r1 is None
            &&& r2 == Some(LocatorDesignatorView { type_: t, designator: v })
            &&& b2 == empty_slot()
        }),
        ({
            let (c1, q1) = spec_set_designator(empty_slot(), v);
            let (c2, q2) = spec_set_type(c1, t);
            &&& q1 is None
            &&& q2 == Some(LocatorDesignatorView { type_: t, designator: v })
            &&& c2 == empty_slot()
        }),
{
}

/// Both transitions keep the slot well formed: after either call the slot
/// holds at most one half.
pub proof fn lemma_slot_wf_preserved(b: DesignatorSlotView, t: LocatorDesignatorType, v: Seq<char>)
    requires
        slot_wf(b),
    ensures
        slot_wf(spec_set_type(b, t).0),
        slot_wf(spec_set_designator(b, v).0),
{
}

} // verus!

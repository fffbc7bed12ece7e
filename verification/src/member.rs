//! Record builders: the mutable, in-progress counterpart of each record kind.
//!
//! A builder is created when a new feature member begins, accumulates typed
//! optional fields as events at known absolute paths arrive, and is consumed
//! by `finish` when the member closes.  The record's `local_id` is tracked by
//! the collector, because its wire location is uniform across all kinds.

use vstd::prelude::*;

use crate::designator::{
    spec_set_designator, spec_set_type, DesignatorSlotView, LocatorDesignator,
    LocatorDesignatorBuilder, LocatorDesignatorType, LocatorDesignatorView,
};
use crate::interner::StrRef;
use crate::paths::path_eq;
use crate::strutil::{str_after_prefix, str_eq, str_has_prefix};
use crate::table::{PathTable, PathTableView};
use crate::{FeatureMember, FeatureMemberView, GmlError};

verus! {

/// In-progress Address record.  The four numeric fields come exclusively
/// from completed designator pairs; the three reference fields come from
/// cross-reference attributes on the component element.
pub struct AddressBuilder {
    pub number: Option<String>,
    pub number_extension: Option<String>,
    pub number_2nd_extension: Option<String>,
    pub postal_delivery_identifier: Option<String>,
    pub admin_unit_ref: Option<String>,
    pub address_area_ref: Option<String>,
    pub thoroughfare_ref: Option<String>,
    pub locator_designator_builder: Option<LocatorDesignatorBuilder>,
}

/// Abstraction of an in-progress Address.
#[verifier::ext_equal]
pub struct AddressBuilderView {
    pub number: Option<Seq<char>>,
    pub number_extension: Option<Seq<char>>,
    pub number_2nd_extension: Option<Seq<char>>,
    pub postal_delivery_identifier: Option<Seq<char>>,
    pub admin_unit_ref: Option<Seq<char>>,
    pub address_area_ref: Option<Seq<char>>,
    pub thoroughfare_ref: Option<Seq<char>>,
    pub locator_designator_builder: Option<DesignatorSlotView>,
}

impl View for AddressBuilder {
    type V = AddressBuilderView;

    open spec fn view(&self) -> AddressBuilderView {
        AddressBuilderView {
            number: self.number.deep_view(),
            number_extension: self.number_extension.deep_view(),
            number_2nd_extension: self.number_2nd_extension.deep_view(),
            postal_delivery_identifier: self.postal_delivery_identifier.deep_view(),
            admin_unit_ref: self.admin_unit_ref.deep_view(),
            address_area_ref: self.address_area_ref.deep_view(),
            thoroughfare_ref: self.thoroughfare_ref.deep_view(),
            locator_designator_builder: self.locator_designator_builder.deep_view(),
        }
    }
}

/// In-progress AdminUnitName record.
pub struct AdminUnitNameBuilder {
    pub name: Option<String>,
}

/// In-progress AddressAreaName record.
pub struct AddressAreaNameBuilder {
    pub name: Option<String>,
    pub situated_in_ref: Option<String>,
}

/// In-progress ThoroughfareName record.
pub struct ThoroughfareNameBuilder {
    pub name: Option<String>,
    pub situated_in_ref: Option<String>,
}

/// The single in-flight builder, tagged by record kind at construction.
pub enum FeatureMemberBuilder {
    Address(AddressBuilder),
    AdminUnitName(AdminUnitNameBuilder),
    AddressAreaName(AddressAreaNameBuilder),
    ThoroughfareName(ThoroughfareNameBuilder),
}

/// Abstraction of the in-flight builder.
#[verifier::ext_equal]
pub enum FeatureMemberBuilderView {
    Address(AddressBuilderView),
    AdminUnitName { name: Option<Seq<char>> },
    AddressAreaName { name: Option<Seq<char>>, situated_in_ref: Option<Seq<char>> },
    ThoroughfareName { name: Option<Seq<char>>, situated_in_ref: Option<Seq<char>> },
}

impl View for FeatureMemberBuilder {
    type V = FeatureMemberBuilderView;

    open spec fn view(&self) -> FeatureMemberBuilderView {
        match self {
            FeatureMemberBuilder::Address(b) => FeatureMemberBuilderView::Address(b@),
            FeatureMemberBuilder::AdminUnitName(b) => FeatureMemberBuilderView::AdminUnitName {
                name: b.name.deep_view(),
            },
            FeatureMemberBuilder::AddressAreaName(b) => FeatureMemberBuilderView::AddressAreaName {
                name: b.name.deep_view(),
                situated_in_ref: b.situated_in_ref.deep_view(),
            },
            FeatureMemberBuilder::ThoroughfareName(b) => {
                FeatureMemberBuilderView::ThoroughfareName {
                    name: b.name.deep_view(),
                    situated_in_ref: b.situated_in_ref.deep_view(),
                }
            },
        }
    }
}

/// The in-flight builder together with the collector-tracked `local_id`.
pub struct CurrentMemberBuilder {
    pub local_id: Option<String>,
    pub feature_member: FeatureMemberBuilder,
}

/// Abstraction of the in-flight member.
#[verifier::ext_equal]
pub struct CurrentMemberView {
    pub local_id: Option<Seq<char>>,
    pub feature_member: FeatureMemberBuilderView,
}

impl View for CurrentMemberBuilder {
    type V = CurrentMemberView;

    open spec fn view(&self) -> CurrentMemberView {
        CurrentMemberView {
            local_id: self.local_id.deep_view(),
            feature_member: self.feature_member@,
        }
    }
}

impl DeepView for CurrentMemberBuilder {
    type V = CurrentMemberView;

    open spec fn deep_view(&self) -> CurrentMemberView {
        self.view()
    }
}

/// An Address builder with no field observed yet.
pub open spec fn empty_address_builder() -> AddressBuilderView {
    AddressBuilderView {
        number: None,
        number_extension: None,
        number_2nd_extension: None,
        postal_delivery_identifier: None,
        admin_unit_ref: None,
        address_area_ref: None,
        thoroughfare_ref: None,
        locator_designator_builder: None,
    }
}

/// Routing of a completed designator pair to the Address field selected by
/// its type code.
pub open spec fn spec_route_designator(
    b: AddressBuilderView,
    d: LocatorDesignatorView,
) -> AddressBuilderView {
    match d.type_ {
        LocatorDesignatorType::Number => AddressBuilderView { number: Some(d.designator), ..b },
        LocatorDesignatorType::NumberExtension => AddressBuilderView {
            number_extension: Some(d.designator),
            ..b
        },
        LocatorDesignatorType::Number2ndExtension => AddressBuilderView {
            number_2nd_extension: Some(d.designator),
            ..b
        },
        LocatorDesignatorType::PostalDeliveryIdentifier => AddressBuilderView {
            postal_delivery_identifier: Some(d.designator),
            ..b
        },
    }
}

/// What one attribute does at the component path: an `xlink:href` whose value
/// carries one of the three known fragment prefixes sets the matching
/// reference field to the remainder; anything else changes nothing.
pub open spec fn apply_component_attr(
    b: AddressBuilderView,
    kv: (Seq<char>, Seq<char>),
) -> AddressBuilderView {
    if kv.0 == "xlink:href"@ {
        if "#nl-imbag-ad-adminunitname."@.is_prefix_of(kv.1) {
            AddressBuilderView {
                admin_unit_ref: Some(kv.1.skip("#nl-imbag-ad-adminunitname."@.len() as int)),
                ..b
            }
        } else if "#nl-imbag-ad-addressareaname."@.is_prefix_of(kv.1) {
            AddressBuilderView {
                address_area_ref: Some(kv.1.skip("#nl-imbag-ad-addressareaname."@.len() as int)),
                ..b
            }
        } else if "#nl-imbag-ad-thoroughfarename."@.is_prefix_of(kv.1) {
            AddressBuilderView {
                thoroughfare_ref: Some(kv.1.skip("#nl-imbag-ad-thoroughfarename."@.len() as int)),
                ..b
            }
        } else {
            b
        }
    } else {
        b
    }
}

/// All attributes of one component element, applied in document order.
pub open spec fn fold_component(
    b: AddressBuilderView,
    attrs: Seq<(Seq<char>, Seq<char>)>,
) -> AddressBuilderView
    decreases attrs.len(),
{
    if attrs.len() == 0 {
        b
    } else {
        apply_component_attr(fold_component(b, attrs.drop_last()), attrs.last())
    }
}

/// The closed mapping from a designator-type code value to its type, if any.
pub open spec fn spec_designator_type_of(v: Seq<char>) -> Option<LocatorDesignatorType> {
    if v == "http://inspire.ec.europa.eu/codelist/LocatorDesignatorTypeValue/addressNumber"@ {
        Some(LocatorDesignatorType::Number)
    } else if v
        == "http://inspire.ec.europa.eu/codelist/LocatorDesignatorTypeValue/addressNumberExtension"@ {
        Some(LocatorDesignatorType::NumberExtension)
    } else if v
        == "http://inspire.ec.europa.eu/codelist/LocatorDesignatorTypeValue/addressNumber2ndExtension"@ {
        Some(LocatorDesignatorType::Number2ndExtension)
    } else if v
        == "http://inspire.ec.europa.eu/codelist/LocatorDesignatorTypeValue/postalDeliveryIdentifier"@ {
        Some(LocatorDesignatorType::PostalDeliveryIdentifier)
    } else {
        None
    }
}

/// Supplying a type half to the Address's single designator slot: an empty
/// slot stores it; a slot holding a value completes the pair, which is routed
/// to its field and the slot cleared.
pub open spec fn apply_designator_type(
    b: AddressBuilderView,
    t: LocatorDesignatorType,
) -> AddressBuilderView {
    match b.locator_designator_builder {
        Some(slot) => {
            let (slot1, pair) = spec_set_type(slot, t);
            match pair {
                Some(d) => spec_route_designator(
                    AddressBuilderView { locator_designator_builder: None, ..b },
                    d,
                ),
                None => AddressBuilderView { locator_designator_builder: Some(slot1), ..b },
            }
        },
        None => AddressBuilderView {
            locator_designator_builder: Some(
                DesignatorSlotView { type_: Some(t), designator: None },
            ),
            ..b
        },
    }
}

/// What one attribute does at the designator-type path: an `xlink:href`
/// holding a known code feeds the slot; an unrecognized code is tolerated and
/// changes nothing.
pub open spec fn apply_designator_type_attr(
    b: AddressBuilderView,
    kv: (Seq<char>, Seq<char>),
) -> AddressBuilderView {
    if kv.0 == "xlink:href"@ {
        match spec_designator_type_of(kv.1) {
            Some(t) => apply_designator_type(b, t),
            None => b,
        }
    } else {
        b
    }
}

/// All attributes of one designator-type element, applied in document order.
pub open spec fn fold_designator_type(
    b: AddressBuilderView,
    attrs: Seq<(Seq<char>, Seq<char>)>,
) -> AddressBuilderView
    decreases attrs.len(),
{
    if attrs.len() == 0 {
        b
    } else {
        apply_designator_type_attr(fold_designator_type(b, attrs.drop_last()), attrs.last())
    }
}

/// Supplying the value half to the designator slot, symmetrically to
/// [`apply_designator_type`].
pub open spec fn apply_designator_value(b: AddressBuilderView, v: Seq<char>) -> AddressBuilderView {
    match b.locator_designator_builder {
        Some(slot) => {
            let (slot1, pair) = spec_set_designator(slot, v);
            match pair {
                Some(d) => spec_route_designator(
                    AddressBuilderView { locator_designator_builder: None, ..b },
                    d,
                ),
                None => AddressBuilderView { locator_designator_builder: Some(slot1), ..b },
            }
        },
        None => AddressBuilderView {
            locator_designator_builder: Some(
                DesignatorSlotView { type_: None, designator: Some(v) },
            ),
            ..b
        },
    }
}

/// What one attribute does at a situatedWithin path: an `xlink:href` whose
/// value carries the expected fragment prefix sets the reference to the
/// remainder; an unrecognized value is tolerated and changes nothing.
pub open spec fn apply_situated_attr(
    cur: Option<Seq<char>>,
    kv: (Seq<char>, Seq<char>),
    prefix: Seq<char>,
) -> Option<Seq<char>> {
    if kv.0 == "xlink:href"@ && prefix.is_prefix_of(kv.1) {
        Some(kv.1.skip(prefix.len() as int))
    } else {
        cur
    }
}

/// All attributes of one situatedWithin element, applied in document order.
pub open spec fn fold_situated(
    cur: Option<Seq<char>>,
    attrs: Seq<(Seq<char>, Seq<char>)>,
    prefix: Seq<char>,
) -> Option<Seq<char>>
    decreases attrs.len(),
{
    if attrs.len() == 0 {
        cur
    } else {
        apply_situated_attr(fold_situated(cur, attrs.drop_last(), prefix), attrs.last(), prefix)
    }
}

/// The closed mapping from a member tag name to a fresh builder.
pub open spec fn spec_new_from_tag(tag: Seq<char>) -> Option<FeatureMemberBuilderView> {
    if tag == "ad:Address"@ {
        Some(FeatureMemberBuilderView::Address(empty_address_builder()))
    } else if tag == "ad:AdminUnitName"@ {
        Some(FeatureMemberBuilderView::AdminUnitName { name: None })
    } else if tag == "ad:AddressAreaName"@ {
        Some(FeatureMemberBuilderView::AddressAreaName { name: None, situated_in_ref: None })
    } else if tag == "ad:ThoroughfareName"@ {
        Some(FeatureMemberBuilderView::ThoroughfareName { name: None, situated_in_ref: None })
    } else {
        None
    }
}

/// What an element-open (or self-closing) event inside a member does to the
/// builder, given the absolute path of the opened element and its attributes.
pub open spec fn spec_member_start(
    m: CurrentMemberView,
    t: PathTableView,
    path: Seq<StrRef>,
    attrs: Seq<(Seq<char>, Seq<char>)>,
) -> CurrentMemberView {
    match m.feature_member {
        FeatureMemberBuilderView::AdminUnitName { .. } => m,
        FeatureMemberBuilderView::Address(b) => {
            let b1 = if path == t.component {
                fold_component(b, attrs)
            } else {
                b
            };
            let b2 = if path == t.designator_type {
                fold_designator_type(b1, attrs)
            } else {
                b1
            };
            CurrentMemberView { feature_member: FeatureMemberBuilderView::Address(b2), ..m }
        },
        FeatureMemberBuilderView::AddressAreaName { name, situated_in_ref } => {
            if path == t.situated_in_address_area {
                CurrentMemberView {
                    feature_member: FeatureMemberBuilderView::AddressAreaName {
                        name,
                        situated_in_ref: fold_situated(
                            situated_in_ref,
                            attrs,
                            "#nl-imbag-ad-adminunitname."@,
                        ),
                    },
                    ..m
                }
            } else {
                m
            }
        },
        FeatureMemberBuilderView::ThoroughfareName { name, situated_in_ref } => {
            if path == t.situated_in_thoroughfare {
                CurrentMemberView {
                    feature_member: FeatureMemberBuilderView::ThoroughfareName {
                        name,
                        situated_in_ref: fold_situated(
                            situated_in_ref,
                            attrs,
                            "#nl-imbag-ad-addressareaname-"@,
                        ),
                    },
                    ..m
                }
            } else {
                m
            }
        },
    }
}

/// What a text event inside a member does to the builder: the designator
/// value leaf feeds the slot; a name leaf is captured first-write-wins.
pub open spec fn spec_member_text(
    m: CurrentMemberView,
    t: PathTableView,
    path: Seq<StrRef>,
    text: Seq<char>,
) -> CurrentMemberView {
    match m.feature_member {
        FeatureMemberBuilderView::Address(b) => {
            if path == t.designator_value {
                CurrentMemberView {
                    feature_member: FeatureMemberBuilderView::Address(
                        apply_designator_value(b, text),
                    ),
                    ..m
                }
            } else {
                m
            }
        },
        FeatureMemberBuilderView::AdminUnitName { name } => {
            if path == t.name_admin_unit && name is None {
                CurrentMemberView {
                    feature_member: FeatureMemberBuilderView::AdminUnitName { name: Some(text) },
                    ..m
                }
            } else {
                m
            }
        },
        FeatureMemberBuilderView::AddressAreaName { name, situated_in_ref } => {
            if path == t.name_address_area && name is None {
                CurrentMemberView {
                    feature_member: FeatureMemberBuilderView::AddressAreaName {
                        name: Some(text),
                        situated_in_ref,
                    },
                    ..m
                }
            } else {
                m
            }
        },
        FeatureMemberBuilderView::ThoroughfareName { name, situated_in_ref } => {
            if path == t.name_thoroughfare && name is None {
                CurrentMemberView {
                    feature_member: FeatureMemberBuilderView::ThoroughfareName {
                        name: Some(text),
                        situated_in_ref,
                    },
                    ..m
                }
            } else {
                m
            }
        },
    }
}

/// What `finish` produces: the immutable record, or the fatal condition that
/// the member closed before its `localId` was observed.
pub open spec fn spec_finish(m: CurrentMemberView) -> Result<FeatureMemberView, GmlError> {
    match m.local_id {
        None => Err(GmlError::MissingLocalId),
        Some(lid) => Ok(
            match m.feature_member {
                FeatureMemberBuilderView::Address(b) => FeatureMemberView::Address {
                    local_id: lid,
                    number: b.number,
                    number_extension: b.number_extension,
                    number_2nd_extension: b.number_2nd_extension,
                    postal_delivery_identifier: b.postal_delivery_identifier,
                    admin_unit_ref: b.admin_unit_ref,
                    address_area_ref: b.address_area_ref,
                    thoroughfare_ref: b.thoroughfare_ref,
                },
                FeatureMemberBuilderView::AdminUnitName { name } => {
                    FeatureMemberView::AdminUnitName { local_id: lid, name }
                },
                FeatureMemberBuilderView::AddressAreaName { name, situated_in_ref } => {
                    FeatureMemberView::AddressAreaName { local_id: lid, name, situated_in_ref }
                },
                FeatureMemberBuilderView::ThoroughfareName { name, situated_in_ref } => {
                    FeatureMemberView::ThoroughfareName { local_id: lid, name, situated_in_ref }
                },
            },
        ),
    }
}

impl AddressBuilder {
    /// Route a completed pair to the field its type code selects.
    pub fn set_designator(&mut self, designator: LocatorDesignator)
        ensures
            final(self)@ == spec_route_designator(old(self)@, designator@),
    {
        let LocatorDesignator { type_, designator } = designator;
        match type_ {
            LocatorDesignatorType::Number => self.number = Some(designator),
            LocatorDesignatorType::NumberExtension => self.number_extension = Some(designator),
            LocatorDesignatorType::Number2ndExtension => {
                self.number_2nd_extension = Some(designator)
            },
            LocatorDesignatorType::PostalDeliveryIdentifier => {
                self.postal_delivery_identifier = Some(designator)
            },
        }
    }

    /// Apply every attribute of the component element in order.
    fn apply_component_attrs(&mut self, attrs: &Vec<(String, String)>)
        ensures
            final(self)@ == fold_component(old(self)@, attrs.deep_view()),
    {
        let n = attrs.len();
        let mut i: usize = 0;
        while i < n
            invariant
                n == attrs@.len(),
                i <= n,
                self@ == fold_component(old(self)@, attrs.deep_view().take(i as int)),
            decreases n - i,
        {
            let ghost prev = self@;
            let key = &attrs[i].0;
            let value = &attrs[i].1;
            if str_eq(key.as_str(), "xlink:href") {
                if str_has_prefix(value.as_str(), "#nl-imbag-ad-adminunitname.") {
                    self.admin_unit_ref = Some(
                        str_after_prefix(value.as_str(), "#nl-imbag-ad-adminunitname."),
                    );
                } else if str_has_prefix(value.as_str(), "#nl-imbag-ad-addressareaname.") {
                    self.address_area_ref = Some(
                        str_after_prefix(value.as_str(), "#nl-imbag-ad-addressareaname."),
                    );
                } else if str_has_prefix(value.as_str(), "#nl-imbag-ad-thoroughfarename.") {
                    self.thoroughfare_ref = Some(
                        str_after_prefix(value.as_str(), "#nl-imbag-ad-thoroughfarename."),
                    );
                }
            }
            proof {
                let av = attrs.deep_view();
                assert(av[i as int] == (attrs@[i as int].0@, attrs@[i as int].1@));
                assert(self@ =~= apply_component_attr(prev, av[i as int]));
                assert(av.take(i as int + 1).drop_last() =~= av.take(i as int));
                assert(av.take(i as int + 1).last() == av[i as int]);
            }
            i = i + 1;
        }
        proof {
            assert(attrs.deep_view().take(n as int) =~= attrs.deep_view());
        }
    }

    /// Apply every attribute of the designator-type element in order.
    fn apply_designator_type_attrs(&mut self, attrs: &Vec<(String, String)>)
        ensures
            final(self)@ == fold_designator_type(old(self)@, attrs.deep_view()),
    {
        let n = attrs.len();
        let mut i: usize = 0;
        while i < n
            invariant
                n == attrs@.len(),
                i <= n,
                self@ == fold_designator_type(old(self)@, attrs.deep_view().take(i as int)),
            decreases n - i,
        {
            let ghost prev = self@;
            let key = &attrs[i].0;
            let value = &attrs[i].1;
            if str_eq(key.as_str(), "xlink:href") {
                if let Some(type_) = designator_type_of(value.as_str()) {
                    match self.locator_designator_builder.take() {
                        Some(mut slot) => {
                            match slot.set_type(type_) {
                                Some(d) => self.set_designator(d),
                                None => self.locator_designator_builder = Some(slot),
                            }
                        },
                        None => {
                            self.locator_designator_builder = Some(
                                LocatorDesignatorBuilder::new_with_type(type_),
                            );
                        },
                    }
                }
            }
            proof {
                let av = attrs.deep_view();
                assert(av[i as int] == (attrs@[i as int].0@, attrs@[i as int].1@));
                assert(self@ =~= apply_designator_type_attr(prev, av[i as int]));
                assert(av.take(i as int + 1).drop_last() =~= av.take(i as int));
                assert(av.take(i as int + 1).last() == av[i as int]);
            }
            i = i + 1;
        }
        proof {
            assert(attrs.deep_view().take(n as int) =~= attrs.deep_view());
        }
    }

    /// Feed the designator value half observed as text at the value leaf.
    fn apply_designator_value_text(&mut self, text: String)
        ensures
            final(self)@ == apply_designator_value(old(self)@, text@),
    {
        match self.locator_designator_builder.take() {
            Some(mut slot) => {
                match slot.set_designator(text) {
                    Some(d) => self.set_designator(d),
                    None => self.locator_designator_builder = Some(slot),
                }
            },
            None => {
                self.locator_designator_builder = Some(
                    LocatorDesignatorBuilder::new_with_designator(text),
                );
            },
        }
    }
}

/// The exec counterpart of [`spec_designator_type_of`].
fn designator_type_of(v: &str) -> (r: Option<LocatorDesignatorType>)
    ensures
        r == spec_designator_type_of(v@),
{
    if str_eq(v, "http://inspire.ec.europa.eu/codelist/LocatorDesignatorTypeValue/addressNumber") {
        Some(LocatorDesignatorType::Number)
    } else if str_eq(
        v,
        "http://inspire.ec.europa.eu/codelist/LocatorDesignatorTypeValue/addressNumberExtension",
    ) {
        Some(LocatorDesignatorType::NumberExtension)
    } else if str_eq(
        v,
        "http://inspire.ec.europa.eu/codelist/LocatorDesignatorTypeValue/addressNumber2ndExtension",
    ) {
        Some(LocatorDesignatorType::Number2ndExtension)
    } else if str_eq(
        v,
        "http://inspire.ec.europa.eu/codelist/LocatorDesignatorTypeValue/postalDeliveryIdentifier",
    ) {
        Some(LocatorDesignatorType::PostalDeliveryIdentifier)
    } else {
        None
    }
}

/// Apply situatedWithin attributes in order to a reference field, stripping
/// the given fragment prefix.
fn apply_situated_attrs(cur: &mut Option<String>, attrs: &Vec<(String, String)>, prefix: &str)
    ensures
        final(cur).deep_view() == fold_situated(old(cur).deep_view(), attrs.deep_view(), prefix@),
{
    let n = attrs.len();
    let mut i: usize = 0;
    while i < n
        invariant
            n == attrs@.len(),
            i <= n,
            cur.deep_view() == fold_situated(
                old(cur).deep_view(),
                attrs.deep_view().take(i as int),
                prefix@,
            ),
        decreases n - i,
    {
        let ghost prev = cur.deep_view();
        let key = &attrs[i].0;
        let value = &attrs[i].1;
        if str_eq(key.as_str(), "xlink:href") && str_has_prefix(value.as_str(), prefix) {
            *cur = Some(str_after_prefix(value.as_str(), prefix));
        }
        proof {
            let av = attrs.deep_view();
            assert(av[i as int] == (attrs@[i as int].0@, attrs@[i as int].1@));
            assert(cur.deep_view() == apply_situated_attr(prev, av[i as int], prefix@));
            assert(av.take(i as int + 1).drop_last() =~= av.take(i as int));
            assert(av.take(i as int + 1).last() == av[i as int]);
        }
        i = i + 1;
    }
    proof {
        assert(attrs.deep_view().take(n as int) =~= attrs.deep_view());
    }
}

impl FeatureMemberBuilder {
    /// Resolve a fresh builder from a member tag name; the record-kind set is
    /// closed, so an unknown tag is fatal.
    pub fn new_from_tag(tag: &str) -> (r: Result<FeatureMemberBuilder, GmlError>)
        ensures
            match r {
                Ok(b) => spec_new_from_tag(tag@) == Some(b@),
                Err(e) => spec_new_from_tag(tag@) is None && e == GmlError::UnknownMemberTag,
            },
    {
        if str_eq(tag, "ad:Address") {
            Ok(
                FeatureMemberBuilder::Address(
                    AddressBuilder {
                        number: None,
                        number_extension: None,
                        number_2nd_extension: None,
                        postal_delivery_identifier: None,
                        admin_unit_ref: None,
                        address_area_ref: None,
                        thoroughfare_ref: None,
                        locator_designator_builder: None,
                    },
                ),
            )
        } else if str_eq(tag, "ad:AdminUnitName") {
            Ok(FeatureMemberBuilder::AdminUnitName(AdminUnitNameBuilder { name: None }))
        } else if str_eq(tag, "ad:AddressAreaName") {
            Ok(
                FeatureMemberBuilder::AddressAreaName(
                    AddressAreaNameBuilder { name: None, situated_in_ref: None },
                ),
            )
        } else if str_eq(tag, "ad:ThoroughfareName") {
            Ok(
                FeatureMemberBuilder::ThoroughfareName(
                    ThoroughfareNameBuilder { name: None, situated_in_ref: None },
                ),
            )
        } else {
            Err(GmlError::UnknownMemberTag)
        }
    }
}

impl CurrentMemberBuilder {
    /// Element open inside the member: check the absolute path against the
    /// known field locations of this record kind and extract reference
    /// attributes or designator type codes.
    pub fn visit_start(
        &mut self,
        table: &PathTable,
        current_path: &Vec<StrRef>,
        attrs: &Vec<(String, String)>,
    )
        ensures
            final(self)@ == spec_member_start(old(self)@, table@, current_path@, attrs.deep_view()),
    {
        match &mut self.feature_member {
            FeatureMemberBuilder::AdminUnitName(_) => {},
            FeatureMemberBuilder::Address(builder) => {
                if path_eq(current_path, &table.component) {
                    builder.apply_component_attrs(attrs);
                }
                if path_eq(current_path, &table.designator_type) {
                    builder.apply_designator_type_attrs(attrs);
                }
            },
            FeatureMemberBuilder::AddressAreaName(builder) => {
                if path_eq(current_path, &table.situated_in_address_area) {
                    apply_situated_attrs(
                        &mut builder.situated_in_ref,
                        attrs,
                        "#nl-imbag-ad-adminunitname.",
                    );
                }
            },
            FeatureMemberBuilder::ThoroughfareName(builder) => {
                if path_eq(current_path, &table.situated_in_thoroughfare) {
                    apply_situated_attrs(
                        &mut builder.situated_in_ref,
                        attrs,
                        "#nl-imbag-ad-addressareaname-",
                    );
                }
            },
        }
    }

    /// Element close inside the member: nothing to extract.
    pub fn visit_end(&mut self)
        ensures
            *final(self) == *old(self),
    {
    }

    /// Self-closing element inside the member: such elements carry only
    /// attributes, so the open handler does all the work.
    pub fn visit_empty(
        &mut self,
        table: &PathTable,
        current_path: &Vec<StrRef>,
        attrs: &Vec<(String, String)>,
    )
        ensures
            final(self)@ == spec_member_start(old(self)@, table@, current_path@, attrs.deep_view()),
    {
        self.visit_start(table, current_path, attrs)
    }

    /// Text content inside the member: the designator value leaf feeds the
    /// slot; a name leaf is captured first-write-wins.
    pub fn visit_text(&mut self, table: &PathTable, current_path: &Vec<StrRef>, text: String)
        ensures
            final(self)@ == spec_member_text(old(self)@, table@, current_path@, text@),
    {
        match &mut self.feature_member {
            FeatureMemberBuilder::Address(builder) => {
                if path_eq(current_path, &table.designator_value) {
                    builder.apply_designator_value_text(text);
                }
            },
            FeatureMemberBuilder::AdminUnitName(builder) => {
                if path_eq(current_path, &table.name_admin_unit) && builder.name.is_none() {
                    builder.name = Some(text);
                }
            },
            FeatureMemberBuilder::AddressAreaName(builder) => {
                if path_eq(current_path, &table.name_address_area) && builder.name.is_none() {
                    builder.name = Some(text);
                }
            },
            FeatureMemberBuilder::ThoroughfareName(builder) => {
                if path_eq(current_path, &table.name_thoroughfare) && builder.name.is_none() {
                    builder.name = Some(text);
                }
            },
        }
    }

    /// Consume the builder and the tracked `local_id`, yielding the immutable
    /// record; fatal if the `localId` text was never observed.
    pub fn finish(self) -> (r: Result<FeatureMember, GmlError>)
        ensures
            match r {
                Ok(fm) => spec_finish(self@) == Ok::<FeatureMemberView, GmlError>(fm@),
                Err(e) => spec_finish(self@) == Err::<FeatureMemberView, GmlError>(e),
            },
    {
        let CurrentMemberBuilder { local_id, feature_member } = self;
        let local_id = match local_id {
            Some(l) => l,
            None => {
                return Err(GmlError::MissingLocalId);
            },
        };
        match feature_member {
            FeatureMemberBuilder::Address(b) => Ok(
                FeatureMember::Address {
                    local_id,
                    number: b.number,
                    number_extension: b.number_extension,
                    number_2nd_extension: b.number_2nd_extension,
                    postal_delivery_identifier: b.postal_delivery_identifier,
                    admin_unit_ref: b.admin_unit_ref,
                    address_area_ref: b.address_area_ref,
                    thoroughfare_ref: b.thoroughfare_ref,
                },
            ),
            FeatureMemberBuilder::AdminUnitName(b) => Ok(
                FeatureMember::AdminUnitName { local_id, name: b.name },
            ),
            FeatureMemberBuilder::AddressAreaName(b) => Ok(
                FeatureMember::AddressAreaName {
                    local_id,
                    name: b.name,
                    situated_in_ref: b.situated_in_ref,
                },
            ),
            FeatureMemberBuilder::ThoroughfareName(b) => Ok(
                FeatureMember::ThoroughfareName {
                    local_id,
                    name: b.name,
                    situated_in_ref: b.situated_in_ref,
                },
            ),
        }
    }
}

} // verus!

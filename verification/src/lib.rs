use vstd::prelude::*;

pub mod strutil;
pub mod interner;
pub mod paths;
pub mod designator;
pub mod table;
pub mod member;
pub mod collector;
pub mod emitter;
pub mod run;
pub mod render;

verus! {

/// One completed record reconstructed from the document, one variant per
/// feature-member kind of the schema.  All non-key fields are optional:
/// absence means the field was never observed, which is not an error.
#[derive(Debug, PartialEq, Eq)]
pub enum FeatureMember {
    Address {
        local_id: String,
        number: Option<String>,
        number_extension: Option<String>,
        number_2nd_extension: Option<String>,
        postal_delivery_identifier: Option<String>,
        admin_unit_ref: Option<String>,
        address_area_ref: Option<String>,
        thoroughfare_ref: Option<String>,
    },
    AdminUnitName {
        local_id: String,
        name: Option<String>,
    },
    AddressAreaName {
        local_id: String,
        name: Option<String>,
        situated_in_ref: Option<String>,
    },
    ThoroughfareName {
        local_id: String,
        name: Option<String>,
        situated_in_ref: Option<String>,
    },
}

/// Mathematical abstraction of a [`FeatureMember`]: every text field is a
/// character sequence.
#[verifier::ext_equal]
pub enum FeatureMemberView {
    Address {
        local_id: Seq<char>,
        number: Option<Seq<char>>,
        number_extension: Option<Seq<char>>,
        number_2nd_extension: Option<Seq<char>>,
        postal_delivery_identifier: Option<Seq<char>>,
        admin_unit_ref: Option<Seq<char>>,
        address_area_ref: Option<Seq<char>>,
        thoroughfare_ref: Option<Seq<char>>,
    },
    AdminUnitName {
        local_id: Seq<char>,
        name: Option<Seq<char>>,
    },
    AddressAreaName {
        local_id: Seq<char>,
        name: Option<Seq<char>>,
        situated_in_ref: Option<Seq<char>>,
    },
    ThoroughfareName {
        local_id: Seq<char>,
        name: Option<Seq<char>>,
        situated_in_ref: Option<Seq<char>>,
    },
}

impl View for FeatureMember {
    type V = FeatureMemberView;

    open spec fn view(&self) -> FeatureMemberView {
        match self {
            FeatureMember::Address {
                local_id,
                number,
                number_extension,
                number_2nd_extension,
                postal_delivery_identifier,
                admin_unit_ref,
                address_area_ref,
                thoroughfare_ref,
            } => FeatureMemberView::Address {
                local_id: local_id@,
                number: number.deep_view(),
                number_extension: number_extension.deep_view(),
                number_2nd_extension: number_2nd_extension.deep_view(),
                postal_delivery_identifier: postal_delivery_identifier.deep_view(),
                admin_unit_ref: admin_unit_ref.deep_view(),
                address_area_ref: address_area_ref.deep_view(),
                thoroughfare_ref: thoroughfare_ref.deep_view(),
            },
            FeatureMember::AdminUnitName { local_id, name } => FeatureMemberView::AdminUnitName {
                local_id: local_id@,
                name: name.deep_view(),
            },
            FeatureMember::AddressAreaName { local_id, name, situated_in_ref } => {
                FeatureMemberView::AddressAreaName {
                    local_id: local_id@,
                    name: name.deep_view(),
                    situated_in_ref: situated_in_ref.deep_view(),
                }
            },
            FeatureMember::ThoroughfareName { local_id, name, situated_in_ref } => {
                FeatureMemberView::ThoroughfareName {
                    local_id: local_id@,
                    name: name.deep_view(),
                    situated_in_ref: situated_in_ref.deep_view(),
                }
            },
        }
    }
}

impl DeepView for FeatureMember {
    type V = FeatureMemberView;

    open spec fn deep_view(&self) -> FeatureMemberView {
        self.view()
    }
}

/// The fatal conditions of a run.  Schema violations and the interner's
/// capacity bound abort the run; the caller is expected to stop at the first
/// error.
#[derive(Debug, Clone, Copy, PartialEq, Eq, Structural)]
pub enum GmlError {
    /// A member element carried a tag name outside the closed record-kind set.
    UnknownMemberTag,
    /// A closing tag did not match the innermost open element.
    MismatchedCloseTag,
    /// A record builder was active at a point where none may be.
    UnexpectedMember,
    /// An event required an active record builder, but none was in progress.
    NoMemberActive,
    /// A record was closed before its `localId` text was observed.
    MissingLocalId,
    /// The number of distinct interned strings exceeded the handle width.
    SymbolCapacityExceeded,
}

} // verus!

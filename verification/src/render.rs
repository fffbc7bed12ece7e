//! Rendering completed records for the sinks.
//!
//! The tabular sink writes one header row per destination and one
//! tab-separated row per record, missing optional fields rendered empty; the
//! relational sink inserts one row per record with `local_id` first and the
//! remaining fields as nullable text.  The rendering is computed here, with
//! exact contracts; the sinks only write what these functions hand them.

use vstd::prelude::*;

use crate::{FeatureMember, FeatureMemberView};

verus! {

/// An optional field as it renders in a row: its text, or nothing.
pub open spec fn opt_text(o: Option<Seq<char>>) -> Seq<char> {
    match o {
        Some(s) => s,
        None => Seq::empty(),
    }
}

/// The tab-separated row of a record, fields in the fixed schema order.
pub open spec fn spec_tsv_row(v: FeatureMemberView) -> Seq<char> {
    match v {
        FeatureMemberView::Address {
            local_id,
            number,
            number_extension,
            number_2nd_extension,
            postal_delivery_identifier,
            admin_unit_ref,
            address_area_ref,
            thoroughfare_ref,
        } => local_id + "\t"@ + opt_text(number) + "\t"@ + opt_text(number_extension) + "\t"@
            + opt_text(number_2nd_extension) + "\t"@ + opt_text(postal_delivery_identifier)
            + "\t"@ + opt_text(admin_unit_ref) + "\t"@ + opt_text(address_area_ref) + "\t"@
            + opt_text(thoroughfare_ref),
        FeatureMemberView::AdminUnitName { local_id, name } => local_id + "\t"@ + opt_text(name),
        FeatureMemberView::AddressAreaName { local_id, name, situated_in_ref } => local_id + "\t"@
            + opt_text(name) + "\t"@ + opt_text(situated_in_ref),
        FeatureMemberView::ThoroughfareName { local_id, name, situated_in_ref } => local_id + "\t"@
            + opt_text(name) + "\t"@ + opt_text(situated_in_ref),
    }
}

/// Append an optional field's text, or nothing.
fn append_opt(s: &mut String, o: &Option<String>)
    ensures
        final(s)@ == old(s)@ + opt_text(o.deep_view()),
{
    match o {
        Some(v) => s.append(v.as_str()),
        None => {
            proof {
                assert(old(s)@ + Seq::<char>::empty() =~= old(s)@);
            }
        },
    }
}

/// The tab-separated row of a record.
pub fn tsv_row(m: &FeatureMember) -> (r: String)
    ensures
        r@ == spec_tsv_row(m@),
{
    match m {
        FeatureMember::Address {
            local_id,
            number,
            number_extension,
            number_2nd_extension,
            postal_delivery_identifier,
            admin_unit_ref,
            address_area_ref,
            thoroughfare_ref,
        } => {
            let mut s = local_id.clone();
            s.append("\t");
            append_opt(&mut s, number);
            s.append("\t");
            append_opt(&mut s, number_extension);
            s.append("\t");
            append_opt(&mut s, number_2nd_extension);
            s.append("\t");
            append_opt(&mut s, postal_delivery_identifier);
            s.append("\t");
            append_opt(&mut s, admin_unit_ref);
            s.append("\t");
            append_opt(&mut s, address_area_ref);
            s.append("\t");
            append_opt(&mut s, thoroughfare_ref);
            s
        },
        FeatureMember::AdminUnitName { local_id, name } => {
            let mut s = local_id.clone();
            s.append("\t");
            append_opt(&mut s, name);
            s
        },
        FeatureMember::AddressAreaName { local_id, name, situated_in_ref } => {
            let mut s = local_id.clone();
            s.append("\t");
            append_opt(&mut s, name);
            s.append("\t");
            append_opt(&mut s, situated_in_ref);
            s
        },
        FeatureMember::ThoroughfareName { local_id, name, situated_in_ref } => {
            let mut s = local_id.clone();
            s.append("\t");
            append_opt(&mut s, name);
            s.append("\t");
            append_opt(&mut s, situated_in_ref);
            s
        },
    }
}

/// Header row of the addresses destination.
pub fn addresses_header() -> (r: String)
    ensures
        r@
            == "local_id\tnumber\tnumber_extension\tnumber_2nd_extension\tpostal_delivery_identifier\tadmin_unit_ref\taddress_area_ref\tthoroughfare_ref"@,
{
    "local_id\tnumber\tnumber_extension\tnumber_2nd_extension\tpostal_delivery_identifier\tadmin_unit_ref\taddress_area_ref\tthoroughfare_ref".to_owned()
}

/// Header row of the admin-units destination.
pub fn admin_units_header() -> (r: String)
    ensures
        r@ == "local_id\tname"@,
{
    "local_id\tname".to_owned()
}

/// Header row of the address-areas destination.
pub fn address_areas_header() -> (r: String)
    ensures
        r@ == "local_id\tname\tsituated_in_ref"@,
{
    "local_id\tname\tsituated_in_ref".to_owned()
}

/// Header row of the thoroughfares destination.
pub fn thoroughfares_header() -> (r: String)
    ensures
        r@ == "local_id\tname\tsituated_in_ref"@,
{
    "local_id\tname\tsituated_in_ref".to_owned()
}

/// The insert statement of the table a record belongs to.
pub open spec fn spec_insert_sql(v: FeatureMemberView) -> Seq<char> {
    match v {
        FeatureMemberView::Address { .. } => "INSERT INTO addresses (local_id, number, number_extension, number_2nd_extension, postal_delivery_identifier, admin_unit_ref, address_area_ref, thoroughfare_ref) VALUES (?, ?, ?, ?, ?, ?, ?, ?)"@,
        FeatureMemberView::AdminUnitName { .. } => "INSERT INTO admin_units (local_id, name) VALUES (?, ?)"@,
        FeatureMemberView::AddressAreaName { .. } => "INSERT INTO address_areas (local_id, name, situated_in_ref) VALUES (?, ?, ?)"@,
        FeatureMemberView::ThoroughfareName { .. } => "INSERT INTO thoroughfares (local_id, name, situated_in_ref) VALUES (?, ?, ?)"@,
    }
}

/// The insert statement of the table a record belongs to.
pub fn insert_sql(m: &FeatureMember) -> (r: String)
    ensures
        r@ == spec_insert_sql(m@),
{
    match m {
        FeatureMember::Address { .. } => "INSERT INTO addresses (local_id, number, number_extension, number_2nd_extension, postal_delivery_identifier, admin_unit_ref, address_area_ref, thoroughfare_ref) VALUES (?, ?, ?, ?, ?, ?, ?, ?)".to_owned(),
        FeatureMember::AdminUnitName { .. } => "INSERT INTO admin_units (local_id, name) VALUES (?, ?)".to_owned(),
        FeatureMember::AddressAreaName { .. } => "INSERT INTO address_areas (local_id, name, situated_in_ref) VALUES (?, ?, ?)".to_owned(),
        FeatureMember::ThoroughfareName { .. } => "INSERT INTO thoroughfares (local_id, name, situated_in_ref) VALUES (?, ?, ?)".to_owned(),
    }
}

/// The parameter list of a record's insert: `local_id` first, then the
/// remaining fields in the fixed schema order, absent fields as nulls.
pub open spec fn spec_insert_params(v: FeatureMemberView) -> Seq<Option<Seq<char>>> {
    match v {
        FeatureMemberView::Address {
            local_id,
            number,
            number_extension,
            number_2nd_extension,
            postal_delivery_identifier,
            admin_unit_ref,
            address_area_ref,
            thoroughfare_ref,
        } => seq![
            Some(local_id),
            number,
            number_extension,
            number_2nd_extension,
            postal_delivery_identifier,
            admin_unit_ref,
            address_area_ref,
            thoroughfare_ref,
        ],
        FeatureMemberView::AdminUnitName { local_id, name } => seq![Some(local_id), name],
        FeatureMemberView::AddressAreaName { local_id, name, situated_in_ref } => seq![
            Some(local_id),
            name,
            situated_in_ref,
        ],
        FeatureMemberView::ThoroughfareName { local_id, name, situated_in_ref } => seq![
            Some(local_id),
            name,
            situated_in_ref,
        ],
    }
}

/// The parameter list of a record's insert, consuming the record.
pub fn insert_params(m: FeatureMember) -> (r: Vec<Option<String>>)
    ensures
        r.deep_view() == spec_insert_params(m@),
{
    let ghost v = m@;
    let mut r: Vec<Option<String>> = Vec::new();
    match m {
        FeatureMember::Address {
            local_id,
            number,
            number_extension,
            number_2nd_extension,
            postal_delivery_identifier,
            admin_unit_ref,
            address_area_ref,
            thoroughfare_ref,
        } => {
            r.push(Some(local_id));
            r.push(number);
            r.push(number_extension);
            r.push(number_2nd_extension);
            r.push(postal_delivery_identifier);
            r.push(admin_unit_ref);
            r.push(address_area_ref);
            r.push(thoroughfare_ref);
        },
        FeatureMember::AdminUnitName { local_id, name } => {
            r.push(Some(local_id));
            r.push(name);
        },
        FeatureMember::AddressAreaName { local_id, name, situated_in_ref } => {
            r.push(Some(local_id));
            r.push(name);
            r.push(situated_in_ref);
        },
        FeatureMember::ThoroughfareName { local_id, name, situated_in_ref } => {
            r.push(Some(local_id));
            r.push(name);
            r.push(situated_in_ref);
        },
    }
    proof {
        assert(r.deep_view() =~= spec_insert_params(v));
    }
    r
}

} // verus!

use gmlparser::emitter::{FeatureMemberEmitter, NullEmitter, VecEmitter};
use gmlparser::render::{
    address_areas_header, addresses_header, admin_units_header, insert_params, insert_sql,
    thoroughfares_header, tsv_row,
};
use gmlparser::FeatureMember;

fn full_address() -> FeatureMember {
    FeatureMember::Address {
        local_id: "X1".to_string(),
        number: Some("12".to_string()),
        number_extension: Some("a".to_string()),
        number_2nd_extension: Some("b".to_string()),
        postal_delivery_identifier: Some("p".to_string()),
        admin_unit_ref: Some("1".to_string()),
        address_area_ref: Some("2".to_string()),
        thoroughfare_ref: Some("3".to_string()),
    }
}

#[test]
fn tsv_row_renders_all_address_fields_in_order() {
    assert_eq!(tsv_row(&full_address()), "X1\t12\ta\tb\tp\t1\t2\t3");
}

#[test]
fn tsv_row_renders_missing_fields_empty() {
    let m = FeatureMember::Address {
        local_id: "X2".to_string(),
        number: Some("7".to_string()),
        number_extension: None,
        number_2nd_extension: None,
        postal_delivery_identifier: None,
        admin_unit_ref: None,
        address_area_ref: None,
        thoroughfare_ref: None,
    };
    assert_eq!(tsv_row(&m), "X2\t7\t\t\t\t\t\t");
}

#[test]
fn tsv_row_renders_name_records() {
    let u = FeatureMember::AdminUnitName {
        local_id: "U".to_string(),
        name: Some("Utrecht".to_string()),
    };
    assert_eq!(tsv_row(&u), "U\tUtrecht");
    let a = FeatureMember::AddressAreaName {
        local_id: "A".to_string(),
        name: None,
        situated_in_ref: Some("9".to_string()),
    };
    assert_eq!(tsv_row(&a), "A\t\t9");
    let t = FeatureMember::ThoroughfareName {
        local_id: "T".to_string(),
        name: Some("Main".to_string()),
        situated_in_ref: None,
    };
    assert_eq!(tsv_row(&t), "T\tMain\t");
}

#[test]
fn headers_match_fixed_field_order() {
    assert_eq!(
        addresses_header(),
        "local_id\tnumber\tnumber_extension\tnumber_2nd_extension\tpostal_delivery_identifier\tadmin_unit_ref\taddress_area_ref\tthoroughfare_ref"
    );
    assert_eq!(admin_units_header(), "local_id\tname");
    assert_eq!(address_areas_header(), "local_id\tname\tsituated_in_ref");
    assert_eq!(thoroughfares_header(), "local_id\tname\tsituated_in_ref");
}

#[test]
fn insert_sql_names_the_right_table() {
    assert!(insert_sql(&full_address()).starts_with("INSERT INTO addresses "));
    let u = FeatureMember::AdminUnitName { local_id: "U".to_string(), name: None };
    assert_eq!(insert_sql(&u), "INSERT INTO admin_units (local_id, name) VALUES (?, ?)");
    let a = FeatureMember::AddressAreaName {
        local_id: "A".to_string(),
        name: None,
        situated_in_ref: None,
    };
    assert_eq!(
        insert_sql(&a),
        "INSERT INTO address_areas (local_id, name, situated_in_ref) VALUES (?, ?, ?)"
    );
    let t = FeatureMember::ThoroughfareName {
        local_id: "T".to_string(),
        name: None,
        situated_in_ref: None,
    };
    assert_eq!(
        insert_sql(&t),
        "INSERT INTO thoroughfares (local_id, name, situated_in_ref) VALUES (?, ?, ?)"
    );
}

#[test]
fn insert_params_put_local_id_first() {
    let params = insert_params(full_address());
    assert_eq!(
        params,
        vec![
            Some("X1".to_string()),
            Some("12".to_string()),
            Some("a".to_string()),
            Some("b".to_string()),
            Some("p".to_string()),
            Some("1".to_string()),
            Some("2".to_string()),
            Some("3".to_string()),
        ]
    );
    let params = insert_params(FeatureMember::AddressAreaName {
        local_id: "A".to_string(),
        name: None,
        situated_in_ref: Some("9".to_string()),
    });
    assert_eq!(params, vec![Some("A".to_string()), None, Some("9".to_string())]);
}

#[test]
fn vec_emitter_keeps_records_in_order() {
    let mut emitter = VecEmitter::new();
    emitter.start();
    emitter.emit(FeatureMember::AdminUnitName { local_id: "1".to_string(), name: None });
    emitter.emit(FeatureMember::AdminUnitName { local_id: "2".to_string(), name: None });
    emitter.end();
    assert_eq!(emitter.records.len(), 2);
    assert!(matches!(&emitter.records[0], FeatureMember::AdminUnitName { local_id, .. } if local_id == "1"));
    assert!(matches!(&emitter.records[1], FeatureMember::AdminUnitName { local_id, .. } if local_id == "2"));
}

#[test]
fn null_emitter_accepts_records() {
    let mut emitter = NullEmitter::new();
    emitter.start();
    emitter.emit(FeatureMember::AdminUnitName { local_id: "1".to_string(), name: None });
    emitter.end();
}

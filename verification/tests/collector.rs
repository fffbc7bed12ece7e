use gmlparser::collector::AddressCollector;
use gmlparser::emitter::VecEmitter;
use gmlparser::run::{process_events, XmlEvent};
use gmlparser::{FeatureMember, GmlError};

fn start(name: &str) -> XmlEvent {
    XmlEvent::Start { name: name.to_string(), attrs: vec![] }
}

fn start_href(name: &str, href: &str) -> XmlEvent {
    XmlEvent::Start {
        name: name.to_string(),
        attrs: vec![("xlink:href".to_string(), href.to_string())],
    }
}

fn end(name: &str) -> XmlEvent {
    XmlEvent::End { name: name.to_string() }
}

fn text(content: &str) -> XmlEvent {
    XmlEvent::Text { content: content.to_string() }
}

fn empty_href(name: &str, href: &str) -> XmlEvent {
    XmlEvent::Empty {
        name: name.to_string(),
        attrs: vec![("xlink:href".to_string(), href.to_string())],
    }
}

fn local_id_block(id: &str) -> Vec<XmlEvent> {
    vec![
        start("ad:inspireId"),
        start("base:Identifier"),
        start("base:localId"),
        text(id),
        end("base:localId"),
        end("base:Identifier"),
        end("ad:inspireId"),
    ]
}

fn run_events(events: Vec<XmlEvent>) -> Result<Vec<FeatureMember>, GmlError> {
    let mut collector = AddressCollector::new();
    let mut emitter = VecEmitter::new();
    process_events(&mut collector, &events, &mut emitter)?;
    Ok(emitter.records)
}

const NUMBER_CODE: &str =
    "http://inspire.ec.europa.eu/codelist/LocatorDesignatorTypeValue/addressNumber";

#[test]
fn address_with_one_number_designator() {
    let mut events = vec![start("gml:FeatureCollection"), start("gml:featureMember"), start("ad:Address")];
    events.extend(local_id_block("X1"));
    events.extend(vec![
        start("ad:locator"),
        start("ad:AddressLocator"),
        start("ad:designator"),
        start("ad:LocatorDesignator"),
        empty_href("ad:type", NUMBER_CODE),
        start("ad:designator"),
        text("12"),
        end("ad:designator"),
        end("ad:LocatorDesignator"),
        end("ad:designator"),
        end("ad:AddressLocator"),
        end("ad:locator"),
        end("ad:Address"),
        end("gml:featureMember"),
        end("gml:FeatureCollection"),
    ]);
    let records = run_events(events).unwrap();
    assert_eq!(records.len(), 1);
    assert_eq!(
        records[0],
        FeatureMember::Address {
            local_id: "X1".to_string(),
            number: Some("12".to_string()),
            number_extension: None,
            number_2nd_extension: None,
            postal_delivery_identifier: None,
            admin_unit_ref: None,
            address_area_ref: None,
            thoroughfare_ref: None,
        }
    );
}

#[test]
fn designator_value_before_type_still_pairs() {
    let mut events = vec![start("gml:FeatureCollection"), start("gml:featureMember"), start("ad:Address")];
    events.extend(local_id_block("X2"));
    events.extend(vec![
        start("ad:locator"),
        start("ad:AddressLocator"),
        start("ad:designator"),
        start("ad:LocatorDesignator"),
        start("ad:designator"),
        text("34"),
        end("ad:designator"),
        empty_href("ad:type", NUMBER_CODE),
        end("ad:LocatorDesignator"),
        end("ad:designator"),
        end("ad:AddressLocator"),
        end("ad:locator"),
        end("ad:Address"),
        end("gml:featureMember"),
        end("gml:FeatureCollection"),
    ]);
    let records = run_events(events).unwrap();
    assert_eq!(records.len(), 1);
    match &records[0] {
        FeatureMember::Address { local_id, number, .. } => {
            assert_eq!(local_id, "X2");
            assert_eq!(number.as_deref(), Some("34"));
        }
        other => panic!("expected an Address, got {:?}", other),
    }
}

#[test]
fn address_component_references_are_routed_by_prefix() {
    let mut events = vec![start("gml:FeatureCollection"), start("gml:featureMember"), start("ad:Address")];
    events.extend(local_id_block("X3"));
    events.extend(vec![
        empty_href("ad:component", "#nl-imbag-ad-adminunitname.11"),
        empty_href("ad:component", "#nl-imbag-ad-addressareaname.22"),
        empty_href("ad:component", "#nl-imbag-ad-thoroughfarename.33"),
        end("ad:Address"),
        end("gml:featureMember"),
        end("gml:FeatureCollection"),
    ]);
    let records = run_events(events).unwrap();
    assert_eq!(records.len(), 1);
    match &records[0] {
        FeatureMember::Address { admin_unit_ref, address_area_ref, thoroughfare_ref, .. } => {
            assert_eq!(admin_unit_ref.as_deref(), Some("11"));
            assert_eq!(address_area_ref.as_deref(), Some("22"));
            assert_eq!(thoroughfare_ref.as_deref(), Some("33"));
        }
        other => panic!("expected an Address, got {:?}", other),
    }
}

#[test]
fn address_area_name_situated_in_strips_prefix() {
    let mut events = vec![
        start("gml:FeatureCollection"),
        start("gml:featureMember"),
        start("ad:AddressAreaName"),
    ];
    events.extend(local_id_block("A1"));
    events.extend(vec![
        empty_href("ad:situatedWithin", "#nl-imbag-ad-adminunitname.0001"),
        end("ad:AddressAreaName"),
        end("gml:featureMember"),
        end("gml:FeatureCollection"),
    ]);
    let records = run_events(events).unwrap();
    assert_eq!(records.len(), 1);
    assert_eq!(
        records[0],
        FeatureMember::AddressAreaName {
            local_id: "A1".to_string(),
            name: None,
            situated_in_ref: Some("0001".to_string()),
        }
    );
}

#[test]
fn thoroughfare_name_situated_in_strips_dashed_prefix() {
    let mut events = vec![
        start("gml:FeatureCollection"),
        start("gml:featureMember"),
        start("ad:ThoroughfareName"),
    ];
    events.extend(local_id_block("T1"));
    events.extend(vec![
        empty_href("ad:situatedWithin", "#nl-imbag-ad-addressareaname-42"),
        end("ad:ThoroughfareName"),
        end("gml:featureMember"),
        end("gml:FeatureCollection"),
    ]);
    let records = run_events(events).unwrap();
    assert_eq!(
        records[0],
        FeatureMember::ThoroughfareName {
            local_id: "T1".to_string(),
            name: None,
            situated_in_ref: Some("42".to_string()),
        }
    );
}

#[test]
fn admin_unit_name_captures_first_name_only() {
    let mut events = vec![
        start("gml:FeatureCollection"),
        start("gml:featureMember"),
        start("ad:AdminUnitName"),
    ];
    events.extend(local_id_block("U1"));
    for name in ["First", "Second"] {
        events.extend(vec![
            start("ad:name"),
            start("gn:GeographicalName"),
            start("gn:spelling"),
            start("gn:SpellingOfName"),
            start("gn:text"),
            text(name),
            end("gn:text"),
            end("gn:SpellingOfName"),
            end("gn:spelling"),
            end("gn:GeographicalName"),
            end("ad:name"),
        ]);
    }
    events.extend(vec![
        end("ad:AdminUnitName"),
        end("gml:featureMember"),
        end("gml:FeatureCollection"),
    ]);
    let records = run_events(events).unwrap();
    assert_eq!(
        records[0],
        FeatureMember::AdminUnitName {
            local_id: "U1".to_string(),
            name: Some("First".to_string()),
        }
    );
}

#[test]
fn thoroughfare_name_leaf_is_captured_through_value_wrapper() {
    let mut events = vec![
        start("gml:FeatureCollection"),
        start("gml:featureMember"),
        start("ad:ThoroughfareName"),
    ];
    events.extend(local_id_block("T2"));
    events.extend(vec![
        start("ad:name"),
        start("ad:ThoroughfareNameValue"),
        start("ad:name"),
        start("gn:GeographicalName"),
        start("gn:spelling"),
        start("gn:SpellingOfName"),
        start("gn:text"),
        text("Main Street"),
        end("gn:text"),
        end("gn:SpellingOfName"),
        end("gn:spelling"),
        end("gn:GeographicalName"),
        end("ad:name"),
        end("ad:ThoroughfareNameValue"),
        end("ad:name"),
        end("ad:ThoroughfareName"),
        end("gml:featureMember"),
        end("gml:FeatureCollection"),
    ]);
    let records = run_events(events).unwrap();
    match &records[0] {
        FeatureMember::ThoroughfareName { name, .. } => {
            assert_eq!(name.as_deref(), Some("Main Street"));
        }
        other => panic!("expected a ThoroughfareName, got {:?}", other),
    }
}

#[test]
fn local_id_last_occurrence_wins() {
    let mut events = vec![
        start("gml:FeatureCollection"),
        start("gml:featureMember"),
        start("ad:AdminUnitName"),
    ];
    events.extend(local_id_block("old"));
    events.extend(local_id_block("new"));
    events.extend(vec![
        end("ad:AdminUnitName"),
        end("gml:featureMember"),
        end("gml:FeatureCollection"),
    ]);
    let records = run_events(events).unwrap();
    assert_eq!(
        records[0],
        FeatureMember::AdminUnitName { local_id: "new".to_string(), name: None }
    );
}

#[test]
fn emit_count_matches_member_count_and_order() {
    let mut events = vec![start("gml:FeatureCollection")];
    for (kind, id) in [
        ("ad:Address", "1"),
        ("ad:AdminUnitName", "2"),
        ("ad:ThoroughfareName", "3"),
    ] {
        events.push(start("gml:featureMember"));
        events.push(start(kind));
        events.extend(local_id_block(id));
        events.push(end(kind));
        events.push(end("gml:featureMember"));
    }
    events.push(end("gml:FeatureCollection"));
    let records = run_events(events).unwrap();
    assert_eq!(records.len(), 3);
    assert!(matches!(&records[0], FeatureMember::Address { local_id, .. } if local_id == "1"));
    assert!(
        matches!(&records[1], FeatureMember::AdminUnitName { local_id, .. } if local_id == "2")
    );
    assert!(
        matches!(&records[2], FeatureMember::ThoroughfareName { local_id, .. } if local_id == "3")
    );
}

#[test]
fn unknown_member_tag_aborts_the_run() {
    let events = vec![
        start("gml:FeatureCollection"),
        start("gml:featureMember"),
        start("ad:Bogus"),
    ];
    assert_eq!(run_events(events), Err(GmlError::UnknownMemberTag));
}

#[test]
fn unrecognized_xlink_value_is_tolerated() {
    let mut events = vec![start("gml:FeatureCollection"), start("gml:featureMember"), start("ad:Address")];
    events.extend(local_id_block("X9"));
    events.extend(vec![
        empty_href("ad:component", "#some-other-scheme.5"),
        end("ad:Address"),
        end("gml:featureMember"),
        end("gml:FeatureCollection"),
    ]);
    let records = run_events(events).unwrap();
    assert_eq!(
        records[0],
        FeatureMember::Address {
            local_id: "X9".to_string(),
            number: None,
            number_extension: None,
            number_2nd_extension: None,
            postal_delivery_identifier: None,
            admin_unit_ref: None,
            address_area_ref: None,
            thoroughfare_ref: None,
        }
    );
}

#[test]
fn unrecognized_designator_type_code_is_tolerated() {
    let mut events = vec![start("gml:FeatureCollection"), start("gml:featureMember"), start("ad:Address")];
    events.extend(local_id_block("X10"));
    events.extend(vec![
        start("ad:locator"),
        start("ad:AddressLocator"),
        start("ad:designator"),
        start("ad:LocatorDesignator"),
        empty_href("ad:type", "http://example.invalid/unknownCode"),
        start("ad:designator"),
        text("99"),
        end("ad:designator"),
        end("ad:LocatorDesignator"),
        end("ad:designator"),
        end("ad:AddressLocator"),
        end("ad:locator"),
        end("ad:Address"),
        end("gml:featureMember"),
        end("gml:FeatureCollection"),
    ]);
    let records = run_events(events).unwrap();
    match &records[0] {
        FeatureMember::Address { number, .. } => assert_eq!(number.as_deref(), None),
        other => panic!("expected an Address, got {:?}", other),
    }
}

#[test]
fn mismatched_close_tag_aborts_the_run() {
    let events = vec![start("gml:FeatureCollection"), end("gml:other")];
    assert_eq!(run_events(events), Err(GmlError::MismatchedCloseTag));
}

#[test]
fn text_without_active_member_aborts_the_run() {
    let events = vec![start("gml:FeatureCollection"), text("stray")];
    assert_eq!(run_events(events), Err(GmlError::NoMemberActive));
}

#[test]
fn deep_element_without_active_member_aborts_the_run() {
    let events = vec![start("gml:FeatureCollection"), start("x"), start("y")];
    assert_eq!(run_events(events), Err(GmlError::NoMemberActive));
}

#[test]
fn member_without_local_id_aborts_the_run() {
    let events = vec![
        start("gml:FeatureCollection"),
        start("gml:featureMember"),
        start("ad:Address"),
        end("ad:Address"),
    ];
    assert_eq!(run_events(events), Err(GmlError::MissingLocalId));
}

#[test]
fn records_before_the_abort_are_kept() {
    let mut events = vec![start("gml:FeatureCollection"), start("gml:featureMember"), start("ad:AdminUnitName")];
    events.extend(local_id_block("ok"));
    events.extend(vec![
        end("ad:AdminUnitName"),
        end("gml:featureMember"),
        start("gml:featureMember"),
        start("ad:Bogus"),
    ]);
    let mut collector = AddressCollector::new();
    let mut emitter = VecEmitter::new();
    let r = process_events(&mut collector, &events, &mut emitter);
    assert_eq!(r, Err(GmlError::UnknownMemberTag));
    assert_eq!(emitter.records.len(), 1);
    assert_eq!(
        emitter.records[0],
        FeatureMember::AdminUnitName { local_id: "ok".to_string(), name: None }
    );
}

#[test]
fn visit_methods_drive_the_collector_directly() {
    let mut collector = AddressCollector::new();
    assert_eq!(collector.visit_start("gml:FeatureCollection", &vec![]), Ok(()));
    assert_eq!(collector.visit_start("gml:featureMember", &vec![]), Ok(()));
    assert_eq!(collector.visit_start("ad:AdminUnitName", &vec![]), Ok(()));
    assert_eq!(collector.visit_start("ad:inspireId", &vec![]), Ok(()));
    assert_eq!(collector.visit_start("base:Identifier", &vec![]), Ok(()));
    assert_eq!(collector.visit_start("base:localId", &vec![]), Ok(()));
    assert_eq!(collector.visit_text("U7".to_string()), Ok(()));
    assert_eq!(collector.visit_end("base:localId"), Ok(None));
    assert_eq!(collector.visit_end("base:Identifier"), Ok(None));
    assert_eq!(collector.visit_end("ad:inspireId"), Ok(None));
    let finished = collector.visit_end("ad:AdminUnitName").unwrap();
    assert_eq!(
        finished,
        Some(FeatureMember::AdminUnitName { local_id: "U7".to_string(), name: None })
    );
    assert_eq!(collector.visit_end("gml:featureMember"), Ok(None));
    assert_eq!(collector.visit_end("gml:FeatureCollection"), Ok(None));
}

#[test]
fn empty_event_sequence_emits_nothing() {
    let records = run_events(vec![]).unwrap();
    assert!(records.is_empty());
}

#[test]
fn collection_without_members_emits_nothing() {
    let records =
        run_events(vec![start("gml:FeatureCollection"), end("gml:FeatureCollection")]).unwrap();
    assert!(records.is_empty());
}

#[test]
fn self_closing_element_without_active_member_aborts_the_run() {
    let events = vec![
        start("gml:FeatureCollection"),
        empty_href("ad:situatedWithin", "#nl-imbag-ad-adminunitname.1"),
    ];
    assert_eq!(run_events(events), Err(GmlError::NoMemberActive));
}

use gmlparser::designator::{LocatorDesignatorBuilder, LocatorDesignatorType};

#[test]
fn type_then_value_completes_pair() {
    let mut b = LocatorDesignatorBuilder::new_with_type(LocatorDesignatorType::Number);
    let pair = b.set_designator("12".to_string());
    let pair = pair.expect("the second half must complete the pair");
    assert!(matches!(pair.type_, LocatorDesignatorType::Number));
    assert_eq!(pair.designator, "12");
}

#[test]
fn value_then_type_completes_pair() {
    let mut b = LocatorDesignatorBuilder::new_with_designator("12".to_string());
    let pair = b.set_type(LocatorDesignatorType::Number);
    let pair = pair.expect("the second half must complete the pair");
    assert!(matches!(pair.type_, LocatorDesignatorType::Number));
    assert_eq!(pair.designator, "12");
}

#[test]
fn first_half_completes_nothing() {
    let mut b = LocatorDesignatorBuilder::new_with_type(LocatorDesignatorType::NumberExtension);
    assert!(b.set_type(LocatorDesignatorType::Number).is_none());
    let pair = b.set_designator("7a".to_string()).unwrap();
    // A repeated type half overwrites the stored one.
    assert!(matches!(pair.type_, LocatorDesignatorType::Number));
    assert_eq!(pair.designator, "7a");
}

#[test]
fn slot_is_cleared_after_completion() {
    let mut b = LocatorDesignatorBuilder::new_with_type(LocatorDesignatorType::Number);
    assert!(b.set_designator("1".to_string()).is_some());
    // Both halves were taken out: a fresh value half completes nothing.
    assert!(b.set_designator("2".to_string()).is_none());
}

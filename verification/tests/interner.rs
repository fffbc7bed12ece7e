use gmlparser::interner::StringInterner;

#[test]
fn intern_then_get_returns_same_string() {
    let mut interner = StringInterner::new();
    let h = interner.intern("gml:FeatureCollection").unwrap();
    assert_eq!(interner.get(h), "gml:FeatureCollection");
}

#[test]
fn intern_same_string_twice_returns_same_handle() {
    let mut interner = StringInterner::new();
    let h1 = interner.intern("ad:Address").unwrap();
    let h2 = interner.intern("ad:Address").unwrap();
    assert_eq!(h1, h2);
}

#[test]
fn intern_distinct_strings_returns_distinct_handles() {
    let mut interner = StringInterner::new();
    let h1 = interner.intern("ad:Address").unwrap();
    let h2 = interner.intern("ad:AdminUnitName").unwrap();
    let h3 = interner.intern("ad:Address").unwrap();
    assert_ne!(h1, h2);
    assert_eq!(h1, h3);
    assert_eq!(interner.get(h1), "ad:Address");
    assert_eq!(interner.get(h2), "ad:AdminUnitName");
}

#[test]
fn intern_is_append_only_first_seen_order() {
    let mut interner = StringInterner::new();
    let a = interner.intern("a").unwrap();
    let b = interner.intern("b").unwrap();
    let c = interner.intern("c").unwrap();
    let a_again = interner.intern("a").unwrap();
    assert_eq!(a, a_again);
    assert_eq!(interner.get(a), "a");
    assert_eq!(interner.get(b), "b");
    assert_eq!(interner.get(c), "c");
}

#[test]
fn interner_handles_empty_string() {
    let mut interner = StringInterner::new();
    let e = interner.intern("").unwrap();
    let x = interner.intern("x").unwrap();
    assert_ne!(e, x);
    assert_eq!(interner.get(e), "");
}

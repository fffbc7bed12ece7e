use gmlparser::strutil::{str_after_prefix, str_eq, str_has_prefix};

#[test]
fn str_eq_compares_characters() {
    assert!(str_eq("xlink:href", "xlink:href"));
    assert!(!str_eq("xlink:href", "xlink:herf"));
    assert!(!str_eq("abc", "ab"));
    assert!(str_eq("", ""));
}

#[test]
fn str_has_prefix_checks_elementwise() {
    assert!(str_has_prefix("#nl-imbag-ad-adminunitname.0001", "#nl-imbag-ad-adminunitname."));
    assert!(!str_has_prefix("#nl-imbag-ad-adminunitname", "#nl-imbag-ad-adminunitname."));
    assert!(str_has_prefix("anything", ""));
}

#[test]
fn str_after_prefix_strips_the_prefix() {
    assert_eq!(
        str_after_prefix("#nl-imbag-ad-adminunitname.0001", "#nl-imbag-ad-adminunitname."),
        "0001"
    );
    assert_eq!(str_after_prefix("abc", "abc"), "");
}

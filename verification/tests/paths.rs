use gmlparser::interner::StrRef;
use gmlparser::paths::{path_ends_with, path_eq, path_starts_with};

fn p(ids: &[u16]) -> Vec<StrRef> {
    ids.iter().map(|&i| StrRef(i)).collect()
}

#[test]
fn starts_with_holds_on_elementwise_prefix() {
    assert!(path_starts_with(&p(&[1, 2, 3]), &p(&[1, 2])));
    assert!(path_starts_with(&p(&[1, 2]), &p(&[1, 2])));
    assert!(path_starts_with(&p(&[1, 2]), &p(&[])));
}

#[test]
fn starts_with_fails_on_mismatch_or_longer_prefix() {
    assert!(!path_starts_with(&p(&[1, 2, 3]), &p(&[1, 3])));
    assert!(!path_starts_with(&p(&[1, 2]), &p(&[1, 2, 3])));
    assert!(!path_starts_with(&p(&[2, 2]), &p(&[1])));
}

#[test]
fn ends_with_holds_on_elementwise_suffix() {
    assert!(path_ends_with(&p(&[1, 2, 3]), &p(&[2, 3])));
    assert!(path_ends_with(&p(&[1, 2, 3]), &p(&[1, 2, 3])));
    assert!(path_ends_with(&p(&[1, 2, 3]), &p(&[])));
}

#[test]
fn ends_with_fails_on_mismatch_or_longer_suffix() {
    assert!(!path_ends_with(&p(&[1, 2, 3]), &p(&[1, 3])));
    assert!(!path_ends_with(&p(&[3]), &p(&[2, 3])));
    assert!(!path_ends_with(&p(&[1, 2, 3]), &p(&[2, 2])));
}

#[test]
fn path_eq_is_exact_equality() {
    assert!(path_eq(&p(&[1, 2]), &p(&[1, 2])));
    assert!(!path_eq(&p(&[1, 2]), &p(&[1, 2, 3])));
    assert!(!path_eq(&p(&[1, 2]), &p(&[2, 1])));
    assert!(path_eq(&p(&[]), &p(&[])));
}

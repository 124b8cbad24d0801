use url_shortener::policy::{authenticate, effective_credential, key_available};
use url_shortener::store::{Lookup, StoreError, StoreErrorKind};
use url_shortener::value_parser::{serialize_value, Value};

fn stored(password: Option<&str>) -> Lookup {
    Ok(serialize_value(&Value {
        url: "http://a.com".to_string(),
        password: password.map(|p| p.to_string()),
    }))
}

fn refused(kind: StoreErrorKind) -> Lookup {
    Err(StoreError { kind, message: "refused".to_string() })
}

fn supplied(password: &str) -> Option<String> {
    Some(password.to_string())
}

#[test]
fn key_is_available_only_when_the_store_finds_nothing() {
    assert!(key_available(&refused(StoreErrorKind::NotFound)));
    assert!(!key_available(&refused(StoreErrorKind::UnAuthorized)));
    assert!(!key_available(&refused(StoreErrorKind::Unknown)));
    assert!(!key_available(&stored(None)));
    assert!(!key_available(&stored(Some("p"))));
    assert!(!key_available(&Ok(vec![])));
}

#[test]
fn unprotected_record_is_never_overwritten() {
    assert!(!authenticate(&stored(None), &None));
    assert!(!authenticate(&stored(None), &supplied("")));
    assert!(!authenticate(&stored(None), &supplied("p")));
    assert!(!authenticate(&stored(None), &supplied("\u{0}")));
}

#[test]
fn protected_record_opens_to_its_exact_password() {
    assert!(authenticate(&stored(Some("p")), &supplied("p")));
    assert!(!authenticate(&stored(Some("p")), &supplied("P")));
    assert!(!authenticate(&stored(Some("p")), &supplied("p ")));
    assert!(!authenticate(&stored(Some("p")), &supplied(" p")));
    assert!(!authenticate(&stored(Some("p")), &supplied("")));
    assert!(!authenticate(&stored(Some("p")), &None));
}

#[test]
fn empty_stored_password_opens_to_the_empty_credential() {
    assert!(authenticate(&stored(Some("")), &supplied("")));
    assert!(!authenticate(&stored(Some("")), &None));
    assert!(!authenticate(&stored(Some("")), &supplied(" ")));
}

#[test]
fn password_is_compared_without_normalization() {
    // U+00E9 and U+0065 U+0301 look alike and are different texts.
    assert!(authenticate(&stored(Some("\u{e9}")), &supplied("\u{e9}")));
    assert!(!authenticate(&stored(Some("\u{e9}")), &supplied("e\u{301}")));
}

#[test]
fn unreadable_record_denies() {
    assert!(!authenticate(&Ok(vec![]), &supplied("p")));
    assert!(!authenticate(&Ok(vec![0, 0, 0, 9, b'x']), &supplied("p")));
    let mut too_long = serialize_value(&Value {
        url: "http://a.com".to_string(),
        password: Some("p".to_string()),
    });
    too_long.push(0);
    assert!(!authenticate(&Ok(too_long), &supplied("p")));
    assert!(!authenticate(&Ok(vec![0, 0, 0, 0, 0, 0, 0, 1, 0xFF]), &supplied("\u{fffd}")));
}

#[test]
fn refused_lookup_denies() {
    for kind in [StoreErrorKind::NotFound, StoreErrorKind::UnAuthorized, StoreErrorKind::Unknown] {
        assert!(!authenticate(&refused(kind), &supplied("p")));
        assert!(!authenticate(&refused(kind), &None));
    }
}

#[test]
fn old_password_is_the_credential_where_given() {
    assert_eq!(effective_credential(supplied("old"), &supplied("new")), supplied("old"));
    assert_eq!(effective_credential(supplied("old"), &None), supplied("old"));
    assert_eq!(effective_credential(supplied(""), &supplied("new")), supplied(""));
}

#[test]
fn new_password_is_the_credential_without_old_password() {
    assert_eq!(effective_credential(None, &supplied("new")), supplied("new"));
    assert_eq!(effective_credential(None, &None), None);
}

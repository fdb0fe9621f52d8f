use twoliter::is_valid_id_char;
use twoliter::IdentifierError;
use twoliter::ValidIdentifier;

#[test]
fn valid_identifier_round_trips() {
    let id = ValidIdentifier::from_str("hello-world_01").unwrap();
    assert_eq!(id.as_str(), "hello-world_01");
    assert_eq!(id.0, "hello-world_01".to_string());
}

#[test]
fn empty_identifier_is_rejected() {
    assert_eq!(ValidIdentifier::from_str(""), Err(IdentifierError::Empty));
}

#[test]
fn identifier_with_space_is_rejected() {
    assert_eq!(
        ValidIdentifier::from_str("a b"),
        Err(IdentifierError::InvalidCharacter { ch: ' ' })
    );
}

#[test]
fn identifier_with_symbol_is_rejected() {
    assert_eq!(
        ValidIdentifier::from_str("ab$"),
        Err(IdentifierError::InvalidCharacter { ch: '$' })
    );
    assert_eq!(
        ValidIdentifier::from_str("dot.name"),
        Err(IdentifierError::InvalidCharacter { ch: '.' })
    );
}

#[test]
fn id_char_classification() {
    assert!(is_valid_id_char('a'));
    assert!(is_valid_id_char('z'));
    assert!(is_valid_id_char('A'));
    assert!(is_valid_id_char('Z'));
    assert!(is_valid_id_char('0'));
    assert!(is_valid_id_char('9'));
    assert!(is_valid_id_char('_'));
    assert!(is_valid_id_char('-'));
    assert!(!is_valid_id_char(' '));
    assert!(!is_valid_id_char('.'));
    assert!(!is_valid_id_char('/'));
    assert!(!is_valid_id_char('$'));
}

#[test]
fn identifiers_order_by_text() {
    let a = ValidIdentifier::from_str("alpha").unwrap();
    let b = ValidIdentifier::from_str("beta").unwrap();
    assert!(a < b);
    assert_eq!(a, ValidIdentifier::from_str("alpha").unwrap());
}

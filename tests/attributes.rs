use pg_aggregate::attribute::{Attribute, AttributeError, PgxAttributes};

#[test]
fn bare_keywords_name_options() {
    assert!(matches!(Attribute::from_option("immutable", None), Ok(Attribute::Immutable)));
    assert!(matches!(Attribute::from_option("parallel_safe", None), Ok(Attribute::ParallelSafe)));
    assert!(matches!(Attribute::from_option("skip_inventory", None), Ok(Attribute::SkipInventory)));
}

#[test]
fn valued_keywords_keep_their_string() {
    match Attribute::from_option("schema", Some("stats".to_string())) {
        Ok(Attribute::Schema(s)) => assert_eq!(s, "stats"),
        _ => panic!("expected a schema"),
    }
}

#[test]
fn option_errors() {
    assert!(matches!(Attribute::from_option("fast", None), Err(AttributeError::InvalidOption)));
    assert!(matches!(Attribute::from_option("name", None), Err(AttributeError::MissingValue)));
    assert!(matches!(Attribute::from_option("strict", Some("x".to_string())), Err(AttributeError::UnexpectedValue)));
}

#[test]
fn option_lists_keep_their_order() {
    let opts = vec![("strict".to_string(), None), ("name".to_string(), Some("n".to_string()))];
    let p = PgxAttributes::from_options(&opts).expect("valid options");
    assert_eq!(p.attrs.len(), 2);
    assert_eq!(p.attrs[0].extern_arg_variant(), "Strict");
    assert_eq!(p.attrs[1].extern_arg_variant(), "Name");
    let bad = vec![("strict".to_string(), None), ("bogus".to_string(), None)];
    assert!(matches!(PgxAttributes::from_options(&bad), Err(AttributeError::InvalidOption)));
}

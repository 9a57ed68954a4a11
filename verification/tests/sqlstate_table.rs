use pg_core::sqlstate::{is_valid_sqlstate_code, sqlstate_category};

#[test]
fn every_published_class_has_its_category() {
    let cases: Vec<(&str, &str)> = vec![
        ("00000", "successful completion"),
        ("01003", "warning"),
        ("02000", "no data"),
        ("03000", "SQL statement not yet complete"),
        ("08006", "connection exception"),
        ("09000", "triggered action exception"),
        ("0A000", "feature not supported"),
        ("0B000", "invalid transaction initiation"),
        ("0F001", "locator exception"),
        ("0L000", "invalid grantor"),
        ("0P000", "invalid role specification"),
        ("0Z002", "diagnostics exception"),
        ("20000", "case not found"),
        ("21000", "cardinality violation"),
        ("22012", "data exception"),
        ("23505", "integrity constraint violation"),
        ("24000", "invalid cursor state"),
        ("25001", "invalid transaction state"),
        ("26000", "invalid SQL statement name"),
        ("27000", "triggered data change violation"),
        ("28P01", "invalid authorization specification"),
        ("2BP01", "dependent privilege descriptors still exist"),
        ("2D000", "invalid transaction termination"),
        ("2F005", "SQL routine exception"),
        ("34000", "invalid cursor name"),
        ("38001", "external routine exception"),
        ("39004", "external routine invocation exception"),
        ("3B001", "savepoint exception"),
        ("3D000", "invalid catalog name"),
        ("3F000", "invalid schema name"),
        ("40001", "transaction rollback"),
        ("42601", "syntax error or access rule violation"),
        ("44000", "WITH CHECK OPTION violation"),
        ("53200", "insufficient resources"),
        ("54023", "program limit exceeded"),
        ("55006", "object not in prerequisite state"),
        ("57014", "operator intervention"),
        ("58030", "system error"),
        ("72000", "snapshot failure"),
        ("F0001", "configuration file error"),
        ("HV00C", "foreign data wrapper error"),
        ("P0001", "PL/pgSQL error"),
        ("XX002", "internal error"),
    ];
    for (code, category) in cases {
        assert_eq!(sqlstate_category(code), category);
    }
}

#[test]
fn unknown_but_well_formed_code_gets_unknown_bucket() {
    assert!(is_valid_sqlstate_code("ZZ000"));
    assert_eq!(sqlstate_category("ZZ000"), "unknown error class");
}

#[test]
fn every_code_gets_some_category() {
    assert_eq!(sqlstate_category(""), "unknown error class");
    assert_eq!(sqlstate_category("2"), "unknown error class");
    assert_eq!(sqlstate_category("zz000"), "unknown error class");
    assert!(!sqlstate_category("quite-malformed").is_empty());
}

#[test]
fn category_reads_only_the_class() {
    assert_eq!(sqlstate_category("22"), sqlstate_category("22012"));
    assert_eq!(sqlstate_category("23000"), sqlstate_category("23505"));
}

#[test]
fn well_formedness_check_accepts_five_digit_and_letter_codes() {
    assert!(is_valid_sqlstate_code("23505"));
    assert!(is_valid_sqlstate_code("XX000"));
    assert!(is_valid_sqlstate_code("0A000"));
}

#[test]
fn well_formedness_check_rejects_other_shapes() {
    assert!(!is_valid_sqlstate_code(""));
    assert!(!is_valid_sqlstate_code("2350"));
    assert!(!is_valid_sqlstate_code("235055"));
    assert!(!is_valid_sqlstate_code("23a05"));
    assert!(!is_valid_sqlstate_code("23 05"));
    assert!(!is_valid_sqlstate_code("23-05"));
}

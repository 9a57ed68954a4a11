use pg_core::error::{Cause, ConnectError, DbError, Error, ErrorPosition};
use pg_core::failures::{TlsError, TransportError, TransportErrorKind};
use pg_core::types::Type;

fn sample_db_error() -> DbError {
    DbError::new(
        "ERROR".to_string(),
        "23505".to_string(),
        "duplicate key value violates unique constraint".to_string(),
        Some("Key (id)=(1) already exists.".to_string()),
        None,
        Some(ErrorPosition::Normal(12)),
        Some("public".to_string()),
        Some("widgets".to_string()),
        None,
        Some("widgets_pkey".to_string()),
    )
}

fn all_connect_errors() -> Vec<ConnectError> {
    vec![
        ConnectError::InvalidUrl("postgres://bad".to_string()),
        ConnectError::MissingUser,
        ConnectError::DbError(sample_db_error()),
        ConnectError::MissingPassword,
        ConnectError::UnsupportedAuthentication,
        ConnectError::NoSslSupport,
        ConnectError::SslError(TlsError::new("certificate rejected".to_string())),
        ConnectError::IoError(TransportError::new(
            TransportErrorKind::ConnectionReset,
            "connection reset by peer".to_string(),
        )),
        ConnectError::BadResponse,
    ]
}

fn all_errors() -> Vec<Error> {
    vec![
        Error::DbError(sample_db_error()),
        Error::IoError(TransportError::new(
            TransportErrorKind::Timeout,
            "read timed out".to_string(),
        )),
        Error::StreamDesynchronized,
        Error::WrongType(Type::new(23, "int4".to_string())),
        Error::InvalidColumn,
        Error::WasNull,
        Error::BadResponse,
        Error::BadData,
    ]
}

#[test]
fn connect_error_descriptions_nonempty_and_stable() {
    for e in all_connect_errors() {
        assert!(!e.description().is_empty());
        assert_eq!(e.description(), e.description());
    }
}

#[test]
fn error_descriptions_nonempty_and_stable() {
    for e in all_errors() {
        assert!(!e.description().is_empty());
        assert_eq!(e.description(), e.description());
    }
}

#[test]
fn invalid_url_display_is_description_colon_detail() {
    let e = ConnectError::InvalidUrl("postgres://bad".to_string());
    let expected = format!("{}: {}", e.description(), "postgres://bad");
    assert_eq!(e.display_string(), expected);
}

#[test]
fn invalid_url_display_exact() {
    let e = ConnectError::InvalidUrl("postgres://bad".to_string());
    assert_eq!(e.display_string(), "Invalid URL: postgres://bad");
}

#[test]
fn plain_connect_variants_display_is_description() {
    let e = ConnectError::MissingPassword;
    assert_eq!(
        e.display_string(),
        "The server requested a password but none was provided"
    );
    let e = ConnectError::NoSslSupport;
    assert_eq!(e.display_string(), e.description());
}

#[test]
fn wrong_type_display_appends_type_name() {
    let e = Error::WrongType(Type::new(23, "int4".to_string()));
    assert_eq!(e.display_string(), "Unexpected type: saw type int4");
}

#[test]
fn plain_error_variants_display_is_description() {
    let e = Error::StreamDesynchronized;
    assert_eq!(
        e.display_string(),
        "Communication with the server has desynchronized due to an earlier IO error"
    );
    let e = Error::WasNull;
    assert_eq!(e.display_string(), e.description());
}

#[test]
fn connect_error_cause_round_trips_transport() {
    let original = TransportError::new(
        TransportErrorKind::ConnectionReset,
        "connection reset by peer".to_string(),
    );
    let wrapped = ConnectError::from(original.clone());
    assert!(matches!(wrapped, ConnectError::IoError(_)));
    match wrapped.cause() {
        Some(Cause::Transport(t)) => assert_eq!(*t, original),
        _ => panic!("expected a transport cause"),
    }
}

#[test]
fn connect_error_cause_round_trips_tls() {
    let original = TlsError::new("hostname mismatch".to_string());
    let wrapped = ConnectError::from(original.clone());
    assert!(matches!(wrapped, ConnectError::SslError(_)));
    match wrapped.cause() {
        Some(Cause::Tls(t)) => assert_eq!(*t, original),
        _ => panic!("expected a cryptographic cause"),
    }
}

#[test]
fn connect_error_cause_round_trips_db() {
    let original = sample_db_error();
    let wrapped = ConnectError::from(original.clone());
    assert!(matches!(wrapped, ConnectError::DbError(_)));
    match wrapped.cause() {
        Some(Cause::Db(d)) => assert_eq!(*d, original),
        _ => panic!("expected a server-report cause"),
    }
}

#[test]
fn error_cause_round_trips_timeout_description() {
    let original = TransportError::new(TransportErrorKind::Timeout, "read timed out".to_string());
    let wrapped = Error::from(original.clone());
    assert!(matches!(wrapped, Error::IoError(_)));
    match wrapped.cause() {
        Some(Cause::Transport(t)) => {
            assert_eq!(t.description(), original.description());
            assert_eq!(t.kind(), TransportErrorKind::Timeout);
        }
        _ => panic!("expected a transport cause"),
    }
}

#[test]
fn error_cause_round_trips_db() {
    let original = sample_db_error();
    let wrapped = Error::from(original.clone());
    match wrapped.cause() {
        Some(Cause::Db(d)) => assert_eq!(*d, original),
        _ => panic!("expected a server-report cause"),
    }
}

#[test]
fn variants_without_wrapped_failure_have_no_cause() {
    assert!(ConnectError::MissingUser.cause().is_none());
    assert!(ConnectError::MissingPassword.cause().is_none());
    assert!(ConnectError::UnsupportedAuthentication.cause().is_none());
    assert!(ConnectError::NoSslSupport.cause().is_none());
    assert!(ConnectError::BadResponse.cause().is_none());
    assert!(ConnectError::InvalidUrl("x".to_string()).cause().is_none());
    assert!(Error::StreamDesynchronized.cause().is_none());
    assert!(Error::InvalidColumn.cause().is_none());
    assert!(Error::WasNull.cause().is_none());
    assert!(Error::BadResponse.cause().is_none());
    assert!(Error::BadData.cause().is_none());
    assert!(Error::WrongType(Type::new(23, "int4".to_string())).cause().is_none());
}

#[test]
fn db_error_fields_are_preserved() {
    let e = sample_db_error();
    assert_eq!(e.severity(), "ERROR");
    assert_eq!(e.code(), "23505");
    assert_eq!(e.message(), "duplicate key value violates unique constraint");
    assert_eq!(e.detail().unwrap(), "Key (id)=(1) already exists.");
    assert!(e.hint().is_none());
    assert_eq!(e.position().unwrap(), &ErrorPosition::Normal(12));
    assert_eq!(e.schema().unwrap(), "public");
    assert_eq!(e.table().unwrap(), "widgets");
    assert!(e.column().is_none());
    assert_eq!(e.constraint().unwrap(), "widgets_pkey");
}

#[test]
fn db_error_code_category_uses_the_class_table() {
    let e = sample_db_error();
    assert_eq!(e.code_category(), "integrity constraint violation");
}

#[test]
fn error_position_internal_carries_query_text() {
    let p = ErrorPosition::Internal {
        position: 7,
        query: "SELECT generated_view_body".to_string(),
    };
    match p {
        ErrorPosition::Internal { position, query } => {
            assert_eq!(position, 7);
            assert_eq!(query, "SELECT generated_view_body");
        }
        ErrorPosition::Normal(_) => panic!("expected an internal position"),
    }
}

#[test]
fn type_descriptor_fields_are_preserved() {
    let t = Type::new(1043, "varchar".to_string());
    assert_eq!(t.oid(), 1043);
    assert_eq!(t.name(), "varchar");
}

use service_errors::errors::{DefaultError, PersistenceFailure, ServiceError};

#[test]
fn unique_violation_with_detail_renders_400() {
    let f = PersistenceFailure::Database {
        unique_violation: true,
        details: Some("email already exists".to_string()),
        message: "duplicate key value violates unique constraint".to_string(),
    };
    let e = ServiceError::from_persistence(f);
    let (status, body) = e.error_response();
    assert_eq!(status, 400);
    assert_eq!(body, "{\"message\":\"email already exists\"}");
}

#[test]
fn unique_violation_without_detail_uses_message() {
    let f = PersistenceFailure::Database {
        unique_violation: true,
        details: None,
        message: "duplicate key value".to_string(),
    };
    let e = ServiceError::from_persistence(f);
    let (status, body) = e.error_response();
    assert_eq!(status, 400);
    assert_eq!(body, "{\"message\":\"duplicate key value\"}");
}

#[test]
fn structured_db_error_renders_fixed_unknown_message() {
    let f = PersistenceFailure::Database {
        unique_violation: false,
        details: Some("column users.email".to_string()),
        message: "schema detail that must not leak".to_string(),
    };
    let e = ServiceError::from_persistence(f);
    let (status, body) = e.error_response();
    assert_eq!(status, 500);
    assert_eq!(body, "{\"message\":\"Unknown DB Error. Please try again later\"}");
}

#[test]
fn unstructured_failure_renders_fixed_internal_message() {
    let e = ServiceError::from_persistence(PersistenceFailure::Other);
    let (status, body) = e.error_response();
    assert_eq!(status, 500);
    assert_eq!(
        body,
        "{\"message\":\"Internal Server Error. Please try again later\"}"
    );
}

#[test]
fn diesel_unique_violation_goes_through_the_real_error() {
    let err = diesel::result::Error::DatabaseError(
        diesel::result::DatabaseErrorKind::UniqueViolation,
        Box::new("duplicate key value".to_string()),
    );
    let e = ServiceError::from_db_error(err);
    let (status, body) = e.error_response();
    assert_eq!(status, 400);
    assert_eq!(body, "{\"message\":\"duplicate key value\"}");
}

#[test]
fn diesel_closed_connection_is_unknown_db_error() {
    let err = diesel::result::Error::DatabaseError(
        diesel::result::DatabaseErrorKind::ClosedConnection,
        Box::new("server closed the connection unexpectedly".to_string()),
    );
    let e = ServiceError::from_db_error(err);
    let (status, body) = e.error_response();
    assert_eq!(status, 500);
    assert_eq!(body, "{\"message\":\"Unknown DB Error. Please try again later\"}");
}

#[test]
fn diesel_not_found_is_an_unstructured_failure() {
    let e = ServiceError::from_db_error(diesel::result::Error::NotFound);
    let (status, body) = e.error_response();
    assert_eq!(status, 500);
    assert_eq!(
        body,
        "{\"message\":\"Internal Server Error. Please try again later\"}"
    );
}

#[test]
fn invalid_uuid_renders_400() {
    let err = uuid::Uuid::parse_str("not-a-uuid").unwrap_err();
    let e = ServiceError::from_parse_error(err);
    let (status, body) = e.error_response();
    assert_eq!(status, 400);
    assert_eq!(body, "{\"message\":\"Invalid UUID\"}");
}

#[test]
fn every_malformed_identifier_gives_the_same_response() {
    let inputs = ["", "1234", "zzzz-zzzz", "123e4567-e89b-12d3-a456-42661417400"];
    for input in inputs {
        let err = uuid::Uuid::parse_str(input).unwrap_err();
        let (status, body) = ServiceError::from_parse_error(err).error_response();
        assert_eq!(status, 400);
        assert_eq!(body, "{\"message\":\"Invalid UUID\"}");
    }
}

#[test]
fn unauthorized_renders_bare_string() {
    let (status, body) = ServiceError::Unauthorized.error_response();
    assert_eq!(status, 401);
    assert_eq!(body, "\"Unauthorized\"");
}

#[test]
fn forbidden_renders_bare_string() {
    let (status, body) = ServiceError::Forbidden.error_response();
    assert_eq!(status, 403);
    assert_eq!(body, "\"Forbidden\"");
}

#[test]
fn not_found_renders_record_not_found() {
    let (status, body) = ServiceError::NotFound.error_response();
    assert_eq!(status, 404);
    assert_eq!(body, "\"Record not found\"");
}

#[test]
fn internal_server_error_payload_is_rendered() {
    let e = ServiceError::InternalServerError("something safe".to_string());
    let (status, body) = e.error_response();
    assert_eq!(status, 500);
    assert_eq!(body, "{\"message\":\"something safe\"}");
}

#[test]
fn bad_request_payload_is_rendered() {
    let e = ServiceError::BadRequest("missing field".to_string());
    let (status, body) = e.error_response();
    assert_eq!(status, 400);
    assert_eq!(body, "{\"message\":\"missing field\"}");
}

#[test]
fn translation_of_equal_failures_is_equal() {
    let make = || PersistenceFailure::Database {
        unique_violation: true,
        details: Some("email already exists".to_string()),
        message: "duplicate key value".to_string(),
    };
    let r1 = ServiceError::from_persistence(make()).error_response();
    let r2 = ServiceError::from_persistence(make()).error_response();
    assert_eq!(r1, r2);
}

#[test]
fn rendering_the_same_kind_twice_is_identical() {
    let e = ServiceError::BadRequest("once".to_string());
    let r1 = e.error_response();
    let r2 = e.error_response();
    assert_eq!(r1, r2);
    let e = ServiceError::NotFound;
    assert_eq!(e.error_response(), e.error_response());
}

#[test]
fn display_lines_match_the_original_texts() {
    assert_eq!(
        ServiceError::InternalServerError("boom".to_string()).display_string(),
        "Internal Server Error: boom"
    );
    assert_eq!(
        ServiceError::BadRequest("bad".to_string()).display_string(),
        "BadRequest: bad"
    );
    assert_eq!(ServiceError::Unauthorized.display_string(), "Unauthorized");
    assert_eq!(ServiceError::Forbidden.display_string(), "Forbidden");
    assert_eq!(ServiceError::NotFound.display_string(), "Not Found");
    let d = DefaultError { message: "no row" };
    assert_eq!(d.display_string(), "no row");
}

#[test]
fn default_error_carries_its_static_message() {
    let d = DefaultError {
        message: "out of range",
    };
    let d2 = d;
    assert_eq!(d.message, "out of range");
    assert_eq!(d2.message, d.message);
}

use profile_backend::error::{
    app_err_from_diesel_err, database_error, db_error_display, error_response, ApplicationError,
    DbError,
};

#[test]
fn diesel_errors_translate_by_kind() {
    assert_eq!(
        app_err_from_diesel_err(DbError::UniqueViolation("duplicate key".to_string())),
        ApplicationError::Conflict("Unique violation".to_string())
    );
    assert_eq!(
        app_err_from_diesel_err(DbError::NotFound),
        ApplicationError::NotFound("Not found".to_string())
    );
    assert_eq!(
        app_err_from_diesel_err(DbError::Other("connection reset".to_string())),
        ApplicationError::Internal("Database error - connection reset".to_string())
    );
}

#[test]
fn database_error_text() {
    assert_eq!(db_error_display(&DbError::NotFound), "Record not found");
    assert_eq!(
        database_error("boom"),
        ApplicationError::Internal("Database error - boom".to_string())
    );
}

#[test]
fn error_responses_carry_status_and_message() {
    let cases = vec![
        (ApplicationError::Unauthorized, 401, "Unauthorized"),
        (ApplicationError::Forbidden, 403, "Forbidden"),
        (ApplicationError::NotFound("gone".to_string()), 404, "gone"),
        (ApplicationError::Conflict("taken".to_string()), 409, "taken"),
        (ApplicationError::BadRequest("bad".to_string()), 400, "bad"),
        (ApplicationError::Internal("oops".to_string()), 500, "oops"),
    ];
    for (err, status, body) in cases {
        let r = error_response(&err);
        assert_eq!(r.status, status);
        assert_eq!(r.body, body);
    }
}

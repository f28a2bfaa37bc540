use orbifon::error::AppError;

fn all(detail: &str) -> Vec<AppError> {
    vec![
        AppError::Validation(detail.to_string()),
        AppError::Unauthorized(detail.to_string()),
        AppError::Forbidden(detail.to_string()),
        AppError::NotFound(detail.to_string()),
        AppError::Conflict(detail.to_string()),
        AppError::Database(detail.to_string()),
        AppError::Internal(detail.to_string()),
    ]
}

#[test]
fn status_codes() {
    let codes: Vec<u16> = all("m").iter().map(|e| e.status_code()).collect();
    assert_eq!(codes, vec![400, 401, 403, 404, 409, 500, 500]);
}

#[test]
fn client_messages_echo_request_errors() {
    for e in all("Username taken").iter().take(5) {
        assert_eq!(e.client_message(), "Username taken");
    }
}

#[test]
fn server_failures_hide_their_detail() {
    let secret = "Duplicate entry 'x' for key 'users.email' at 10.0.0.3";
    for e in all(secret).iter().skip(5) {
        let (status, message) = e.response_parts();
        assert_eq!(status, 500);
        assert_eq!(message, "Something went wrong. Please try again.");
        assert!(!e.to_text().contains("Duplicate"));
    }
}

#[test]
fn error_texts() {
    let texts: Vec<String> = all("m").iter().map(|e| e.to_text()).collect();
    assert_eq!(
        texts,
        vec![
            "validation error: m",
            "unauthorized: m",
            "forbidden: m",
            "not found: m",
            "conflict: m",
            "database error",
            "internal error",
        ]
    );
}

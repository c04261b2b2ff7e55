use medbook_core::app_error::AppError;
use medbook_core::config::{frontend_origin, Frontend, Stage};
use medbook_core::middleware::get_cookie_value;

#[test]
fn stage_parses_its_three_names() {
    assert_eq!(Stage::try_from("Local").unwrap(), Stage::Local);
    assert_eq!(Stage::try_from("Development").unwrap(), Stage::Development);
    assert_eq!(Stage::try_from("Production").unwrap(), Stage::Production);
}

#[test]
fn stage_rejects_anything_else() {
    let err = Stage::try_from("production").unwrap_err();
    assert_eq!(err, AppError::Other("Invalid stage".to_string()));
    assert!(Stage::try_from("").is_err());
    assert!(Stage::try_from("Staging").is_err());
}

#[test]
fn stage_defaults_to_development() {
    assert_eq!(Stage::default(), Stage::Development);
}

#[test]
fn stage_displays_its_name() {
    assert_eq!(Stage::Local.as_str(), "Local");
    assert_eq!(Stage::Development.as_str(), "Development");
    assert_eq!(Stage::Production.as_str(), "Production");
}

#[test]
fn cors_origin_follows_the_stage() {
    let frontend = Frontend {
        development_url: "http://localhost:3000".to_string(),
        production_url: "https://example.test".to_string(),
    };
    assert_eq!(
        frontend_origin(&Stage::Local, &frontend),
        "http://localhost:3000"
    );
    assert_eq!(
        frontend_origin(&Stage::Development, &frontend),
        "http://localhost:3000"
    );
    assert_eq!(
        frontend_origin(&Stage::Production, &frontend),
        "https://example.test"
    );
}

#[test]
fn app_error_maps_to_http_status() {
    assert_eq!(
        AppError::ServiceUnreachable("patients".to_string()).status_code(),
        503
    );
    assert_eq!(AppError::NotFound.status_code(), 404);
    assert_eq!(AppError::BadRequest("no body".to_string()).status_code(), 400);
    assert_eq!(
        AppError::ForbiddenResource("records".to_string()).status_code(),
        403
    );
    assert_eq!(AppError::Other("boom".to_string()).status_code(), 500);
}

#[test]
fn app_error_messages_name_the_subject() {
    assert_eq!(
        AppError::ServiceUnreachable("patients".to_string()).message(),
        "Service patients is unreachable"
    );
    assert_eq!(
        AppError::NotFound.message(),
        "Resource not found - it is possible that the user is trying to access a forbidden resource"
    );
    assert_eq!(
        AppError::BadRequest("no body".to_string()).message(),
        "Bad request: no body"
    );
    assert_eq!(
        AppError::ForbiddenResource("records".to_string()).message(),
        "Forbidden resource: records"
    );
    assert_eq!(AppError::Other("boom".to_string()).message(), "boom");
}

#[test]
fn cookie_value_is_found_by_name() {
    assert_eq!(
        get_cookie_value("act=abc123; rt=def456", "act"),
        Some("abc123".to_string())
    );
    assert_eq!(
        get_cookie_value("rt=def456; act=abc123", "act"),
        Some("abc123".to_string())
    );
    assert_eq!(get_cookie_value("act=abc123", "rt"), None);
}

#[test]
fn cookie_names_and_values_are_trimmed() {
    assert_eq!(
        get_cookie_value("rt=x;  act  =  abc123  ", "act"),
        Some("abc123".to_string())
    );
}

#[test]
fn cookie_value_keeps_inner_equals_signs() {
    assert_eq!(
        get_cookie_value("act=a=b=c; rt=x", "act"),
        Some("a=b=c".to_string())
    );
}

#[test]
fn cookie_without_equals_sign_matches_nothing() {
    assert_eq!(get_cookie_value("act; rt=x", "act"), None);
    assert_eq!(get_cookie_value("", "act"), None);
}

#[test]
fn first_matching_cookie_wins() {
    assert_eq!(
        get_cookie_value("act=first; act=second", "act"),
        Some("first".to_string())
    );
}

#[test]
fn cookie_value_may_be_empty() {
    assert_eq!(get_cookie_value("act=; rt=x", "act"), Some("".to_string()));
}

use tgltrk::error::AppError;

#[test]
fn display_api_error() {
    let e = AppError::Api("msg".to_string());
    assert_eq!(e.to_string(), "API error: msg");
}

#[test]
fn display_http_status() {
    let e = AppError::HttpStatus {
        status: 404,
        body: "not found".to_string(),
    };
    assert_eq!(e.to_string(), "HTTP 404: not found");
}

#[test]
fn display_auth_error() {
    let e = AppError::Auth("msg".to_string());
    assert_eq!(e.to_string(), "Authentication error: msg");
}

#[test]
fn display_keyring_error() {
    let e = AppError::Keyring("msg".to_string());
    assert_eq!(e.to_string(), "Keyring error: msg");
}

#[test]
fn display_cache_error() {
    let e = AppError::Cache("msg".to_string());
    assert_eq!(e.to_string(), "Cache error: msg");
}

#[test]
fn display_not_found() {
    let e = AppError::NotFound("msg".to_string());
    assert_eq!(e.to_string(), "Not found: msg");
}

#[test]
fn display_invalid_input() {
    let e = AppError::InvalidInput("msg".to_string());
    assert_eq!(e.to_string(), "Invalid input: msg");
}

#[test]
fn display_io_error() {
    let e = AppError::Io("broken pipe".to_string());
    assert_eq!(e.to_string(), "IO error: broken pipe");
}

#[test]
fn display_http_status_codes() {
    let e = AppError::HttpStatus { status: 0, body: String::new() };
    assert_eq!(e.to_string(), "HTTP 0: ");
    let e = AppError::HttpStatus { status: 65535, body: "x".to_string() };
    assert_eq!(e.to_string(), "HTTP 65535: x");
}

use moosic::config::{default_frontend_path, default_log_level, default_log_path, CacheConfig, Database, Frontend, Log};
use moosic::error::{AppError, ErrorKind};
use moosic::text::{int_to_decimal, nat_to_decimal};

#[test]
fn each_error_kind_has_its_status_and_code() {
    let cases = vec![
        (AppError::not_found("a".to_string()), 404, "not_found"),
        (AppError::unauthorized("a".to_string()), 401, "unauthorized"),
        (AppError::forbidden("a".to_string()), 403, "forbidden"),
        (AppError::validation_error("a".to_string()), 400, "validation_error"),
        (AppError::conflict("a".to_string()), 409, "conflict"),
        (AppError::gone("a".to_string()), 410, "gone"),
        (AppError::internal("a".to_string()), 500, "internal_error"),
    ];
    for (e, status, code) in cases {
        assert_eq!(e.status(), status);
        assert_eq!(e.code(), code);
        assert_eq!(e.details, None);
    }
}

#[test]
fn errors_describe_themselves_and_carry_details() {
    let e = AppError::new(ErrorKind::Gone, "Share has expired".to_string());
    assert_eq!(e.describe(), "gone: Share has expired");
    let d = e.with_details("{\"field\":\"x\"}".to_string());
    assert_eq!(d.details.as_deref(), Some("{\"field\":\"x\"}"));
    assert_eq!(d.kind, ErrorKind::Gone);
}

#[test]
fn configuration_defaults() {
    assert_eq!(default_frontend_path(), "web/dist");
    assert_eq!(default_log_level(), "info");
    assert_eq!(default_log_path(), "logs/moosic.log");
    assert_eq!(Frontend::default().path, "web/dist");
    let l = Log::default();
    assert_eq!((l.level.as_str(), l.path.as_str()), ("info", "logs/moosic.log"));
    assert!(matches!(CacheConfig::default(), CacheConfig::Moka));
    assert_eq!(Database::Sqlite { url: "sqlite::memory:".to_string() }.kind(), "sqlite");
}

#[test]
fn decimal_text() {
    assert_eq!(nat_to_decimal(0), "0");
    assert_eq!(nat_to_decimal(1_234_567), "1234567");
    assert_eq!(int_to_decimal(-45), "-45");
    assert_eq!(int_to_decimal(i64::MIN), "-9223372036854775808");
    assert_eq!(int_to_decimal(i64::MAX), "9223372036854775807");
}

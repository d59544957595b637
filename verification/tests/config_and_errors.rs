use ddns::config::{default_false, default_true, default_ttl, interval_secs, Config};
use ddns::exit_code::{
    api_error_to_exitcode, user_error_exitcode, ApiFailureKind, AppResult, ErrorClass,
    ExitCodeError,
};
use ddns::notify::notify_startup_complete;

#[test]
fn defaults_match_the_documented_values() {
    assert_eq!(default_ttl(), 120);
    assert!(!default_false());
    assert!(default_true());
    let cfg = Config::with_defaults(
        String::from("a.example.com"),
        String::from("ppp"),
        String::from("deadbeaf"),
    );
    assert!(cfg.wait_duration.is_none());
    assert!(cfg.v4);
    assert!(cfg.v6);
    assert!(!cfg.proxied);
    assert_eq!(cfg.ttl, 120);
}

#[test]
fn both_families_disabled_is_rejected() {
    let mut cfg = Config::with_defaults(
        String::from("a.example.com"),
        String::from("eth0"),
        String::from("zone"),
    );
    cfg.v4 = false;
    cfg.v6 = false;
    let err = cfg.validate().unwrap_err();
    assert_eq!(err.class, ErrorClass::Configuration);
    assert_eq!(err.exit_code, user_error_exitcode());
}

#[test]
fn one_family_enabled_is_accepted() {
    let mut cfg = Config::with_defaults(
        String::from("a.example.com"),
        String::from("eth0"),
        String::from("zone"),
    );
    cfg.v6 = false;
    assert!(cfg.validate().is_ok());
    cfg.v4 = false;
    cfg.v6 = true;
    assert!(cfg.validate().is_ok());
    cfg.v4 = true;
    assert!(cfg.validate().is_ok());
}

#[test]
fn interval_is_minutes_or_the_default() {
    let mut cfg = Config::with_defaults(
        String::from("a.example.com"),
        String::from("eth0"),
        String::from("zone"),
    );
    assert_eq!(interval_secs(&cfg), 300);
    cfg.wait_duration = Some(2);
    assert_eq!(interval_secs(&cfg), 120);
}

#[test]
fn provider_rejections_are_user_errors() {
    assert_eq!(api_error_to_exitcode(&ApiFailureKind::ErrorResponse), 2);
    assert_eq!(api_error_to_exitcode(&ApiFailureKind::Invalid), 1);
    assert_eq!(user_error_exitcode(), 2);
}

#[test]
fn app_result_reports_exit_codes() {
    let ok: AppResult<(), ExitCodeError> = AppResult(Ok(()));
    assert_eq!(ok.report(), 0);
    let err: AppResult<(), ExitCodeError> =
        AppResult(Err(ExitCodeError::new(ErrorClass::Credential)));
    assert_eq!(err.report(), 2);
    let err: AppResult<(), ExitCodeError> =
        AppResult(Err(ExitCodeError::new(ErrorClass::AddressSource)));
    assert_eq!(err.report(), 1);
}

#[test]
fn noop_hook_succeeds() {
    assert!(notify_startup_complete().is_ok());
}

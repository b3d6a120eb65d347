use shop_bridge::errors::{ConfigError, ShopCustomError};

const GENERIC: &str = "an internal error occurred, please try again later";

#[test]
fn the_diagnostic_is_the_pretty_debug_text_of_the_cause() {
    let error = ShopCustomError::get_custom_error("connection refused");
    assert_eq!(error.0, "\"connection refused\"");
    let error = ShopCustomError::get_custom_error(Some(5u8));
    assert_eq!(error.0, format!("{:#?}", Some(5u8)));
    assert_eq!(error.0, "Some(\n    5,\n)");
}

#[test]
fn both_names_build_the_same_error() {
    let a = ShopCustomError::get_custom_error(vec![1, 2]);
    let b = ShopCustomError::getCustomError(vec![1, 2]);
    assert_eq!(a, b);
}

#[test]
fn the_user_never_sees_the_diagnostic() {
    let error = ShopCustomError::get_custom_error("secret detail");
    assert_eq!(error.user_message(), GENERIC);
    assert!(!error.user_message().contains("secret detail"));
    assert_eq!(error.log_message(), "\"secret detail\"");
}

#[test]
fn an_error_can_wrap_a_text_at_hand() {
    let error = ShopCustomError::from_detail("worker died".to_string());
    assert_eq!(error, ShopCustomError("worker died".to_string()));
    assert_eq!(error.log_message(), "worker died");
    assert_eq!(error.user_message(), GENERIC);
}

#[test]
fn a_nested_error_keeps_its_cause_in_the_diagnostic() {
    let cause = ConfigError::BadProgramId("bad digit".to_string());
    let error = ShopCustomError::get_custom_error(cause);
    assert!(error.0.contains("BadProgramId"));
    assert!(error.0.contains("bad digit"));
    assert_eq!(error.user_message(), GENERIC);
}

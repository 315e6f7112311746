use tray_bridge::email::validate_email;
use tray_bridge::icon::{generate_placeholder_icon, TrayIconBitmap};
use tray_bridge::tray::{check_icon, classify_registration, TrayError};

#[test]
fn empty_input_is_acceptable_with_prompt() {
    let (ok, msg) = validate_email("");
    assert!(ok);
    assert_eq!(msg, "Digite um email...");
}

#[test]
fn missing_at_sign_is_rejected() {
    let (ok, msg) = validate_email("not-an-email");
    assert!(!ok);
    assert_eq!(msg, "Email deve conter @");
}

#[test]
fn missing_dot_is_rejected() {
    let (ok, msg) = validate_email("user@host");
    assert!(!ok);
    assert_eq!(msg, "Email deve conter um domínio");
}

#[test]
fn malformed_split_is_rejected() {
    let cases = ["a@b@c.d", "@host.com", "user.name@"];
    for text in cases {
        let (ok, msg) = validate_email(text);
        assert!(!ok, "{}", text);
        assert_eq!(msg, "Formato de email inválido", "{}", text);
    }
}

#[test]
fn plausible_email_is_accepted() {
    let (ok, msg) = validate_email("user@example.com");
    assert!(ok);
    assert_eq!(msg, "✓ Email válido!");
}

#[test]
fn wrong_size_bitmap_is_rejected() {
    let bad = TrayIconBitmap { rgba: vec![0u8; 10] };
    assert_eq!(check_icon(&bad), Err(TrayError::IconRejected));
    assert_eq!(classify_registration(&bad, true), Err(TrayError::IconRejected));
}

#[test]
fn platform_refusal_is_reported_after_icon_check() {
    let good = generate_placeholder_icon();
    assert_eq!(check_icon(&good), Ok(()));
    assert_eq!(classify_registration(&good, false), Err(TrayError::PlatformUnsupported));
    assert_eq!(classify_registration(&good, true), Ok(()));
}

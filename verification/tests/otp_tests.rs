use payslip::error::AppError;
use payslip::model::UserRole;
use payslip::otp::{
    check_otp, format_otp, generate_otp, issue_otp, normalize_email, otp_email_html, otp_email_subject,
    otp_sent_message, otp_valid_minutes, redeem_otp, require_email, require_registered, stored_role, OtpRecord,
    OtpRefusal,
};

fn bad_request_text(e: AppError) -> String {
    match e {
        AppError::BadRequest(m) => m,
        other => panic!("expected a bad request, got {other:?}"),
    }
}

#[test]
fn otp_text_has_six_digits() {
    assert_eq!(format_otp(42), "000042");
    assert_eq!(format_otp(0), "000000");
    assert_eq!(format_otp(999999), "999999");
    for _ in 0..50 {
        let otp = generate_otp();
        assert_eq!(otp.len(), 6);
        assert!(otp.chars().all(|c| c.is_ascii_digit()));
    }
}

#[test]
fn issued_otp_lasts_its_lifetime() {
    let rec = issue_otp("123456".to_string(), 1_000_000, 300);
    assert_eq!(rec.expires_at, 301_000_000);
    assert!(!rec.used);
    assert_eq!(check_otp(Some(&rec), "123456", 1_000_000), Ok(()));
    assert_eq!(check_otp(Some(&rec), "123456", 301_000_000), Ok(()));
    assert_eq!(check_otp(Some(&rec), "123456", 301_000_001), Err(OtpRefusal::Expired));
    assert_eq!(check_otp(Some(&rec), "654321", 2_000_000), Err(OtpRefusal::Mismatch));
    assert_eq!(check_otp(None, "123456", 2_000_000), Err(OtpRefusal::NotRequested));
}

#[test]
fn otp_is_single_use() {
    let mut rec = issue_otp("111111".to_string(), 0, 60);
    assert!(redeem_otp(&mut rec, "111111", 5).is_ok());
    assert!(rec.used);
    let again = redeem_otp(&mut rec, "111111", 6).unwrap_err();
    assert_eq!(bad_request_text(again), "OTP already used");
}

#[test]
fn refused_otp_stays_unspent() {
    let mut rec = OtpRecord { otp: "222222".to_string(), expires_at: 100, used: false };
    let e = redeem_otp(&mut rec, "222223", 50).unwrap_err();
    assert_eq!(bad_request_text(e), "Invalid OTP");
    assert!(!rec.used);
    let e = redeem_otp(&mut rec, "222222", 101).unwrap_err();
    assert_eq!(bad_request_text(e), "OTP expired");
    assert!(!rec.used);
    assert!(redeem_otp(&mut rec, "222222", 100).is_ok());
}

#[test]
fn reissue_replaces_a_spent_otp() {
    let mut rec = issue_otp("333333".to_string(), 0, 60);
    assert!(redeem_otp(&mut rec, "333333", 1).is_ok());
    let mut fresh = issue_otp("444444".to_string(), 10, 60);
    assert_eq!(check_otp(Some(&fresh), "333333", 11), Err(OtpRefusal::Mismatch));
    assert!(redeem_otp(&mut fresh, "444444", 11).is_ok());
}

#[test]
fn email_normalization() {
    assert_eq!(normalize_email("  Foo@Bar.COM \n").unwrap(), "foo@bar.com");
    assert_eq!(bad_request_text(normalize_email("   ").unwrap_err()), "Email is required");
    assert_eq!(bad_request_text(normalize_email("").unwrap_err()), "Email is required");
    assert_eq!(normalize_email("\u{2003}ÄB@C.DE").unwrap(), "äb@c.de");
    assert_eq!(require_email("x@y.z".to_string()).unwrap(), "x@y.z");
    assert_eq!(bad_request_text(require_email(String::new()).unwrap_err()), "Email is required");
    assert_eq!(require_registered(Some(7)).unwrap(), 7);
    assert_eq!(bad_request_text(require_registered(None).unwrap_err()), "Email not registered");
}

#[test]
fn otp_mail() {
    assert_eq!(otp_valid_minutes(300), 5);
    assert_eq!(otp_valid_minutes(301), 6);
    assert_eq!(otp_valid_minutes(0), 0);
    assert_eq!(otp_valid_minutes(1), 1);
    assert_eq!(otp_valid_minutes(-100), (-100i64 + 59) / 60);
    assert_eq!(otp_valid_minutes(-200), (-200i64 + 59) / 60);
    assert_eq!(
        otp_email_html("012345", 300),
        "<p>Your OTP is: <strong>012345</strong></p><p>Valid for 5 minute(s).</p>"
    );
    assert_eq!(otp_email_subject(), "Your Payslip App OTP");
    assert_eq!(otp_sent_message(false), "OTP sent to your email");
    assert_eq!(otp_sent_message(true), "OTP ready (dev mode: check server logs — email not sent)");
}

#[test]
fn stored_roles() {
    assert_eq!(stored_role("admin").unwrap(), UserRole::Admin);
    assert_eq!(stored_role("employee").unwrap(), UserRole::Employee);
    assert!(matches!(stored_role("Admin"), Err(AppError::Internal(_))));
    assert!(matches!(stored_role(""), Err(AppError::Internal(_))));
}

use payslip::csv_import::{is_upload_field, missing_upload_field};
use payslip::error::AppError;
use payslip::mail::{compose_html_email, compose_pdf_email, compose_plain_email, MailError};

#[test]
fn mails_are_put_together() {
    let m = compose_html_email("noreply@company.com", "a@b.com", "Your Payslip App OTP", "<p>x</p>".to_string()).unwrap();
    let text = String::from_utf8(m.message().formatted()).unwrap();
    assert!(text.contains("Subject: Your Payslip App OTP"));
    assert!(text.contains("To: a@b.com"));
    assert!(text.contains("text/html"));
    assert!(text.contains("From: noreply@company.com"));
    assert!(text.contains("<p>x</p>"));
    let p = compose_plain_email("noreply@company.com", "a@b.com", "Hi", "hello".to_string()).unwrap();
    let plain = String::from_utf8(p.message().formatted()).unwrap();
    assert!(plain.contains("text/plain"));
    assert!(plain.contains("From: noreply@company.com"));
    assert!(plain.contains("To: a@b.com"));
    assert!(plain.contains("Subject: Hi"));
    assert!(plain.contains("\r\n\r\nhello"));
    let pdf = compose_pdf_email("noreply@company.com", "a@b.com", "Payslip", "attached", b"%PDF-1.3".to_vec(), "payslip_2024_03.pdf").unwrap();
    let body = String::from_utf8(pdf.message().formatted()).unwrap();
    assert!(body.contains("From: noreply@company.com"));
    assert!(body.contains("To: a@b.com"));
    assert!(body.contains("Subject: Payslip"));
    assert!(body.contains("multipart/mixed"));
    assert!(body.contains("attached"));
    assert!(body.contains("payslip_2024_03.pdf"));
    assert!(body.contains("application/pdf"));
}

#[test]
fn bad_addresses_are_refused_sender_first() {
    assert_eq!(compose_plain_email("not an address", "also bad", "s", String::new()).err(), Some(MailError::InvalidFrom));
    assert_eq!(compose_plain_email("x@y.z", "also bad", "s", String::new()).err(), Some(MailError::InvalidTo));
    assert_eq!(MailError::InvalidFrom.describe(), "Invalid from address");
    assert_eq!(MailError::BuildAttachment.describe(), "Failed to build email with attachment");
}

#[test]
fn upload_field() {
    assert!(is_upload_field(Some("file")));
    assert!(!is_upload_field(Some("files")));
    assert!(!is_upload_field(None));
    assert!(matches!(missing_upload_field(), AppError::BadRequest(m) if m == "No 'file' field"));
}

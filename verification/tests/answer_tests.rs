use payslip::error::AppError;
use payslip::payslip::{attachment_disposition, month_name, period_label};

#[test]
fn error_statuses_and_messages() {
    let cases = [
        (AppError::NotFound, 404, "Not found", "Not found"),
        (AppError::Unauthorized, 401, "Unauthorized", "Unauthorized"),
        (AppError::Forbidden, 403, "Forbidden", "Forbidden"),
        (AppError::BadRequest("OTP expired".into()), 400, "OTP expired", "Bad request: OTP expired"),
        (AppError::Db("pool timed out".into()), 500, "Database error", "Database error: pool timed out"),
        (AppError::Internal("Invalid role".into()), 500, "Internal error", "Internal: Invalid role"),
    ];
    for (e, status, answer, description) in cases {
        assert_eq!(e.status_code(), status);
        assert_eq!(e.answer_message(), answer);
        assert_eq!(e.description(), description);
    }
}

#[test]
fn month_names_on_payslips() {
    assert_eq!(month_name(1), "January");
    assert_eq!(month_name(3), "March");
    assert_eq!(month_name(12), "December");
    assert_eq!(month_name(0), "January");
    assert_eq!(month_name(13), "December");
    assert_eq!(month_name(-1), "December");
    assert_eq!(month_name(i32::MIN), "December");
    assert_eq!(period_label(3, 2024), "March 2024");
}

#[test]
fn download_file_names() {
    assert_eq!(attachment_disposition(2024, 3), "attachment; filename=\"payslip_2024_03.pdf\"");
    assert_eq!(attachment_disposition(2024, 12), "attachment; filename=\"payslip_2024_12.pdf\"");
    assert_eq!(attachment_disposition(2024, -5), format!("attachment; filename=\"payslip_2024_{:02}.pdf\"", -5));
    assert_eq!(attachment_disposition(-7, 0), "attachment; filename=\"payslip_-7_00.pdf\"");
}

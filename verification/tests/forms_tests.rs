use payslip::forms::{
    after_logout, after_preview, after_upload, file_chosen, preview_count_text,
    after_otp_sent, after_sign_in, login_page_redirect, otp_page_redirect, otp_submission,
    admin_form_period, dashboard_path, employee_form_period, guard_redirect, landing_path, last_typed_char,
    login_email_error, month_option_label, month_option_value, otp_from_boxes, role_permits,
};
use payslip::model::{AuthResponse, CsvPreviewResponse, UploadResponse, UserRole};

#[test]
fn sign_in_page_checks() {
    assert_eq!(login_email_error("  ").as_deref(), Some("Please enter your company email"));
    assert_eq!(login_email_error("a@b.c"), None);
    let boxes: Vec<String> = ["1", "2", "3", "4", "5", "6"].iter().map(|s| s.to_string()).collect();
    assert_eq!(otp_from_boxes(&boxes).unwrap(), "123456");
    let short: Vec<String> = ["1", "", "3"].iter().map(|s| s.to_string()).collect();
    assert_eq!(otp_from_boxes(&short).unwrap_err(), "Please enter all 6 digits");
    assert_eq!(last_typed_char("12"), "2");
    assert_eq!(last_typed_char(""), "");
}

#[test]
fn payslip_forms() {
    assert_eq!(employee_form_period(" 2024 ", "3").unwrap(), (2024, 3));
    assert_eq!(employee_form_period("2024", "13").unwrap_err(), "Please select Year and Month");
    assert_eq!(employee_form_period("", "3").unwrap_err(), "Please select Year and Month");
    assert_eq!(admin_form_period("id-1", "2024", "12").unwrap(), (2024, 12));
    assert_eq!(admin_form_period("  ", "2024", "12").unwrap_err(), "Please fill in Employee ID, Year, and Month");
    assert_eq!(admin_form_period("x", "2024", "0").unwrap_err(), "Please fill in Employee ID, Year, and Month");
}

#[test]
fn navigation() {
    assert_eq!(dashboard_path(UserRole::Admin), "/admin");
    assert_eq!(dashboard_path(UserRole::Employee), "/employee");
    let session = AuthResponse { token: "t".into(), role: UserRole::Employee, name: "N".into() }.into_session("e@x");
    assert_eq!(session.email, "e@x");
    assert_eq!(landing_path(Some(&session)), "/employee");
    assert_eq!(landing_path(None), "/login");
    assert!(role_permits("employee", UserRole::Employee));
    assert!(!role_permits("admin", UserRole::Employee));
    assert_eq!(guard_redirect(Some(&session), "employee"), None);
    assert_eq!(guard_redirect(Some(&session), "admin"), Some("/login"));
    assert_eq!(guard_redirect(None, "employee"), Some("/login"));
    let labels: Vec<&str> = (1..=12).map(month_option_label).collect();
    assert_eq!(labels, ["Jan", "Feb", "Mar", "Apr", "May", "Jun", "Jul", "Aug", "Sep", "Oct", "Nov", "Dec"]);
}

#[test]
fn picked_months_are_accepted() {
    for m in 1..=12u32 {
        let value = month_option_value(m);
        assert_eq!(value, m.to_string());
        for year in [2024, 0, -3, i32::MIN, i32::MAX] {
            assert_eq!(employee_form_period(&year.to_string(), &value).unwrap(), (year, m as i32));
            assert_eq!(admin_form_period("emp", &year.to_string(), &value).unwrap(), (year, m as i32));
        }
    }
}

#[test]
fn role_names_read_back() {
    for role in [UserRole::Admin, UserRole::Employee] {
        assert_eq!(UserRole::from_name(role.name()), Some(role));
    }
    assert_ne!(UserRole::Admin.name(), UserRole::Employee.name());
    assert_eq!(UserRole::from_name("Admin"), None);
}

#[test]
fn sign_in_steps() {
    assert_eq!(
        after_otp_sent(" a@b.c", "OTP sent to your email".to_string()),
        (" a@b.c".to_string(), "OTP sent to your email".to_string(), "/otp")
    );
    assert_eq!(otp_page_redirect(None), Some("/login"));
    assert_eq!(otp_page_redirect(Some("a@b.c")), None);
    let boxes: Vec<String> = ["9", "8", "7", "6", "5", "4"].iter().map(|s| s.to_string()).collect();
    assert_eq!(otp_submission(&boxes, Some("a@b.c")).unwrap(), ("a@b.c".to_string(), "987654".to_string()));
    assert_eq!(otp_submission(&boxes, None).unwrap(), (String::new(), "987654".to_string()));
    assert_eq!(otp_submission(&boxes[..5].to_vec(), Some("a@b.c")).unwrap_err(), "Please enter all 6 digits");
    let resp = AuthResponse { token: "tok".into(), role: UserRole::Admin, name: "Ann".into() };
    let (session, dest) = after_sign_in(resp, "a@b.c");
    assert_eq!((session.token.as_str(), session.role, session.name.as_str(), session.email.as_str()), ("tok", UserRole::Admin, "Ann", "a@b.c"));
    assert_eq!(dest, "/admin");
    assert_eq!(login_page_redirect(Some(&session)), Some("/admin"));
    assert_eq!(login_page_redirect(None), None);
}

#[test]
fn header_and_upload_panel_steps() {
    let (session, dest) = after_logout();
    assert!(session.is_none());
    assert_eq!(dest, "/login");
    let v = file_chosen();
    assert!(v.preview.is_none() && v.message.is_none());
    let p = CsvPreviewResponse { headers: vec!["a".into()], rows: vec![vec!["1".into()]], total: 9 };
    let v = after_preview(v, Ok(p));
    assert_eq!(v.preview.as_ref().unwrap().total, 9);
    assert!(v.message.is_none());
    let v = after_preview(v, Err("Preview failed".into()));
    assert_eq!(v.preview.as_ref().unwrap().total, 9);
    assert_eq!(v.message, Some((false, "Preview failed".to_string())));
    let v = after_upload(v, Err("Upload failed".into()));
    assert!(v.preview.is_some());
    assert_eq!(v.message, Some((false, "Upload failed".to_string())));
    let v = after_upload(v, Ok(UploadResponse { uploaded: 9, message: "Successfully uploaded 9 records".into() }));
    assert!(v.preview.is_none());
    assert_eq!(v.message, Some((true, "Successfully uploaded 9 records".to_string())));
    assert_eq!(preview_count_text(9), "Showing first 5 of 9 rows");
}

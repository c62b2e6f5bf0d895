use payslip::access::{strip_bearer, token_of_request};
use payslip::error::AppError;
use payslip::links::{
    admin_download_url, admin_preview_url, emp_download_url, emp_preview_url, extract_token_from_query,
};

#[test]
fn admin_links() {
    assert_eq!(
        admin_preview_url("tok", 2024, 3, "abc-1"),
        "http://localhost:3001/api/admin/payslip/preview?year=2024&month=3&employee_id=abc-1&token=tok"
    );
    assert_eq!(
        admin_download_url("t.k", -1, 12, "e"),
        "http://localhost:3001/api/admin/payslip/download?year=-1&month=12&employee_id=e&token=t.k"
    );
}

#[test]
fn employee_links() {
    assert_eq!(
        emp_preview_url("abc.def.ghi", 2023, 11),
        "http://localhost:3001/api/employee/payslip/preview?year=2023&month=11&token=abc.def.ghi"
    );
    assert_eq!(
        emp_download_url("x", 2025, 1),
        "http://localhost:3001/api/employee/payslip/download?year=2025&month=1&token=x"
    );
}

#[test]
fn token_in_query() {
    assert_eq!(extract_token_from_query("year=1&token=abc"), Some("abc".to_string()));
    assert_eq!(extract_token_from_query("token="), Some(String::new()));
    assert_eq!(extract_token_from_query("a&b"), None);
    assert_eq!(extract_token_from_query(""), None);
    assert_eq!(extract_token_from_query("tokenx=1&token=z"), Some("z".to_string()));
    assert_eq!(extract_token_from_query("&token=q&token=r"), Some("q".to_string()));
    assert_eq!(extract_token_from_query("xtoken=1"), None);
    assert_eq!(extract_token_from_query("token=a=b&c"), Some("a=b".to_string()));
}

#[test]
fn links_carry_their_token() {
    let token = "eyJhbGciOiJIUzI1NiJ9.eyJzdWIiOiIxIn0.sig_-x";
    for url in [
        emp_preview_url(token, 2024, 2),
        emp_download_url(token, -3, 10),
        admin_preview_url(token, 1999, 7, "550e8400-e29b-41d4-a716-446655440000"),
        admin_download_url(token, 0, 0, "id"),
    ] {
        let query = url.split_once('?').unwrap().1;
        assert_eq!(extract_token_from_query(query), Some(token.to_string()));
    }
}

#[test]
fn bearer_header() {
    assert_eq!(strip_bearer("Bearer abc"), Some("abc".to_string()));
    assert_eq!(strip_bearer("Bearer "), Some(String::new()));
    assert_eq!(strip_bearer("bearer abc"), None);
    assert_eq!(strip_bearer("Bearer"), None);
}

#[test]
fn request_token_sources() {
    assert_eq!(token_of_request(Some("Bearer h"), Some("token=q")).unwrap(), "h");
    assert_eq!(token_of_request(Some("Basic h"), Some("token=q")).unwrap(), "q");
    assert_eq!(token_of_request(None, Some("a=1&token=q")).unwrap(), "q");
    assert!(matches!(token_of_request(None, Some("a=1")), Err(AppError::Unauthorized)));
    assert!(matches!(token_of_request(Some("Basic h"), None), Err(AppError::Unauthorized)));
    assert!(matches!(token_of_request(None, None), Err(AppError::Unauthorized)));
}

use payslip::access::{admin_payslip_lookup, authenticate, employee_payslip_lookup, PayslipLookup};
use payslip::error::AppError;
use payslip::model::{AdminPayslipQuery, PayslipQuery, UserRole};
use payslip::token::{claims_json, create_token, create_token_at, require_admin, verify_token, Claims};

fn claims(role: UserRole) -> Claims {
    Claims { sub: 0x550e8400_e29b_41d4_a716_446655440000, email: "a@b.c".to_string(), role, exp: 1700086400 }
}

#[test]
fn claims_are_signed_as_compact_json() {
    assert_eq!(
        claims_json(&claims(UserRole::Admin)),
        r#"{"sub":"550e8400-e29b-41d4-a716-446655440000","email":"a@b.c","role":"admin","exp":1700086400}"#
    );
    let odd = Claims { sub: 1, email: "q\"u\\o\n\u{1}\u{7f}é".to_string(), role: UserRole::Employee, exp: 0 };
    let expected = format!(
        "{{\"sub\":\"{}\",\"email\":{},\"role\":\"employee\",\"exp\":0}}",
        uuid::Uuid::from_u128(1).hyphenated(),
        serde_json::to_string(&odd.email).unwrap()
    );
    assert_eq!(claims_json(&odd), expected);
}

#[test]
fn issued_token_is_accepted_and_carries_claims() {
    let now = chrono::Utc::now().timestamp();
    let token = create_token_at("s3cret", 42, "e@x.io", UserRole::Employee, now).unwrap();
    assert_eq!(token.split('.').count(), 3);
    assert_ne!(token, claims_json(&Claims { sub: 42, email: "e@x.io".into(), role: UserRole::Employee, exp: (now + 86400) as usize }));
    let json = verify_token("s3cret", &token).unwrap();
    let v: serde_json::Value = serde_json::from_str(&json).unwrap();
    assert_eq!(v["sub"], uuid::Uuid::from_u128(42).to_string());
    assert_eq!(v["email"], "e@x.io");
    assert_eq!(v["role"], "employee");
    assert_eq!(v["exp"], (now + 86400) as u64);
    assert!(matches!(verify_token("other", &token), Err(AppError::Unauthorized)));
    assert!(matches!(verify_token("s3cret", "not.a.token"), Err(AppError::Unauthorized)));
}

#[test]
fn token_with_same_inputs_is_the_same() {
    let a = create_token_at("k", 1, "m@n.o", UserRole::Admin, 1_000).unwrap();
    let b = create_token_at("k", 1, "m@n.o", UserRole::Admin, 1_000).unwrap();
    assert_eq!(a, b);
    let c = create_token_at("k2", 1, "m@n.o", UserRole::Admin, 1_000).unwrap();
    assert_ne!(a, c);
}

#[test]
fn expired_token_is_refused() {
    let long_ago = chrono::Utc::now().timestamp() - 3 * 86400;
    let token = create_token_at("k", 1, "m@n.o", UserRole::Admin, long_ago).unwrap();
    assert!(matches!(verify_token("k", &token), Err(AppError::Unauthorized)));
}

#[test]
fn request_authentication() {
    let token = create_token("k", 9, "z@z.z", UserRole::Admin).unwrap();
    let header = format!("Bearer {token}");
    assert!(authenticate("k", Some(&header), None).is_ok());
    let query = format!("year=2024&token={token}");
    assert!(authenticate("k", None, Some(&query)).is_ok());
    assert!(matches!(authenticate("k", None, None), Err(AppError::Unauthorized)));
    assert!(matches!(authenticate("wrong", Some(&header), None), Err(AppError::Unauthorized)));
}

#[test]
fn only_admins_pass() {
    assert!(require_admin(&claims(UserRole::Admin)).is_ok());
    assert!(matches!(require_admin(&claims(UserRole::Employee)), Err(AppError::Forbidden)));
}

#[test]
fn payslip_lookups() {
    let q = PayslipQuery { year: 2024, month: 5 };
    let c = claims(UserRole::Employee);
    assert_eq!(employee_payslip_lookup(&c, &q), PayslipLookup { employee_id: c.sub, year: 2024, month: 5 });
    let aq = AdminPayslipQuery { year: 2023, month: 1, employee_id: 77 };
    assert_eq!(
        admin_payslip_lookup(&claims(UserRole::Admin), &aq).unwrap(),
        PayslipLookup { employee_id: 77, year: 2023, month: 1 }
    );
    assert!(matches!(admin_payslip_lookup(&c, &aq), Err(AppError::Forbidden)));
}

#[test]
fn checked_claims_are_the_issued_text() {
    let now = chrono::Utc::now().timestamp();
    let token = create_token_at("s3cret", 7, "x\"y@z.io", UserRole::Admin, now).unwrap();
    let issued = claims_json(&Claims { sub: 7, email: "x\"y@z.io".into(), role: UserRole::Admin, exp: (now + 86400) as usize });
    assert_eq!(verify_token("s3cret", &token).unwrap(), issued);
    let header = format!("Bearer {token}");
    assert_eq!(authenticate("s3cret", Some(&header), None).unwrap(), issued);
}

#[test]
fn only_tokens_signed_with_the_secret_and_an_expiry_pass() {
    let now = chrono::Utc::now().timestamp();
    let token = create_token_at("right", 3, "p@q.r", UserRole::Employee, now).unwrap();
    assert!(verify_token("right", &token).is_ok());
    assert!(matches!(verify_token("wrong", &token), Err(AppError::Unauthorized)));
    let key = jsonwebtoken::EncodingKey::from_secret(b"right");
    let mut no_exp = std::collections::BTreeMap::new();
    no_exp.insert("sub", uuid::Uuid::from_u128(3).to_string());
    no_exp.insert("email", "p@q.r".to_string());
    no_exp.insert("role", "employee".to_string());
    let unexpiring = jsonwebtoken::encode(&jsonwebtoken::Header::default(), &no_exp, &key).unwrap();
    assert!(matches!(verify_token("right", &unexpiring), Err(AppError::Unauthorized)));
}

#[test]
fn issuing_fails_only_for_out_of_range_times() {
    assert!(create_token("k", 1, "a@b.c", UserRole::Employee).is_ok());
    assert!(create_token_at("k", 1, "a@b.c", UserRole::Employee, i64::MAX - 86400).is_ok());
    assert!(matches!(create_token_at("k", 1, "a@b.c", UserRole::Employee, i64::MAX - 86399), Err(AppError::Internal(_))));
    assert!(create_token_at("k", 1, "a@b.c", UserRole::Employee, i64::MIN).is_ok());
}

use payslip::csv_import::{csv_preview, preview_from, upload_response};
use payslip::error::AppError;

const HEADER: &str = "employee_email,employee_name,employee_id,department,designation,pay_period_year,pay_period_month,basic,hra,conveyance,other_allowance,pf_deduction,tax_deduction,other_deduction,net_pay\n";

fn row(i: usize) -> String {
    format!("e{i}@c.com,Emp {i},{i},Ops,Clerk,2024,3,1000.00,200,50,10,120,80,0,1060\n")
}

#[test]
fn preview_shows_first_five_rows() {
    let mut data = HEADER.to_string();
    for i in 0..7 {
        data.push_str(&row(i));
    }
    let p = csv_preview(data.as_bytes()).unwrap();
    assert_eq!(p.headers.len(), 15);
    assert_eq!(p.headers[0], "employee_email");
    assert_eq!(p.total, 7);
    assert_eq!(p.rows.len(), 5);
    assert_eq!(p.rows[4][0], "e4@c.com");
    assert_eq!(p.rows[0][7], "1000.00");
}

#[test]
fn preview_of_a_short_file() {
    let data = format!("{HEADER}{}{}", row(1), row(2));
    let p = csv_preview(data.as_bytes()).unwrap();
    assert_eq!(p.total, 2);
    assert_eq!(p.rows.len(), 2);
    let only_header = csv_preview(HEADER.as_bytes()).unwrap();
    assert_eq!(only_header.total, 0);
    assert!(only_header.rows.is_empty());
}

#[test]
fn preview_refuses_a_broken_row() {
    let data = format!("{HEADER}{}a,b\n", row(1));
    match csv_preview(data.as_bytes()) {
        Err(AppError::BadRequest(m)) => assert_eq!(m, "CSV parse error"),
        other => panic!("unexpected {other:?}"),
    }
}

#[test]
fn preview_refuses_a_broken_header() {
    let data: &[u8] = b"a,\xff\xfe\n1,2\n";
    match csv_preview(data) {
        Err(AppError::BadRequest(m)) => assert_eq!(m, "Bad CSV headers"),
        other => panic!("unexpected {other:?}"),
    }
}

#[test]
fn upload_answer() {
    let r = upload_response(3);
    assert_eq!(r.uploaded, 3);
    assert_eq!(r.message, "Successfully uploaded 3 records");
}

#[test]
fn preview_from_read_rows() {
    let headers = vec!["a".to_string(), "b".to_string()];
    let rows: Vec<Vec<String>> = (0..8).map(|i| vec![i.to_string(), "x".to_string()]).collect();
    let p = preview_from(headers.clone(), Some(rows.clone())).unwrap();
    assert_eq!(p.headers, headers);
    assert_eq!(p.total, 8);
    assert_eq!(p.rows, rows[..5].to_vec());
    let q = preview_from(headers.clone(), Some(rows[..3].to_vec())).unwrap();
    assert_eq!(q.total, 3);
    assert_eq!(q.rows, rows[..3].to_vec());
    match preview_from(headers, None) {
        Err(AppError::BadRequest(m)) => assert_eq!(m, "CSV parse error"),
        other => panic!("unexpected {other:?}"),
    }
}

//! Previews of uploaded payroll CSV files, and the answer to an upload.

use vstd::prelude::*;

use crate::error::AppError;
use crate::model::{CsvPreviewResponse, UploadResponse};
use crate::access::text_of;
use crate::text::{nat_digits, owned, push_nat_digits, same_text};

verus! {

/// The fields of the header row of a CSV file, as the `csv` crate's reader
/// (default settings) gives them; `None` where it reports an error.
pub uninterp spec fn csv_header_fields(bytes: Seq<u8>) -> Option<Seq<Seq<char>>>;

/// The fields of each data row of a CSV file, as the `csv` crate's reader
/// (default settings) gives them; `None` where it reports an error for any
/// row.
pub uninterp spec fn csv_data_rows(bytes: Seq<u8>) -> Option<Seq<Seq<Seq<char>>>>;

/// Reads the header row with `csv::Reader::headers` on a reader with the
/// default settings (the first row is the header, every row must have as
/// many fields as it). The result is a function of the bytes alone, named by
/// `csv_header_fields`.
#[verifier::external_body]
fn read_csv_header(bytes: &[u8]) -> (r: Option<Vec<String>>)
    ensures
        r.deep_view() == csv_header_fields(bytes@),
{
    let mut reader = csv::Reader::from_reader(bytes);
    let header = reader.headers().ok()?;
    Some(header.iter().map(String::from).collect())
}

/// Reads every data row with `csv::Reader::records` on a reader with the
/// default settings, failing where any row fails. The result is a function
/// of the bytes alone, named by `csv_data_rows`.
#[verifier::external_body]
fn read_csv_rows(bytes: &[u8]) -> (r: Option<Vec<Vec<String>>>)
    ensures
        r.deep_view() == csv_data_rows(bytes@),
{
    let mut reader = csv::Reader::from_reader(bytes);
    reader.records().map(|row| row.map(|fields| fields.iter().map(String::from).collect())).collect::<
        Result<Vec<Vec<String>>, csv::Error>,
    >().ok()
}

/// How many rows a preview shows.
pub open spec fn preview_rows() -> int {
    5
}

/// The rows that a preview of `all` shows: the first five, or all of them
/// where there are fewer.
pub open spec fn shown_rows(all: Seq<Seq<Seq<char>>>) -> Seq<Seq<Seq<char>>> {
    if all.len() <= preview_rows() {
        all
    } else {
        all.take(preview_rows())
    }
}

/// The preview of a file whose header row reads as `headers` and whose data
/// rows read as `rows` (`None` where a row could not be read): the header,
/// the first five rows and how many rows there are, or "CSV parse error".
pub fn preview_from(headers: Vec<String>, rows: Option<Vec<Vec<String>>>) -> (r: Result<CsvPreviewResponse, AppError>)
    ensures
        rows is None ==> (r matches Err(AppError::BadRequest(m)) && m@ == "CSV parse error"@),
        rows matches Some(all) ==> (r matches Ok(p) && {
            &&& p.headers.deep_view() == headers.deep_view()
            &&& p.total == all.len()
            &&& p.rows.deep_view() == shown_rows(all.deep_view())
            &&& p.rows.len() == (if all.len() < 5 { all.len() } else { 5 })
            &&& forall|i: int| 0 <= i < p.rows.len() ==> #[trigger] p.rows.deep_view()[i] == all.deep_view()[i]
        }),
{
    let mut rows = match rows {
        Some(r) => r,
        None => return Err(AppError::bad_request("CSV parse error")),
    };
    let total = rows.len();
    let ghost all = rows.deep_view();
    rows.truncate(5);
    proof {
        if total > 5 {
            assert(rows.deep_view() =~= all.take(5));
        } else {
            assert(rows.deep_view() =~= all);
        }
    }
    Ok(CsvPreviewResponse { headers, rows, total })
}

/// The preview of an uploaded CSV file: its header, its first five data
/// rows and how many data rows it has. A file whose header cannot be read
/// is refused with "Bad CSV headers", one with a row that cannot be read
/// with "CSV parse error".
pub fn csv_preview(bytes: &[u8]) -> (r: Result<CsvPreviewResponse, AppError>)
    ensures
        csv_header_fields(bytes@) is None ==> (r matches Err(AppError::BadRequest(m))
            && m@ == "Bad CSV headers"@),
        csv_header_fields(bytes@) is Some && csv_data_rows(bytes@) is None ==> (r matches Err(
            AppError::BadRequest(m),
        ) && m@ == "CSV parse error"@),
        csv_header_fields(bytes@) is Some && csv_data_rows(bytes@) is Some ==> (r matches Ok(p) && {
            let all = csv_data_rows(bytes@).unwrap();
            &&& Some(p.headers.deep_view()) == csv_header_fields(bytes@)
            &&& p.total == all.len()
            &&& p.rows.deep_view() == shown_rows(all)
            &&& p.rows.len() == (if all.len() < 5 { all.len() } else { 5 })
            &&& forall|i: int| 0 <= i < p.rows.len() ==> #[trigger] p.rows.deep_view()[i] == all[i]
        }),
{
    let headers = match read_csv_header(bytes) {
        Some(h) => h,
        None => return Err(AppError::bad_request("Bad CSV headers")),
    };
    preview_from(headers, read_csv_rows(bytes))
}

/// The answer to an upload that stored `count` payslips.
pub fn upload_response(count: usize) -> (r: UploadResponse)
    ensures
        r.uploaded == count,
        r.message@ == "Successfully uploaded "@ + nat_digits(count as nat) + " records"@,
{
    let mut message = owned("Successfully uploaded ");
    push_nat_digits(&mut message, count as u64);
    message.append(" records");
    UploadResponse { uploaded: count, message }
}

/// Whether a field of an upload form is the one that carries the file: the
/// field named `file`.
pub fn is_upload_field(name: Option<&str>) -> (b: bool)
    ensures
        b == (text_of(name) == Some("file"@)),
{
    match name {
        Some(n) => same_text(n, "file"),
        None => false,
    }
}

/// The answer to an upload form without a `file` field.
pub fn missing_upload_field() -> (e: AppError)
    ensures
        e matches AppError::BadRequest(m) && m@ == "No 'file' field"@,
{
    AppError::bad_request("No 'file' field")
}

/// A preview never shows more than five rows: it shows the first
/// `min(5, n)` rows of a file with `n` data rows, in their order.
pub proof fn lemma_preview_is_first_five(all: Seq<Seq<Seq<char>>>)
    ensures
        shown_rows(all).len() == (if all.len() < 5 { all.len() } else { 5 }),
        forall|i: int| 0 <= i < shown_rows(all).len() ==> #[trigger] shown_rows(all)[i] == all[i],
{
}

} // verus!

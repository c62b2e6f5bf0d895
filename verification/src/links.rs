//! Links to payslip PDFs and the access token they carry, and how the service
//! finds the token of a request.

use vstd::prelude::*;

use crate::text::{
    chars_of, int_decimal, is_digit, lemma_decimal_roundtrip, lemma_int_decimal_chars, owned,
    parse_int, push_int_decimal, string_from_chars,
};

verus! {

/// Index of the first `c` in `s`, or the length of `s` where there is none.
pub open spec fn first_index(s: Seq<char>, c: char) -> int
    decreases s.len(),
{
    if s.len() == 0 {
        0
    } else if s[0] == c {
        0
    } else {
        1 + first_index(s.drop_first(), c)
    }
}

/// `first_index` lies within the sequence, and names `c` unless it is the length.
pub proof fn lemma_first_index_bounds(s: Seq<char>, c: char)
    ensures
        0 <= first_index(s, c) <= s.len(),
        first_index(s, c) < s.len() ==> s[first_index(s, c)] == c,
        forall|k: int| 0 <= k < first_index(s, c) ==> s[k] != c,
    decreases s.len(),
{
    if s.len() > 0 && s[0] != c {
        lemma_first_index_bounds(s.drop_first(), c);
        assert forall|k: int| 0 <= k < first_index(s, c) implies s[k] != c by {
            if k > 0 {
                assert(s[k] == s.drop_first()[k - 1]);
            }
        }
    }
}

/// The first `c` in `s` is at `m` when `s[..m]` holds none and `s[m]` is one.
pub proof fn lemma_first_index_at(s: Seq<char>, c: char, m: int)
    requires
        0 <= m <= s.len(),
        forall|k: int| 0 <= k < m ==> s[k] != c,
        m == s.len() || s[m] == c,
    ensures
        first_index(s, c) == m,
    decreases m,
{
    if m > 0 {
        let t = s.drop_first();
        assert forall|k: int| 0 <= k < m - 1 implies t[k] != c by {
            assert(t[k] == s[k + 1]);
        }
        lemma_first_index_at(t, c, m - 1);
    }
}

/// The name-value pair that carries the token in a query string.
pub open spec fn token_key() -> Seq<char> {
    seq!['t', 'o', 'k', 'e', 'n', '=']
}

/// The token that a query string carries: the rest of the first
/// `&`-separated pair that starts with `token=`, if any.
pub open spec fn query_token(q: Seq<char>) -> Option<Seq<char>>
    decreases q.len(),
{
    let i = first_index(q, '&');
    let pair = q.take(i);
    if pair.len() >= 6 && pair.take(6) == token_key() {
        Some(pair.skip(6))
    } else if 0 <= i < q.len() {
        query_token(q.skip(i + 1))
    } else {
        None
    }
}

/// Finds the token in the query string of a request: the value of the first
/// `&`-separated pair that starts with `token=`.
#[verifier::loop_isolation(false)]
pub fn extract_token_from_query(query: &str) -> (r: Option<String>)
    ensures
        r matches Some(t) ==> query_token(query@) == Some(t@),
        r is None ==> query_token(query@) is None,
{
    let chars = chars_of(query);
    let n = chars.len();
    let mut start: usize = 0;
    proof {
        assert(query@.skip(0) =~= query@);
    }
    loop
        invariant
            chars@ == query@,
            n == chars@.len(),
            start <= n,
            query_token(query@) == query_token(query@.skip(start as int)),
        decreases n - start,
    {
        let ghost rest = query@.skip(start as int);
        let mut j: usize = start;
        while j < n && chars[j] != '&'
            invariant
                start <= j <= n,
                forall|k: int| start <= k < j ==> chars@[k] != '&',
            decreases n - j,
        {
            j = j + 1;
        }
        proof {
            assert forall|k: int| 0 <= k < j - start implies rest[k] != '&' by {
                assert(rest[k] == chars@[k + start]);
            }
            if j < n {
                assert(rest[j - start] == chars@[j as int]);
            }
            lemma_first_index_at(rest, '&', j - start);
            assert(rest.take(j - start) =~= chars@.subrange(start as int, j as int));
        }
        if j - start >= 6 && chars[start] == 't' && chars[start + 1] == 'o' && chars[start + 2]
            == 'k' && chars[start + 3] == 'e' && chars[start + 4] == 'n' && chars[start + 5] == '=' {
            proof {
                assert(rest.take(j - start).take(6) =~= token_key());
                assert(rest.take(j - start).skip(6) =~= chars@.subrange(start + 6, j as int));
            }
            return Some(string_from_chars(&chars, start + 6, j));
        }
        proof {
            let pair = rest.take(j - start);
            if pair.len() >= 6 {
                assert(pair.take(6) != token_key()) by {
                    if pair.take(6) == token_key() {
                        assert(pair.take(6)[0] == chars@[start as int]);
                        assert(pair.take(6)[1] == chars@[start + 1]);
                        assert(pair.take(6)[2] == chars@[start + 2]);
                        assert(pair.take(6)[3] == chars@[start + 3]);
                        assert(pair.take(6)[4] == chars@[start + 4]);
                        assert(pair.take(6)[5] == chars@[start + 5]);
                    }
                }
            }
        }
        if j == n {
            return None;
        }
        proof {
            assert(rest.skip(j - start + 1) =~= query@.skip(j + 1));
        }
        start = j + 1;
    }
}

/// The link that previews an employee's payslip in the administrator's view.
pub open spec fn admin_preview_link(token: Seq<char>, year: int, month: int, emp_id: Seq<char>) -> Seq<char> {
    "http://localhost:3001/api/admin/payslip/preview?year="@ + int_decimal(year) + "&month="@
        + int_decimal(month) + "&employee_id="@ + emp_id + "&token="@ + token
}

/// The link that downloads an employee's payslip in the administrator's view.
pub open spec fn admin_download_link(token: Seq<char>, year: int, month: int, emp_id: Seq<char>) -> Seq<char> {
    "http://localhost:3001/api/admin/payslip/download?year="@ + int_decimal(year) + "&month="@
        + int_decimal(month) + "&employee_id="@ + emp_id + "&token="@ + token
}

/// The link that previews the signed-in employee's own payslip.
pub open spec fn emp_preview_link(token: Seq<char>, year: int, month: int) -> Seq<char> {
    "http://localhost:3001/api/employee/payslip/preview?year="@ + int_decimal(year) + "&month="@
        + int_decimal(month) + "&token="@ + token
}

/// The link that downloads the signed-in employee's own payslip.
pub open spec fn emp_download_link(token: Seq<char>, year: int, month: int) -> Seq<char> {
    "http://localhost:3001/api/employee/payslip/download?year="@ + int_decimal(year) + "&month="@
        + int_decimal(month) + "&token="@ + token
}

/// Link to preview the payslip of employee `emp_id` for `month` of `year`,
/// carrying the access token in the query so that a frame can show it.
pub fn admin_preview_url(token: &str, year: i32, month: i32, emp_id: &str) -> (url: String)
    ensures
        url@ == admin_preview_link(token@, year as int, month as int, emp_id@),
{
    let mut s = owned("http://localhost:3001/api/admin/payslip/preview?year=");
    push_int_decimal(&mut s, year as i64);
    s.append("&month=");
    push_int_decimal(&mut s, month as i64);
    s.append("&employee_id=");
    s.append(emp_id);
    s.append("&token=");
    s.append(token);
    proof {
        assert(s@ =~= admin_preview_link(token@, year as int, month as int, emp_id@));
    }
    s
}

/// Link to download the payslip of employee `emp_id` for `month` of `year`.
pub fn admin_download_url(token: &str, year: i32, month: i32, emp_id: &str) -> (url: String)
    ensures
        url@ == admin_download_link(token@, year as int, month as int, emp_id@),
{
    let mut s = owned("http://localhost:3001/api/admin/payslip/download?year=");
    push_int_decimal(&mut s, year as i64);
    s.append("&month=");
    push_int_decimal(&mut s, month as i64);
    s.append("&employee_id=");
    s.append(emp_id);
    s.append("&token=");
    s.append(token);
    proof {
        assert(s@ =~= admin_download_link(token@, year as int, month as int, emp_id@));
    }
    s
}

/// Link to preview the signed-in employee's payslip for `month` of `year`.
pub fn emp_preview_url(token: &str, year: i32, month: i32) -> (url: String)
    ensures
        url@ == emp_preview_link(token@, year as int, month as int),
{
    let mut s = owned("http://localhost:3001/api/employee/payslip/preview?year=");
    push_int_decimal(&mut s, year as i64);
    s.append("&month=");
    push_int_decimal(&mut s, month as i64);
    s.append("&token=");
    s.append(token);
    proof {
        assert(s@ =~= emp_preview_link(token@, year as int, month as int));
    }
    s
}

/// Link to download the signed-in employee's payslip for `month` of `year`.
pub fn emp_download_url(token: &str, year: i32, month: i32) -> (url: String)
    ensures
        url@ == emp_download_link(token@, year as int, month as int),
{
    let mut s = owned("http://localhost:3001/api/employee/payslip/download?year=");
    push_int_decimal(&mut s, year as i64);
    s.append("&month=");
    push_int_decimal(&mut s, month as i64);
    s.append("&token=");
    s.append(token);
    proof {
        assert(s@ =~= emp_download_link(token@, year as int, month as int));
    }
    s
}

/// The query string of a link: what follows its first `?`.
pub open spec fn query_of(url: Seq<char>) -> Seq<char> {
    url.skip(first_index(url, '?') + 1)
}

proof fn lemma_first_index_concat(a: Seq<char>, b: Seq<char>, c: char)
    requires
        forall|k: int| 0 <= k < a.len() ==> a[k] != c,
    ensures
        first_index(a + b, c) == a.len() + first_index(b, c),
    decreases a.len(),
{
    if a.len() > 0 {
        assert((a + b).drop_first() =~= a.drop_first() + b);
        lemma_first_index_concat(a.drop_first(), b, c);
    } else {
        assert(a + b =~= b);
    }
}

proof fn lemma_decimal_free_of(n: int, c: char)
    requires
        c != '-',
        !is_digit(c),
    ensures
        forall|k: int| 0 <= k < int_decimal(n).len() ==> int_decimal(n)[k] != c,
{
    lemma_int_decimal_chars(n);
}

/// A query string whose pairs before the last are `key=value` pairs whose
/// keys do not start with `t` carries the token of its last pair.
proof fn lemma_query_token_skips(head: Seq<char>, tail: Seq<char>)
    requires
        head.len() > 0,
        head[0] != 't',
        forall|k: int| 0 <= k < head.len() ==> head[k] != '&',
    ensures
        query_token(head + "&"@ + tail) == query_token(tail),
{
    reveal_strlit("&");
    let q = head + "&"@ + tail;
    assert(q =~= head + ("&"@ + tail));
    lemma_first_index_concat(head, "&"@ + tail, '&');
    assert(("&"@ + tail)[0] == '&');
    assert(first_index("&"@ + tail, '&') == 0);
    assert(q.take(head.len() as int) =~= head);
    assert(q.skip(head.len() as int + 1) =~= tail);
    if head.len() >= 6 {
        assert(head.take(6)[0] != token_key()[0]);
    }
}

proof fn lemma_query_token_last(value: Seq<char>)
    requires
        forall|k: int| 0 <= k < value.len() ==> value[k] != '&',
    ensures
        query_token("token="@ + value) == Some(value),
{
    reveal_strlit("token=");
    let q = "token="@ + value;
    assert forall|k: int| 0 <= k < q.len() implies q[k] != '&' by {
        if k >= 6 {
            assert(q[k] == value[k - 6]);
        }
    }
    lemma_first_index_at(q, '&', q.len() as int);
    assert(q.take(q.len() as int) =~= q);
    assert(q.take(6) =~= token_key());
    assert(q.skip(6) =~= value);
}

/// The query string of a link with the path `path` and the query `query`.
proof fn lemma_query_of_link(path: Seq<char>, query: Seq<char>)
    requires
        forall|k: int| 0 <= k < path.len() ==> path[k] != '?',
    ensures
        query_of(path + "?"@ + query) == query,
{
    reveal_strlit("?");
    let url = path + "?"@ + query;
    assert(url =~= path + ("?"@ + query));
    lemma_first_index_concat(path, "?"@ + query, '?');
    assert(("?"@ + query)[0] == '?');
    assert(first_index("?"@ + query, '?') == 0);
    assert(url.skip(path.len() as int + 1) =~= query);
}

/// The query string of a link to an employee's own payslip.
pub open spec fn emp_link_query(token: Seq<char>, year: int, month: int) -> Seq<char> {
    "year="@ + int_decimal(year) + "&month="@ + int_decimal(month) + "&token="@ + token
}

/// The query string of a link to a payslip in the administrator's view.
pub open spec fn admin_link_query(token: Seq<char>, year: int, month: int, emp_id: Seq<char>) -> Seq<char> {
    "year="@ + int_decimal(year) + "&month="@ + int_decimal(month) + "&employee_id="@ + emp_id
        + "&token="@ + token
}

proof fn lemma_pair_free_of_amp(key: Seq<char>, value: Seq<char>)
    requires
        forall|k: int| 0 <= k < key.len() ==> key[k] != '&',
        forall|k: int| 0 <= k < value.len() ==> value[k] != '&',
    ensures
        forall|k: int| 0 <= k < (key + value).len() ==> (key + value)[k] != '&',
{
    assert forall|k: int| 0 <= k < (key + value).len() implies (key + value)[k] != '&' by {
        if k >= key.len() {
            assert((key + value)[k] == value[k - key.len()]);
        } else {
            assert((key + value)[k] == key[k]);
        }
    }
}

proof fn lemma_emp_query_token(token: Seq<char>, year: int, month: int)
    requires
        forall|k: int| 0 <= k < token.len() ==> token[k] != '&',
    ensures
        query_token(emp_link_query(token, year, month)) == Some(token),
{
    reveal_strlit("&month=");
    reveal_strlit("&token=");
    reveal_strlit("year=");
    reveal_strlit("month=");
    reveal_strlit("token=");
    reveal_strlit("&");
    lemma_decimal_free_of(year, '&');
    lemma_decimal_free_of(month, '&');
    let y = int_decimal(year);
    let m = int_decimal(month);
    let last = "token="@ + token;
    lemma_query_token_last(token);
    let mpair = "month="@ + m;
    lemma_pair_free_of_amp("month="@, m);
    let rest = mpair + "&"@ + last;
    lemma_query_token_skips(mpair, last);
    let ypair = "year="@ + y;
    lemma_pair_free_of_amp("year="@, y);
    lemma_query_token_skips(ypair, rest);
    assert(emp_link_query(token, year, month) =~= ypair + "&"@ + rest);
}

proof fn lemma_admin_query_token(token: Seq<char>, year: int, month: int, emp_id: Seq<char>)
    requires
        forall|k: int| 0 <= k < token.len() ==> token[k] != '&',
        forall|k: int| 0 <= k < emp_id.len() ==> emp_id[k] != '&',
    ensures
        query_token(admin_link_query(token, year, month, emp_id)) == Some(token),
{
    reveal_strlit("&month=");
    reveal_strlit("&employee_id=");
    reveal_strlit("&token=");
    reveal_strlit("year=");
    reveal_strlit("month=");
    reveal_strlit("employee_id=");
    reveal_strlit("token=");
    reveal_strlit("&");
    lemma_decimal_free_of(year, '&');
    lemma_decimal_free_of(month, '&');
    let y = int_decimal(year);
    let m = int_decimal(month);
    let last = "token="@ + token;
    lemma_query_token_last(token);
    let epair = "employee_id="@ + emp_id;
    lemma_pair_free_of_amp("employee_id="@, emp_id);
    let erest = epair + "&"@ + last;
    lemma_query_token_skips(epair, last);
    let mpair = "month="@ + m;
    lemma_pair_free_of_amp("month="@, m);
    let mrest = mpair + "&"@ + erest;
    lemma_query_token_skips(mpair, erest);
    let ypair = "year="@ + y;
    lemma_pair_free_of_amp("year="@, y);
    lemma_query_token_skips(ypair, mrest);
    assert(admin_link_query(token, year, month, emp_id) =~= ypair + "&"@ + mrest);
}

proof fn lemma_no_question_mark(path: Seq<char>)
    requires
        path == "http://localhost:3001/api/employee/payslip/preview"@ || path
            == "http://localhost:3001/api/employee/payslip/download"@ || path
            == "http://localhost:3001/api/admin/payslip/preview"@ || path
            == "http://localhost:3001/api/admin/payslip/download"@,
    ensures
        forall|k: int| 0 <= k < path.len() ==> path[k] != '?',
{
    if path == "http://localhost:3001/api/employee/payslip/preview"@ {
        reveal_strlit("http://localhost:3001/api/employee/payslip/preview");
    } else if path == "http://localhost:3001/api/employee/payslip/download"@ {
        reveal_strlit("http://localhost:3001/api/employee/payslip/download");
    } else if path == "http://localhost:3001/api/admin/payslip/preview"@ {
        reveal_strlit("http://localhost:3001/api/admin/payslip/preview");
    } else {
        reveal_strlit("http://localhost:3001/api/admin/payslip/download");
    }
}

proof fn lemma_link_split(link: Seq<char>, prefix: Seq<char>, path: Seq<char>, query: Seq<char>)
    requires
        link == prefix + query.skip(5),
        prefix == path + "?year="@,
        query.take(5) == "year="@,
        query.len() >= 5,
    ensures
        link == path + "?"@ + query,
{
    reveal_strlit("?year=");
    reveal_strlit("?");
    reveal_strlit("year=");
    assert(query =~= query.take(5) + query.skip(5));
    assert(link =~= path + "?"@ + query);
}

/// The query strings of the links to an employee's own payslip.
proof fn lemma_emp_link_queries(token: Seq<char>, year: int, month: int)
    ensures
        query_of(emp_preview_link(token, year, month)) == emp_link_query(token, year, month),
        query_of(emp_download_link(token, year, month)) == emp_link_query(token, year, month),
{
    let q = emp_link_query(token, year, month);
    reveal_strlit("year=");
    assert(q.take(5) =~= "year="@);
    let pp = "http://localhost:3001/api/employee/payslip/preview"@;
    let dp = "http://localhost:3001/api/employee/payslip/download"@;
    assert("http://localhost:3001/api/employee/payslip/preview?year="@ == pp + "?year="@) by {
        reveal_strlit("http://localhost:3001/api/employee/payslip/preview?year=");
        reveal_strlit("http://localhost:3001/api/employee/payslip/preview");
        reveal_strlit("?year=");
        assert("http://localhost:3001/api/employee/payslip/preview?year="@ =~= pp + "?year="@);
    }
    assert("http://localhost:3001/api/employee/payslip/download?year="@ == dp + "?year="@) by {
        reveal_strlit("http://localhost:3001/api/employee/payslip/download?year=");
        reveal_strlit("http://localhost:3001/api/employee/payslip/download");
        reveal_strlit("?year=");
        assert("http://localhost:3001/api/employee/payslip/download?year="@ =~= dp + "?year="@);
    }
    assert(emp_preview_link(token, year, month) =~= "http://localhost:3001/api/employee/payslip/preview?year="@ + q.skip(5));
    assert(emp_download_link(token, year, month) =~= "http://localhost:3001/api/employee/payslip/download?year="@ + q.skip(5));
    lemma_link_split(emp_preview_link(token, year, month), "http://localhost:3001/api/employee/payslip/preview?year="@, pp, q);
    lemma_link_split(emp_download_link(token, year, month), "http://localhost:3001/api/employee/payslip/download?year="@, dp, q);
    lemma_no_question_mark(pp);
    lemma_no_question_mark(dp);
    lemma_query_of_link(pp, q);
    lemma_query_of_link(dp, q);
}

/// A link to an employee's own payslip carries the token in its query
/// string, where the service finds it again: for every token without `&`
/// (tokens are base64url text and dots), year and month.
pub proof fn lemma_emp_links_carry_token(token: Seq<char>, year: int, month: int)
    requires
        forall|k: int| 0 <= k < token.len() ==> token[k] != '&',
    ensures
        query_token(query_of(emp_preview_link(token, year, month))) == Some(token),
        query_token(query_of(emp_download_link(token, year, month))) == Some(token),
{
    lemma_emp_query_token(token, year, month);
    lemma_emp_link_queries(token, year, month);
}

/// The query strings of the links to a payslip in the administrator's view.
proof fn lemma_admin_link_queries(token: Seq<char>, year: int, month: int, emp_id: Seq<char>)
    ensures
        query_of(admin_preview_link(token, year, month, emp_id)) == admin_link_query(token, year, month, emp_id),
        query_of(admin_download_link(token, year, month, emp_id)) == admin_link_query(token, year, month, emp_id),
{
    let q = admin_link_query(token, year, month, emp_id);
    reveal_strlit("year=");
    assert(q.take(5) =~= "year="@);
    let pp = "http://localhost:3001/api/admin/payslip/preview"@;
    let dp = "http://localhost:3001/api/admin/payslip/download"@;
    assert("http://localhost:3001/api/admin/payslip/preview?year="@ == pp + "?year="@) by {
        reveal_strlit("http://localhost:3001/api/admin/payslip/preview?year=");
        reveal_strlit("http://localhost:3001/api/admin/payslip/preview");
        reveal_strlit("?year=");
        assert("http://localhost:3001/api/admin/payslip/preview?year="@ =~= pp + "?year="@);
    }
    assert("http://localhost:3001/api/admin/payslip/download?year="@ == dp + "?year="@) by {
        reveal_strlit("http://localhost:3001/api/admin/payslip/download?year=");
        reveal_strlit("http://localhost:3001/api/admin/payslip/download");
        reveal_strlit("?year=");
        assert("http://localhost:3001/api/admin/payslip/download?year="@ =~= dp + "?year="@);
    }
    assert(admin_preview_link(token, year, month, emp_id) =~= "http://localhost:3001/api/admin/payslip/preview?year="@ + q.skip(5));
    assert(admin_download_link(token, year, month, emp_id) =~= "http://localhost:3001/api/admin/payslip/download?year="@ + q.skip(5));
    lemma_link_split(admin_preview_link(token, year, month, emp_id), "http://localhost:3001/api/admin/payslip/preview?year="@, pp, q);
    lemma_link_split(admin_download_link(token, year, month, emp_id), "http://localhost:3001/api/admin/payslip/download?year="@, dp, q);
    lemma_no_question_mark(pp);
    lemma_no_question_mark(dp);
    lemma_query_of_link(pp, q);
    lemma_query_of_link(dp, q);
}

/// A link to any employee's payslip in the administrator's view carries the
/// token in its query string, where the service finds it again: for every
/// token and employee id without `&`, year and month.
pub proof fn lemma_admin_links_carry_token(token: Seq<char>, year: int, month: int, emp_id: Seq<char>)
    requires
        forall|k: int| 0 <= k < token.len() ==> token[k] != '&',
        forall|k: int| 0 <= k < emp_id.len() ==> emp_id[k] != '&',
    ensures
        query_token(query_of(admin_preview_link(token, year, month, emp_id))) == Some(token),
        query_token(query_of(admin_download_link(token, year, month, emp_id))) == Some(token),
{
    lemma_admin_query_token(token, year, month, emp_id);
    lemma_admin_link_queries(token, year, month, emp_id);
}

/// The value of the first `&`-separated pair of a query string that starts
/// with `key` (such as `month=`): the rest of that pair.
pub open spec fn query_param(q: Seq<char>, key: Seq<char>) -> Option<Seq<char>>
    decreases q.len(),
{
    let i = first_index(q, '&');
    let pair = q.take(i);
    if pair.len() >= key.len() && pair.take(key.len() as int) == key {
        Some(pair.skip(key.len() as int))
    } else if 0 <= i < q.len() {
        query_param(q.skip(i + 1), key)
    } else {
        None
    }
}

proof fn lemma_query_param_first(key: Seq<char>, value: Seq<char>, rest: Seq<char>)
    requires
        forall|k: int| 0 <= k < key.len() ==> key[k] != '&',
        forall|k: int| 0 <= k < value.len() ==> value[k] != '&',
        rest.len() == 0 || rest[0] == '&',
    ensures
        query_param(key + value + rest, key) == Some(value),
{
    let pair = key + value;
    let q = key + value + rest;
    lemma_pair_free_of_amp(key, value);
    assert forall|k: int| 0 <= k < pair.len() implies q[k] != '&' by {
        assert(q[k] == pair[k]);
    }
    if rest.len() > 0 {
        assert(q[pair.len() as int] == rest[0]);
    }
    lemma_first_index_at(q, '&', pair.len() as int);
    assert(q.take(pair.len() as int) =~= pair);
    assert(pair.take(key.len() as int) =~= key);
    assert(pair.skip(key.len() as int) =~= value);
}

proof fn lemma_query_param_skips(head: Seq<char>, tail: Seq<char>, key: Seq<char>)
    requires
        head.len() > 0,
        key.len() > 0,
        head[0] != key[0],
        forall|k: int| 0 <= k < head.len() ==> head[k] != '&',
    ensures
        query_param(head + "&"@ + tail, key) == query_param(tail, key),
{
    reveal_strlit("&");
    let q = head + "&"@ + tail;
    assert(q =~= head + ("&"@ + tail));
    lemma_first_index_concat(head, "&"@ + tail, '&');
    assert(("&"@ + tail)[0] == '&');
    assert(first_index("&"@ + tail, '&') == 0);
    assert(q.take(head.len() as int) =~= head);
    assert(q.skip(head.len() as int + 1) =~= tail);
    if head.len() >= key.len() {
        assert(head.take(key.len() as int)[0] != key[0]);
    }
}

/// The `year=` and `month=` pairs of a link's query string, given as the
/// decimal text of the year and month.
proof fn lemma_period_pairs(year: int, month: int, after: Seq<char>)
    ensures
        query_param("year="@ + int_decimal(year) + "&month="@ + int_decimal(month) + after, "year="@)
            == Some(int_decimal(year)),
        after.len() == 0 || after[0] == '&' ==> query_param(
            "year="@ + int_decimal(year) + "&month="@ + int_decimal(month) + after,
            "month="@,
        ) == Some(int_decimal(month)),
{
    reveal_strlit("year=");
    reveal_strlit("month=");
    reveal_strlit("&month=");
    reveal_strlit("&");
    lemma_decimal_free_of(year, '&');
    lemma_decimal_free_of(month, '&');
    let y = int_decimal(year);
    let m = int_decimal(month);
    let q = "year="@ + y + "&month="@ + m + after;
    assert(q =~= "year="@ + y + ("&month="@ + m + after));
    assert(("&month="@ + m + after)[0] == '&');
    lemma_query_param_first("year="@, y, "&month="@ + m + after);
    if after.len() == 0 || after[0] == '&' {
        let ypair = "year="@ + y;
        lemma_pair_free_of_amp("year="@, y);
        let tail = "month="@ + m + after;
        assert(q =~= ypair + "&"@ + tail);
        lemma_query_param_skips(ypair, tail, "month="@);
        lemma_query_param_first("month="@, m, after);
    }
}

/// A link to an employee's own payslip carries the period asked for: the
/// `year=` and `month=` pairs of its query string read back, as the service
/// parses them, as that year and that month.
pub proof fn lemma_emp_links_carry_period(token: Seq<char>, year: int, month: int)
    requires
        i32::MIN <= year <= i32::MAX,
        i32::MIN <= month <= i32::MAX,
    ensures
        query_param(query_of(emp_preview_link(token, year, month)), "year="@) matches Some(y)
            && parse_int(y, i32::MIN as int, i32::MAX as int) == Some(year),
        query_param(query_of(emp_preview_link(token, year, month)), "month="@) matches Some(m)
            && parse_int(m, i32::MIN as int, i32::MAX as int) == Some(month),
        query_param(query_of(emp_download_link(token, year, month)), "year="@) matches Some(y)
            && parse_int(y, i32::MIN as int, i32::MAX as int) == Some(year),
        query_param(query_of(emp_download_link(token, year, month)), "month="@) matches Some(m)
            && parse_int(m, i32::MIN as int, i32::MAX as int) == Some(month),
{
    lemma_emp_link_queries(token, year, month);
    reveal_strlit("&token=");
    let after = "&token="@ + token;
    assert(emp_link_query(token, year, month) =~= "year="@ + int_decimal(year) + "&month="@ + int_decimal(month) + after);
    lemma_period_pairs(year, month, after);
    lemma_decimal_roundtrip(year, i32::MIN as int, i32::MAX as int);
    lemma_decimal_roundtrip(month, i32::MIN as int, i32::MAX as int);
}

/// A link to a payslip in the administrator's view carries the period and
/// the employee asked for: its `year=` and `month=` pairs read back as that
/// year and month, and its `employee_id=` pair is the id, for every id
/// without `&`.
pub proof fn lemma_admin_links_carry_period(token: Seq<char>, year: int, month: int, emp_id: Seq<char>)
    requires
        i32::MIN <= year <= i32::MAX,
        i32::MIN <= month <= i32::MAX,
        forall|k: int| 0 <= k < emp_id.len() ==> emp_id[k] != '&',
    ensures
        query_param(query_of(admin_preview_link(token, year, month, emp_id)), "year="@) matches Some(y)
            && parse_int(y, i32::MIN as int, i32::MAX as int) == Some(year),
        query_param(query_of(admin_preview_link(token, year, month, emp_id)), "month="@) matches Some(m)
            && parse_int(m, i32::MIN as int, i32::MAX as int) == Some(month),
        query_param(query_of(admin_preview_link(token, year, month, emp_id)), "employee_id="@) == Some(emp_id),
        query_param(query_of(admin_download_link(token, year, month, emp_id)), "year="@) matches Some(y)
            && parse_int(y, i32::MIN as int, i32::MAX as int) == Some(year),
        query_param(query_of(admin_download_link(token, year, month, emp_id)), "month="@) matches Some(m)
            && parse_int(m, i32::MIN as int, i32::MAX as int) == Some(month),
        query_param(query_of(admin_download_link(token, year, month, emp_id)), "employee_id="@) == Some(emp_id),
{
    lemma_admin_link_queries(token, year, month, emp_id);
    reveal_strlit("&employee_id=");
    reveal_strlit("employee_id=");
    reveal_strlit("&token=");
    reveal_strlit("&");
    reveal_strlit("year=");
    reveal_strlit("month=");
    reveal_strlit("&month=");
    let after = "&employee_id="@ + emp_id + "&token="@ + token;
    let q = admin_link_query(token, year, month, emp_id);
    assert(q =~= "year="@ + int_decimal(year) + "&month="@ + int_decimal(month) + after);
    lemma_period_pairs(year, month, after);
    lemma_decimal_roundtrip(year, i32::MIN as int, i32::MAX as int);
    lemma_decimal_roundtrip(month, i32::MIN as int, i32::MAX as int);
    // the employee_id pair comes after the year and month pairs
    lemma_decimal_free_of(year, '&');
    lemma_decimal_free_of(month, '&');
    let y = int_decimal(year);
    let m = int_decimal(month);
    let ypair = "year="@ + y;
    let mpair = "month="@ + m;
    lemma_pair_free_of_amp("year="@, y);
    lemma_pair_free_of_amp("month="@, m);
    let etail = "employee_id="@ + emp_id + ("&token="@ + token);
    let mtail = mpair + "&"@ + etail;
    assert(q =~= ypair + "&"@ + mtail);
    lemma_query_param_skips(ypair, mtail, "employee_id="@);
    lemma_query_param_skips(mpair, etail, "employee_id="@);
    assert(("&token="@ + token)[0] == '&');
    lemma_query_param_first("employee_id="@, emp_id, "&token="@ + token);
}

} // verus!

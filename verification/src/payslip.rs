//! The words and names on a payslip and on the file it is downloaded as.

use vstd::prelude::*;

use crate::text::{digit_char, int_decimal, nat_digits, owned, push_int_decimal, push_nat_digits};

verus! {

/// Which of the twelve month names a payslip shows for `month`: months 1 to
/// 12 show their own name, 0 shows January and every other number shows
/// December (the number is read as an unsigned index, lowered by one without
/// going below zero, and capped at the last name).
pub open spec fn month_slot(month: int) -> int {
    if 1 <= month <= 12 {
        month - 1
    } else if month == 0 {
        0
    } else {
        11
    }
}

/// The full English name of the month in slot `i` (January is slot 0).
pub open spec fn month_full_name(i: int) -> Seq<char> {
    if i == 0 {
        "January"@
    } else if i == 1 {
        "February"@
    } else if i == 2 {
        "March"@
    } else if i == 3 {
        "April"@
    } else if i == 4 {
        "May"@
    } else if i == 5 {
        "June"@
    } else if i == 6 {
        "July"@
    } else if i == 7 {
        "August"@
    } else if i == 8 {
        "September"@
    } else if i == 9 {
        "October"@
    } else if i == 10 {
        "November"@
    } else {
        "December"@
    }
}

/// The month name that a payslip for `month` shows.
pub fn month_name(month: i32) -> (name: &'static str)
    ensures
        name@ == month_full_name(month_slot(month as int)),
{
    let slot: i32 = if 1 <= month && month <= 12 {
        month - 1
    } else if month == 0 {
        0
    } else {
        11
    };
    if slot == 0 {
        "January"
    } else if slot == 1 {
        "February"
    } else if slot == 2 {
        "March"
    } else if slot == 3 {
        "April"
    } else if slot == 4 {
        "May"
    } else if slot == 5 {
        "June"
    } else if slot == 6 {
        "July"
    } else if slot == 7 {
        "August"
    } else if slot == 8 {
        "September"
    } else if slot == 9 {
        "October"
    } else if slot == 10 {
        "November"
    } else {
        "December"
    }
}

/// The pay period that heads a payslip: the month's name, a space, the year.
pub fn period_label(month: i32, year: i32) -> (s: String)
    ensures
        s@ == month_full_name(month_slot(month as int)) + " "@ + int_decimal(year as int),
{
    let mut s = owned(month_name(month));
    s.append(" ");
    push_int_decimal(&mut s, year as i64);
    s
}

/// A month number as `{:02}` writes it: one digit gets a leading zero,
/// everything else is written as is.
pub open spec fn two_digit_month(month: int) -> Seq<char> {
    if 0 <= month < 10 {
        seq!['0'] + nat_digits(month as nat)
    } else {
        int_decimal(month)
    }
}

/// The name of the downloaded payslip file for `month` of `year`.
pub open spec fn payslip_file_name(year: int, month: int) -> Seq<char> {
    "payslip_"@ + int_decimal(year) + "_"@ + two_digit_month(month) + ".pdf"@
}

/// The `Content-Disposition` value that makes a payslip PDF download as
/// `payslip_<year>_<month>.pdf`.
pub fn attachment_disposition(year: i32, month: i32) -> (s: String)
    ensures
        s@ == "attachment; filename=\""@ + payslip_file_name(year as int, month as int) + "\""@,
{
    let mut s = owned("attachment; filename=\"payslip_");
    push_int_decimal(&mut s, year as i64);
    s.append("_");
    if 0 <= month && month < 10 {
        s.append("0");
        push_nat_digits(&mut s, month as u64);
    } else {
        push_int_decimal(&mut s, month as i64);
    }
    s.append(".pdf\"");
    proof {
        reveal_strlit("attachment; filename=\"payslip_");
        reveal_strlit("attachment; filename=\"");
        reveal_strlit("payslip_");
        assert("attachment; filename=\"payslip_"@ =~= "attachment; filename=\""@ + "payslip_"@);
        reveal_strlit(".pdf\"");
        reveal_strlit(".pdf");
        reveal_strlit("\"");
        assert(".pdf\""@ =~= ".pdf"@ + "\""@);
        reveal_strlit("0");
        assert(s@ =~= "attachment; filename=\""@ + payslip_file_name(year as int, month as int) + "\""@);
    }
    s
}

/// The name a payslip shows for each month number: months 1 to 12 are
/// January to December in calendar order, 0 shows January, and every
/// other number shows December.
pub proof fn lemma_month_names_in_calendar_order(month: int)
    ensures
        month == 1 ==> month_full_name(month_slot(month)) == "January"@,
        month == 2 ==> month_full_name(month_slot(month)) == "February"@,
        month == 3 ==> month_full_name(month_slot(month)) == "March"@,
        month == 4 ==> month_full_name(month_slot(month)) == "April"@,
        month == 5 ==> month_full_name(month_slot(month)) == "May"@,
        month == 6 ==> month_full_name(month_slot(month)) == "June"@,
        month == 7 ==> month_full_name(month_slot(month)) == "July"@,
        month == 8 ==> month_full_name(month_slot(month)) == "August"@,
        month == 9 ==> month_full_name(month_slot(month)) == "September"@,
        month == 10 ==> month_full_name(month_slot(month)) == "October"@,
        month == 11 ==> month_full_name(month_slot(month)) == "November"@,
        month == 12 ==> month_full_name(month_slot(month)) == "December"@,
        month == 0 ==> month_full_name(month_slot(month)) == "January"@,
        (month < 0 || month > 12) ==> month_full_name(month_slot(month)) == "December"@,
{
}

/// The twelve months carry twelve different names.
pub proof fn lemma_month_names_distinct(a: int, b: int)
    requires
        1 <= a <= 12,
        1 <= b <= 12,
        a != b,
    ensures
        month_full_name(month_slot(a)) != month_full_name(month_slot(b)),
{
    reveal_strlit("January");
    reveal_strlit("February");
    reveal_strlit("March");
    reveal_strlit("April");
    reveal_strlit("May");
    reveal_strlit("June");
    reveal_strlit("July");
    reveal_strlit("August");
    reveal_strlit("September");
    reveal_strlit("October");
    reveal_strlit("November");
    reveal_strlit("December");
    let x = month_full_name(month_slot(a));
    let y = month_full_name(month_slot(b));
    if x == y {
        assert(x.len() == y.len());
        assert(x[0] == y[0]);
        assert(x[1] == y[1]);
        assert(x[2] == y[2]);
    }
}

/// For months 0 to 99 the month part of a payslip's file name is exactly
/// two ASCII digits whose value is the month, so months 1 to 9 carry a
/// leading zero: `payslip_<year>_<MM>.pdf`.
pub proof fn lemma_file_name_month_two_digits(year: int, month: int)
    requires
        0 <= month <= 99,
    ensures
        payslip_file_name(year, month) == "payslip_"@ + int_decimal(year) + "_"@ + seq![
            digit_char(month / 10),
            digit_char(month % 10),
        ] + ".pdf"@,
{
    if month < 10 {
        assert(nat_digits(month as nat) == seq![digit_char(month)]);
        assert(digit_char(0) == '0');
        assert(two_digit_month(month) =~= seq![digit_char(month / 10), digit_char(month % 10)]);
    } else {
        let m = month as nat;
        assert(m / 10 < 10);
        assert(nat_digits(m / 10) == seq![digit_char((m / 10) as int)]);
        assert(nat_digits(m) == nat_digits(m / 10).push(digit_char((m % 10) as int)));
        assert(two_digit_month(month) =~= seq![digit_char(month / 10), digit_char(month % 10)]);
    }
}

} // verus!

//! NAV-facing party vocabulary: the buyer's VAT status and the shape check
//! of a Hungarian tax number (ADÓSZÁM, `xxxxxxxx-y-zz`).

use vstd::prelude::*;
use crate::text::{is_blank, trim, trim_to_string, utf8_byte_len, utf8_len};

verus! {

/// Buyer kind on the NAV wire.
#[derive(Clone, Copy, Debug, PartialEq, Eq, Structural, Hash)]
pub enum CustomerVatStatus {
    Domestic,
    PrivatePerson,
    Other,
}

/// Why a tax number was refused.
#[derive(Clone, Debug, PartialEq, Eq)]
pub enum SupplierConfigError {
    MissingTaxNumber,
    MalformedTaxNumber { input: String, reason: &'static str },
}

/// The three segments of a well-formed Hungarian tax number.
#[derive(Clone, Debug, PartialEq, Eq)]
pub struct HungarianTaxNumber {
    pub taxpayer_id: String,
    pub vat_code: String,
    pub county_code: String,
}

/// Index of the first `-` at or after `start`, or `s.len()` when there is none.
pub open spec fn dash_from(s: Seq<char>, start: int) -> int
    decreases s.len() - start,
{
    if start < 0 || start >= s.len() {
        s.len() as int
    } else if s[start] == '-' {
        start
    } else {
        dash_from(s, start + 1)
    }
}

pub open spec fn first_dash(s: Seq<char>) -> int {
    dash_from(s, 0)
}

pub open spec fn second_dash(s: Seq<char>) -> int {
    dash_from(s, first_dash(s) + 1)
}

/// `s.split('-')` yields exactly three pieces: two dashes, no third.
pub open spec fn has_three_segments(s: Seq<char>) -> bool {
    first_dash(s) < s.len() && second_dash(s) < s.len() && dash_from(s, second_dash(s) + 1)
        == s.len()
}

pub open spec fn segment_taxpayer(s: Seq<char>) -> Seq<char> {
    s.subrange(0, first_dash(s))
}

pub open spec fn segment_vat(s: Seq<char>) -> Seq<char> {
    s.subrange(first_dash(s) + 1, second_dash(s))
}

pub open spec fn segment_county(s: Seq<char>) -> Seq<char> {
    s.subrange(second_dash(s) + 1, s.len() as int)
}

pub open spec fn all_ascii_digits(s: Seq<char>) -> bool {
    forall|k: int| 0 <= k < s.len() ==> '0' <= #[trigger] s[k] && s[k] <= '9'
}

/// The first shape rule a trimmed, non-empty tax number breaks, if any.
pub open spec fn tax_number_problem(t: Seq<char>) -> Option<Seq<char>> {
    if !has_three_segments(t) {
        Some("expected three dash-separated segments"@)
    } else if utf8_len(segment_taxpayer(t)) != 8 {
        Some("taxpayerId segment must be exactly 8 digits"@)
    } else if !all_ascii_digits(segment_taxpayer(t)) {
        Some("taxpayerId segment must be ASCII digits only"@)
    } else if utf8_len(segment_vat(t)) != 1 {
        Some("vatCode segment must be exactly 1 digit"@)
    } else if !all_ascii_digits(segment_vat(t)) {
        Some("vatCode segment must be an ASCII digit"@)
    } else if utf8_len(segment_county(t)) != 2 {
        Some("countyCode segment must be exactly 2 digits"@)
    } else if !all_ascii_digits(segment_county(t)) {
        Some("countyCode segment must be ASCII digits only"@)
    } else {
        None
    }
}

/// `s` (after trimming) is a well-formed Hungarian tax number.
pub open spec fn is_valid_tax_number(s: Seq<char>) -> bool {
    trim(s).len() > 0 && tax_number_problem(trim(s)) is None
}

fn find_dash(s: &str, start: usize) -> (r: usize)
    requires
        start <= s@.len(),
    ensures
        r as int == dash_from(s@, start as int),
        start <= r <= s@.len(),
        forall|k: int| start <= k < r ==> s@[k] != '-',
{
    let n = s.unicode_len();
    let mut i = start;
    while i < n
        invariant
            n == s@.len(),
            start <= i <= n,
            dash_from(s@, start as int) == dash_from(s@, i as int),
            forall|k: int| start <= k < i ==> s@[k] != '-',
        ensures
            start <= i <= n,
            dash_from(s@, start as int) == dash_from(s@, i as int),
            forall|k: int| start <= k < i ==> s@[k] != '-',
            i < n ==> s@[i as int] == '-',
        decreases n - i,
    {
        if s.get_char(i) == '-' {
            break;
        }
        i = i + 1;
    }
    i
}

fn digits_only(s: &str) -> (r: bool)
    ensures
        r == all_ascii_digits(s@),
{
    let n = s.unicode_len();
    let mut i: usize = 0;
    while i < n
        invariant
            n == s@.len(),
            i <= n,
            forall|k: int| 0 <= k < i ==> '0' <= #[trigger] s@[k] && s@[k] <= '9',
        decreases n - i,
    {
        let c = s.get_char(i);
        if !('0' <= c && c <= '9') {
            return false;
        }
        i = i + 1;
    }
    true
}

fn malformed(input: &String, reason: &'static str) -> (r: SupplierConfigError)
    ensures
        r matches SupplierConfigError::MalformedTaxNumber { input: i, reason: re } && i@ == input@
            && re == reason,
{
    SupplierConfigError::MalformedTaxNumber { input: input.clone(), reason }
}

/// Shape check of a Hungarian tax number (`xxxxxxxx-y-zz`): three
/// dash-separated segments of 8, 1 and 2 ASCII digits. Surrounding
/// whitespace is ignored.
pub fn parse_hungarian_tax_number(s: &str) -> (r: Result<HungarianTaxNumber, SupplierConfigError>)
    ensures
        trim(s@).len() == 0 <==> r == Err::<HungarianTaxNumber, SupplierConfigError>(
            SupplierConfigError::MissingTaxNumber,
        ),
        trim(s@).len() > 0 ==> match r {
            Ok(t) => tax_number_problem(trim(s@)) is None && t.taxpayer_id@ == segment_taxpayer(
                trim(s@),
            ) && t.vat_code@ == segment_vat(trim(s@)) && t.county_code@ == segment_county(
                trim(s@),
            ),
            Err(SupplierConfigError::MalformedTaxNumber { input, reason }) => input@ == trim(s@)
                && tax_number_problem(trim(s@)) == Some(reason@),
            Err(SupplierConfigError::MissingTaxNumber) => false,
        },
        r is Ok <==> is_valid_tax_number(s@),
{
    if is_blank(s) {
        return Err(SupplierConfigError::MissingTaxNumber);
    }
    let t = trim_to_string(s);
    let ts = t.as_str();
    let n = ts.unicode_len();
    let d1 = find_dash(ts, 0);
    if d1 >= n {
        return Err(malformed(&t, "expected three dash-separated segments"));
    }
    let d2 = find_dash(ts, d1 + 1);
    if d2 >= n {
        return Err(malformed(&t, "expected three dash-separated segments"));
    }
    let d3 = find_dash(ts, d2 + 1);
    if d3 < n {
        return Err(malformed(&t, "expected three dash-separated segments"));
    }
    let taxpayer = ts.substring_char(0, d1);
    let vat = ts.substring_char(d1 + 1, d2);
    let county = ts.substring_char(d2 + 1, n);
    if utf8_byte_len(taxpayer) != 8 {
        return Err(malformed(&t, "taxpayerId segment must be exactly 8 digits"));
    }
    if !digits_only(taxpayer) {
        return Err(malformed(&t, "taxpayerId segment must be ASCII digits only"));
    }
    if utf8_byte_len(vat) != 1 {
        return Err(malformed(&t, "vatCode segment must be exactly 1 digit"));
    }
    if !digits_only(vat) {
        return Err(malformed(&t, "vatCode segment must be an ASCII digit"));
    }
    if utf8_byte_len(county) != 2 {
        return Err(malformed(&t, "countyCode segment must be exactly 2 digits"));
    }
    if !digits_only(county) {
        return Err(malformed(&t, "countyCode segment must be ASCII digits only"));
    }
    Ok(
        HungarianTaxNumber {
            taxpayer_id: String::from_str(taxpayer),
            vat_code: String::from_str(vat),
            county_code: String::from_str(county),
        },
    )
}

} // verus!

//! Margin profiles per customer type: field validation (every problem at
//! once), note normalisation and profile ids.

use vstd::prelude::*;
use crate::incoming_invoices::{prefixed_ulid_string, ulid_text};
use crate::text::{is_blank, is_blank_spec, trim, trim_to_string};

verus! {

/// Field-level validation error (wire shape of a 400).
#[derive(Clone, Debug, PartialEq, Eq)]
pub struct ValidationError {
    pub field: &'static str,
    pub message: String,
}

/// Profiles are enabled unless the request says otherwise.
pub fn default_enabled() -> (r: bool)
    ensures
        r,
{
    true
}

/// What `<str as Debug>::fmt` writes for a text: the text in double quotes
/// with quotes, backslashes and control characters escaped.
pub uninterp spec fn str_debug_text(s: Seq<char>) -> Seq<char>;

/// `format!("{:?}", s)`: std's `Debug` rendering of a `str`, a function of
/// the text alone.
#[verifier::external_body]
fn debug_quoted(s: &str) -> (r: String)
    ensures
        r@ == str_debug_text(s@),
{
    format!("{:?}", s)
}

/// `(field, message)` of a validation error.
pub open spec fn error_view(e: ValidationError) -> (Seq<char>, Seq<char>) {
    (e.field@, e.message@)
}

pub open spec fn errors_view(v: Seq<ValidationError>) -> Seq<(Seq<char>, Seq<char>)> {
    v.map_values(|e: ValidationError| error_view(e))
}

/// Every problem of a profile request, in field order, once it is known
/// whether the customer type is in the vocabulary and whether each margin
/// is in range.
pub open spec fn profile_problems(
    name: Seq<char>,
    customer_type: Seq<char>,
    customer_type_known: bool,
    gross_margin_ok: bool,
    min_margin_ok: bool,
) -> Seq<(Seq<char>, Seq<char>)> {
    let a: Seq<(Seq<char>, Seq<char>)> = if is_blank_spec(name) {
        seq![("name"@, "A profil neve kötelező. / Profile name is required."@)]
    } else if trim(name).len() > 120 {
        seq![("name"@, "A profil neve legfeljebb 120 karakter. / Profile name max 120 chars."@)]
    } else {
        Seq::empty()
    };
    let b = if customer_type_known {
        a
    } else {
        a.push(
            (
                "customer_type"@,
                "Ismeretlen vevőtípus: "@ + str_debug_text(customer_type)
                    + ". / Unknown customer type."@,
            ),
        )
    };
    let c = if gross_margin_ok {
        b
    } else {
        b.push(
            (
                "gross_margin_pct"@,
                "A cél árrés 0 és 10 (1000%) között legyen. / Target margin must be in [0, 10]."@,
            ),
        )
    };
    if min_margin_ok {
        c
    } else {
        c.push(
            (
                "min_margin_pct"@,
                "A minimum árrés 0 és 1 (100%) között legyen. / Min margin must be in [0, 1)."@,
            ),
        )
    }
}

fn push_error(errors: &mut Vec<ValidationError>, field: &'static str, message: String)
    ensures
        errors_view(final(errors)@) == errors_view(old(errors)@).push((field@, message@)),
{
    errors.push(ValidationError { field, message });
    assert(errors_view(errors@) =~= errors_view(old(errors)@).push((field@, message@)));
}

/// Validate a margin-profile request: the name is required and at most 120
/// characters once trimmed, the customer type must be known, and each margin
/// must be in range (`gross_margin_ok`: finite and within [0, 10];
/// `min_margin_ok`: finite and within [0, 1)). All problems are reported.
pub fn validate_profile_fields(
    name: &str,
    customer_type: &str,
    customer_type_known: bool,
    gross_margin_ok: bool,
    min_margin_ok: bool,
) -> (r: Result<(), Vec<ValidationError>>)
    ensures
        ({
            let p = profile_problems(name@, customer_type@, customer_type_known, gross_margin_ok, min_margin_ok);
            match r {
                Ok(()) => p.len() == 0,
                Err(v) => p.len() > 0 && errors_view(v@) == p,
            }
        }),
{
    let mut errors: Vec<ValidationError> = Vec::new();
    assert(errors_view(errors@) =~= Seq::<(Seq<char>, Seq<char>)>::empty());
    if is_blank(name) {
        push_error(&mut errors, "name", String::from_str("A profil neve kötelező. / Profile name is required."));
    } else {
        let t = trim_to_string(name);
        if t.unicode_len() > 120 {
            push_error(
                &mut errors,
                "name",
                String::from_str("A profil neve legfeljebb 120 karakter. / Profile name max 120 chars."),
            );
        }
    }
    if !customer_type_known {
        let mut m = String::from_str("Ismeretlen vevőtípus: ");
        let quoted = debug_quoted(customer_type);
        m.append(quoted.as_str());
        m.append(". / Unknown customer type.");
        push_error(&mut errors, "customer_type", m);
    }
    if !gross_margin_ok {
        push_error(
            &mut errors,
            "gross_margin_pct",
            String::from_str("A cél árrés 0 és 10 (1000%) között legyen. / Target margin must be in [0, 10]."),
        );
    }
    if !min_margin_ok {
        push_error(
            &mut errors,
            "min_margin_pct",
            String::from_str("A minimum árrés 0 és 1 (100%) között legyen. / Min margin must be in [0, 1)."),
        );
    }
    if errors.len() == 0 {
        Ok(())
    } else {
        Err(errors)
    }
}

pub open spec fn notes_spec(notes: Option<String>) -> Option<Seq<char>> {
    match notes {
        Some(n) => if is_blank_spec(n@) {
            None
        } else {
            Some(trim(n@))
        },
        None => None,
    }
}

/// Stored notes: trimmed, and absent when blank.
pub fn normalize_notes(notes: &Option<String>) -> (r: Option<String>)
    ensures
        match r {
            Some(s) => notes_spec(*notes) == Some(s@),
            None => notes_spec(*notes) is None,
        },
{
    match notes {
        Some(n) => {
            if is_blank(n.as_str()) {
                None
            } else {
                Some(trim_to_string(n.as_str()))
            }
        },
        None => None,
    }
}

/// `mp_<ULID>`.
pub fn margin_profile_id(v: u128) -> (r: String)
    ensures
        r@ == "mp_"@ + ulid_text(v),
{
    prefixed_ulid_string("mp_", v)
}

/// Some reported problem is on field `f`.
pub open spec fn reports_field(p: Seq<(Seq<char>, Seq<char>)>, f: Seq<char>) -> bool {
    exists|k: int| 0 <= k < p.len() && (#[trigger] p[k]).0 == f
}

proof fn lemma_reports_field_push(s: Seq<(Seq<char>, Seq<char>)>, x: (Seq<char>, Seq<char>), f: Seq<char>)
    ensures
        reports_field(s.push(x), f) == (reports_field(s, f) || x.0 == f),
{
    let t = s.push(x);
    if reports_field(s, f) {
        let k = choose|k: int| 0 <= k < s.len() && (#[trigger] s[k]).0 == f;
        assert(t[k] == s[k]);
    }
    if x.0 == f {
        assert(t[s.len() as int] == x);
    }
    if reports_field(t, f) {
        let k = choose|k: int| 0 <= k < t.len() && (#[trigger] t[k]).0 == f;
        if k < s.len() {
            assert(t[k] == s[k]);
        }
    }
}

/// Each field's error is tied to its own check: the name is reported
/// exactly when it is blank or longer than 120 characters once trimmed, the
/// customer type exactly when it is unknown, the target margin exactly when
/// it is out of range, and the minimum margin exactly when it is out of
/// range; a request with no failing check reports nothing.
pub proof fn lemma_each_error_names_its_failed_check(
    name: Seq<char>,
    customer_type: Seq<char>,
    known: bool,
    gross_ok: bool,
    min_ok: bool,
)
    ensures
        reports_field(profile_problems(name, customer_type, known, gross_ok, min_ok), "name"@)
            <==> (is_blank_spec(name) || trim(name).len() > 120),
        reports_field(profile_problems(name, customer_type, known, gross_ok, min_ok), "customer_type"@)
            <==> !known,
        reports_field(
            profile_problems(name, customer_type, known, gross_ok, min_ok),
            "gross_margin_pct"@,
        ) <==> !gross_ok,
        reports_field(profile_problems(name, customer_type, known, gross_ok, min_ok), "min_margin_pct"@)
            <==> !min_ok,
        profile_problems(name, customer_type, known, gross_ok, min_ok).len() == 0 <==> (
        !is_blank_spec(name) && trim(name).len() <= 120 && known && gross_ok && min_ok),
{
    reveal_strlit("name");
    reveal_strlit("customer_type");
    reveal_strlit("gross_margin_pct");
    reveal_strlit("min_margin_pct");
    let fields = seq!["name"@, "customer_type"@, "gross_margin_pct"@, "min_margin_pct"@];
    assert("name"@.len() == 4);
    assert("customer_type"@.len() == 13);
    assert("gross_margin_pct"@.len() == 16);
    assert("min_margin_pct"@.len() == 14);
    let a: Seq<(Seq<char>, Seq<char>)> = if is_blank_spec(name) {
        seq![("name"@, "A profil neve kötelező. / Profile name is required."@)]
    } else if trim(name).len() > 120 {
        seq![("name"@, "A profil neve legfeljebb 120 karakter. / Profile name max 120 chars."@)]
    } else {
        Seq::empty()
    };
    let ct = (
        "customer_type"@,
        "Ismeretlen vevőtípus: "@ + str_debug_text(customer_type) + ". / Unknown customer type."@,
    );
    let gm = (
        "gross_margin_pct"@,
        "A cél árrés 0 és 10 (1000%) között legyen. / Target margin must be in [0, 10]."@,
    );
    let mm = (
        "min_margin_pct"@,
        "A minimum árrés 0 és 1 (100%) között legyen. / Min margin must be in [0, 1)."@,
    );
    let b = if known { a } else { a.push(ct) };
    let c = if gross_ok { b } else { b.push(gm) };
    let d = if min_ok { c } else { c.push(mm) };
    assert(d == profile_problems(name, customer_type, known, gross_ok, min_ok));
    assert forall|f: Seq<char>| #[trigger] fields.contains(f) implies (reports_field(d, f) <==> (
    reports_field(a, f) || (!known && ct.0 == f) || (!gross_ok && gm.0 == f) || (!min_ok && mm.0
        == f))) by {
        if !known {
            lemma_reports_field_push(a, ct, f);
        }
        if !gross_ok {
            lemma_reports_field_push(b, gm, f);
        }
        if !min_ok {
            lemma_reports_field_push(c, mm, f);
        }
    }
    assert forall|f: Seq<char>| #[trigger] fields.contains(f) implies (reports_field(a, f) <==> (
    f == "name"@ && (is_blank_spec(name) || trim(name).len() > 120))) by {
        if a.len() == 1 {
            if f == "name"@ {
                assert(a[0].0 == f);
            }
        }
    }
    assert(fields.contains("name"@)) by {
        assert(fields[0] == "name"@);
    }
    assert(fields.contains("customer_type"@)) by {
        assert(fields[1] == "customer_type"@);
    }
    assert(fields.contains("gross_margin_pct"@)) by {
        assert(fields[2] == "gross_margin_pct"@);
    }
    assert(fields.contains("min_margin_pct"@)) by {
        assert(fields[3] == "min_margin_pct"@);
    }
}

} // verus!

//! Recording a payment against an issued invoice: the date rule and the
//! no-double-payment gate.

use vstd::prelude::*;
use crate::incoming_invoices::{is_canonical_iso_date, ymd_date_accepted};

verus! {

/// A recorded payment.
#[derive(Clone, Debug, PartialEq, Eq)]
pub struct PaymentRecord {
    pub paid_at: String,
    pub amount_minor: i64,
    pub currency: String,
    pub method: String,
    pub reference: Option<String>,
}

/// Typed refusals of a mark-paid request.
#[derive(Clone, Debug, PartialEq, Eq)]
pub enum MarkPaidError {
    /// A payment is already on record (409); carries it.
    AlreadyPaid(PaymentRecord),
    /// `paid_at` is not a `YYYY-MM-DD` date (400).
    InvalidPaidAt(String),
    /// Storage / audit failure (500).
    Other(String),
}

/// A mark-paid request.
#[derive(Clone, Debug, PartialEq, Eq)]
pub struct MarkPaidInput {
    pub invoice_id: String,
    pub paid_at: String,
    pub amount_minor: i64,
    pub currency: String,
    pub method: String,
    pub reference: Option<String>,
}

/// The appended payment and the verified chain length.
#[derive(Clone, Debug, PartialEq, Eq)]
pub struct MarkPaidOutcome {
    pub payment: PaymentRecord,
    pub entries_verified: u64,
}

pub open spec fn record_matches_input(p: PaymentRecord, i: MarkPaidInput) -> bool {
    &&& p.paid_at@ == i.paid_at@
    &&& p.amount_minor == i.amount_minor
    &&& p.currency@ == i.currency@
    &&& p.method@ == i.method@
    &&& match (p.reference, i.reference) {
        (Some(a), Some(b)) => a@ == b@,
        (None, None) => true,
        _ => false,
    }
}

fn clone_opt(o: &Option<String>) -> (r: Option<String>)
    ensures
        match (r, *o) {
            (Some(a), Some(b)) => a@ == b@,
            (None, None) => true,
            _ => false,
        },
{
    match o {
        Some(s) => Some(s.clone()),
        None => None,
    }
}

/// Decide a mark-paid request given the payment already on record for the
/// invoice, if any: a malformed `paid_at` is refused first, then a second
/// payment; otherwise the record to append, copied from the request.
pub fn decide_mark_paid(input: &MarkPaidInput, existing: Option<PaymentRecord>) -> (r: Result<PaymentRecord, MarkPaidError>)
    ensures
        !ymd_date_accepted(input.paid_at@) ==> (r matches Err(MarkPaidError::InvalidPaidAt(m)) && m@
            == "paid_at '"@ + input.paid_at@ + "' is not a valid ISO-8601 YYYY-MM-DD date"@),
        ymd_date_accepted(input.paid_at@) && existing is Some ==> r == Err::<PaymentRecord, MarkPaidError>(
            MarkPaidError::AlreadyPaid(existing->0),
        ),
        ymd_date_accepted(input.paid_at@) && existing is None ==> (r matches Ok(p)
            && record_matches_input(p, *input)),
{
    if !is_canonical_iso_date(input.paid_at.as_str()) {
        let mut m = String::from_str("paid_at '");
        m.append(input.paid_at.as_str());
        m.append("' is not a valid ISO-8601 YYYY-MM-DD date");
        return Err(MarkPaidError::InvalidPaidAt(m));
    }
    match existing {
        Some(p) => Err(MarkPaidError::AlreadyPaid(p)),
        None => Ok(
            PaymentRecord {
                paid_at: input.paid_at.clone(),
                amount_minor: input.amount_minor,
                currency: input.currency.clone(),
                method: input.method.clone(),
                reference: clone_opt(&input.reference),
            },
        ),
    }
}

} // verus!

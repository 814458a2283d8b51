//! Modification (MODIFY) chain decisions: whether a base may be modified,
//! and the chain index the modification takes.

use vstd::prelude::*;
use crate::issue_storno::{
    ChainEvent, ChainFact, ChainRefusal, ChainRefusalView, any_abandon, any_modification,
    any_storno, any_submission, facts, latest_ack, next_index_spec, next_modification_index,
    reference_check, result_view, scan_base, storno_request_spec, storno_verdict,
};
use crate::incoming_invoices::{is_canonical_iso_date, ymd_date_accepted};
use crate::issue_invoice::{
    guard_view, identity_guard, is_invoice_reference, InvoiceInputJson, RefusalView,
    RequestRefusal,
};

verus! {

/// What a modification issuance hands back.
#[derive(Clone, Debug, PartialEq, Eq)]
pub struct ModificationIssuedSummary {
    pub invoice_id: String,
    pub invoice_number: String,
    pub modification_index: u32,
    pub entries_verified: u64,
}

pub open spec fn modification_request_spec(
    line_count: nat,
    modification_date: Seq<char>,
    tenant: Seq<char>,
    tenant_ok: bool,
    series: Seq<char>,
    series_ok: bool,
    references: Seq<char>,
) -> Option<RefusalView> {
    if line_count == 0 {
        Some(RefusalView::NoLines)
    } else if !ymd_date_accepted(modification_date) {
        Some(RefusalView::MalformedModificationDate(modification_date))
    } else if identity_guard(tenant, tenant_ok, series, series_ok) is Some {
        identity_guard(tenant, tenant_ok, series, series_ok)
    } else if !is_invoice_reference(references) {
        Some(RefusalView::MalformedReference(references))
    } else {
        None
    }
}

/// The checks a modification request passes before the pipeline reads the
/// ledger: it has lines, an explicit `YYYY-MM-DD` modification date, the
/// tenant and series identifiers were accepted (`tenant_ok`, `series_ok`),
/// and it references a prefixed invoice id.
pub fn check_modification_request(
    input: &InvoiceInputJson,
    modification_date: &str,
    tenant: &str,
    tenant_ok: bool,
    series: &str,
    series_ok: bool,
    references: &str,
) -> (r: Result<(), RequestRefusal>)
    ensures
        guard_view(r) == modification_request_spec(
            input.lines@.len(),
            modification_date@,
            tenant@,
            tenant_ok,
            series@,
            series_ok,
            references@,
        ),
{
    if input.lines.len() == 0 {
        return Err(RequestRefusal::NoLines);
    }
    if !is_canonical_iso_date(modification_date) {
        return Err(RequestRefusal::MalformedModificationDate(String::from_str(modification_date)));
    }
    if !tenant_ok {
        return Err(RequestRefusal::InvalidTenant(String::from_str(tenant)));
    }
    if !series_ok {
        return Err(RequestRefusal::InvalidSeries(String::from_str(series)));
    }
    reference_check(references)
}

/// A request the modification pipeline accepts would pass the storno
/// pipeline's guard as well: the modification guard adds the date rule to
/// the same lines / identifier / reference rules.
pub proof fn lemma_modification_request_passes_storno_guard(
    line_count: nat,
    modification_date: Seq<char>,
    tenant: Seq<char>,
    tenant_ok: bool,
    series: Seq<char>,
    series_ok: bool,
    references: Seq<char>,
)
    requires
        modification_request_spec(
            line_count,
            modification_date,
            tenant,
            tenant_ok,
            series,
            series_ok,
            references,
        ) is None,
    ensures
        storno_request_spec(line_count, tenant, tenant_ok, series, series_ok, references) is None,
{
}

/// Verdict on modifiability: submitted, never abandoned, never stornoed,
/// and either the last ack is SAVED (Finalized) or — with no ack yet — a
/// prior modification exists (Amended).
pub open spec fn modification_verdict(f: Seq<ChainFact>, base: Seq<char>) -> Result<(), ChainRefusalView> {
    if any_abandon(f, base) {
        Err(ChainRefusalView::Abandoned)
    } else if any_storno(f, base) {
        Err(ChainRefusalView::Stornoed)
    } else if !any_submission(f, base) {
        Err(ChainRefusalView::NeverSubmitted)
    } else {
        match latest_ack(f, base) {
            Some(s) => if s == "SAVED"@ {
                Ok(())
            } else if s == "ABORTED"@ {
                Err(ChainRefusalView::Rejected)
            } else {
                Err(ChainRefusalView::Stuck { last_ack: s })
            },
            None => if any_modification(f, base) {
                Ok(())
            } else {
                Err(ChainRefusalView::AwaitingAck)
            },
        }
    }
}

fn ack_is(s: &String, lit: &str) -> (r: bool)
    ensures
        r == (s@ == lit@),
{
    crate::text::str_eq(s.as_str(), lit)
}

/// A modification is valid against a Finalized or already Amended base
/// that was never abandoned or stornoed.
pub fn check_base_is_modifiable(entries: &Vec<ChainEvent>, base_invoice_id: &str) -> (r: Result<(), ChainRefusal>)
    ensures
        result_view(r) == modification_verdict(facts(entries@), base_invoice_id@),
{
    let scan = scan_base(entries, base_invoice_id);
    if scan.abandoned {
        return Err(ChainRefusal::Abandoned);
    }
    if scan.stornoed {
        return Err(ChainRefusal::Stornoed);
    }
    if !scan.submitted {
        return Err(ChainRefusal::NeverSubmitted);
    }
    match scan.latest_ack {
        Some(s) => {
            if ack_is(&s, "SAVED") {
                Ok(())
            } else if ack_is(&s, "ABORTED") {
                Err(ChainRefusal::Rejected)
            } else {
                Err(ChainRefusal::Stuck { last_ack: s })
            }
        },
        None => {
            if scan.modified {
                Ok(())
            } else {
                Err(ChainRefusal::AwaitingAck)
            }
        },
    }
}

/// The chain index a new modification of `base_invoice_id` takes. Storno
/// and modification entries share one index space, so this is the same
/// allocation the storno path uses.
pub fn next_modification_index_for_modification(entries: &Vec<ChainEvent>, base_invoice_id: &str) -> (r: u32)
    ensures
        r == next_index_spec(facts(entries@), base_invoice_id@),
{
    next_modification_index(entries, base_invoice_id)
}

/// Operator-facing text of a modification refusal against `base`.
pub open spec fn modification_refusal_text(base: Seq<char>, e: ChainRefusalView) -> Seq<char> {
    match e {
        ChainRefusalView::Abandoned => "base invoice "@ + base
            + " is ABANDONED (operator previously ran `aberp mark-abandoned`); no modification can be issued against it"@,
        ChainRefusalView::Stornoed => "base invoice "@ + base
            + " has been legally cancelled by a storno — a modification against a stornoed base is malformed; issue a fresh corrective new invoice instead (ADR-0024 §6)"@,
        ChainRefusalView::NeverSubmitted => "base invoice "@ + base
            + " has no NAV submission response on record — run `aberp submit-invoice` and `aberp poll-ack` first to finalize it before issuing a modification"@,
        ChainRefusalView::Rejected => "base invoice "@ + base
            + " was REJECTED by NAV (last ack: ABORTED) — a modification is only valid against a SAVED (finalized) invoice; issue a corrective new invoice instead"@,
        ChainRefusalView::Stuck { last_ack } => "base invoice "@ + base + " is STUCK (last ack: "@
            + last_ack
            + ") — finalize it via `aberp poll-ack` (or unblock via `aberp retry-submission`) before issuing a modification; modification against a not-yet- finalized invoice is rejected per ADR-0024 §6"@,
        ChainRefusalView::AwaitingAck => "base invoice "@ + base
            + " has a submission response but no ack status and no prior modification — run `aberp poll-ack` first; modification requires the base to be Finalized (SAVED) or already Amended (ADR-0024 §6)"@,
    }
}

pub fn modification_refusal_message(base: &str, e: &ChainRefusal) -> (r: String)
    ensures
        r@ == modification_refusal_text(base@, e@),
{
    let mut s = String::from_str("base invoice ");
    s.append(base);
    match e {
        ChainRefusal::Abandoned => {
            s.append(
                " is ABANDONED (operator previously ran `aberp mark-abandoned`); no modification can be issued against it",
            );
        },
        ChainRefusal::Stornoed => {
            s.append(
                " has been legally cancelled by a storno — a modification against a stornoed base is malformed; issue a fresh corrective new invoice instead (ADR-0024 §6)",
            );
        },
        ChainRefusal::NeverSubmitted => {
            s.append(
                " has no NAV submission response on record — run `aberp submit-invoice` and `aberp poll-ack` first to finalize it before issuing a modification",
            );
        },
        ChainRefusal::Rejected => {
            s.append(
                " was REJECTED by NAV (last ack: ABORTED) — a modification is only valid against a SAVED (finalized) invoice; issue a corrective new invoice instead",
            );
        },
        ChainRefusal::Stuck { last_ack } => {
            s.append(" is STUCK (last ack: ");
            s.append(last_ack.as_str());
            s.append(
                ") — finalize it via `aberp poll-ack` (or unblock via `aberp retry-submission`) before issuing a modification; modification against a not-yet- finalized invoice is rejected per ADR-0024 §6",
            );
        },
        ChainRefusal::AwaitingAck => {
            s.append(
                " has a submission response but no ack status and no prior modification — run `aberp poll-ack` first; modification requires the base to be Finalized (SAVED) or already Amended (ADR-0024 §6)",
            );
        },
    }
    s
}

/// A base that could be stornoed and has not been stornoed may also be
/// modified: Finalized implies modifiable.
pub proof fn lemma_finalized_base_is_modifiable(f: Seq<ChainFact>, base: Seq<char>)
    requires
        storno_verdict(f, base) is Ok,
        !any_storno(f, base),
    ensures
        modification_verdict(f, base) is Ok,
{
}

/// On a base no storno cancelled, whatever the modification path refuses
/// the storno path refuses too.
pub proof fn lemma_modification_refusal_implies_storno_refusal(f: Seq<ChainFact>, base: Seq<char>)
    requires
        modification_verdict(f, base) is Err,
        !any_storno(f, base),
    ensures
        storno_verdict(f, base) is Err,
{
}

} // verus!

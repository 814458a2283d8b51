//! Chain decisions over the audit trail of an outgoing invoice: whether a
//! base may be stornoed, which `modificationIndex` the next chain member
//! takes, where the base's NAV XML was recorded, and which SAVED prior
//! modifications a storno must fold.
//!
//! The audit trail is handed in already decoded, oldest entry first, as
//! [`ChainEvent`]s; the entry kinds the decisions do not read are
//! [`ChainEvent::Other`].

use vstd::prelude::*;
use crate::issue_invoice::{
    gross_total_spec, guard_view, identity_guard, invoice_gross_total, is_invoice_reference,
    CustomerJson, GrossTotalError, InvoiceInputJson, RefusalView, RequestRefusal,
};
use crate::text::{starts_with, str_eq, trim, trim_to_string};

verus! {

/// One decoded audit-trail entry, as far as the chain decisions read it.
#[derive(Clone, Debug, PartialEq, Eq)]
pub enum ChainEvent {
    MarkedAbandoned { invoice_id: String },
    SubmissionResponse { invoice_id: String },
    AckStatus { invoice_id: String, ack_status: String },
    CheckPerformed { invoice_id: String, outcome: String },
    DraftCreated { invoice_id: String, nav_xml_path: Option<String> },
    StornoIssued { base_invoice_id: String, storno_invoice_id: String, modification_index: u32 },
    ModificationIssued {
        base_invoice_id: String,
        modification_invoice_id: String,
        modification_index: u32,
    },
    Other,
}

/// Mathematical value of a [`ChainEvent`].
pub enum ChainFact {
    MarkedAbandoned { invoice_id: Seq<char> },
    SubmissionResponse { invoice_id: Seq<char> },
    AckStatus { invoice_id: Seq<char>, ack_status: Seq<char> },
    CheckPerformed { invoice_id: Seq<char>, outcome: Seq<char> },
    DraftCreated { invoice_id: Seq<char>, nav_xml_path: Option<Seq<char>> },
    StornoIssued { base_invoice_id: Seq<char>, storno_invoice_id: Seq<char>, modification_index: u32 },
    ModificationIssued {
        base_invoice_id: Seq<char>,
        modification_invoice_id: Seq<char>,
        modification_index: u32,
    },
    Other,
}

pub open spec fn opt_view(o: Option<String>) -> Option<Seq<char>> {
    match o {
        Some(s) => Some(s@),
        None => None,
    }
}

impl View for ChainEvent {
    type V = ChainFact;

    open spec fn view(&self) -> ChainFact {
        match self {
            ChainEvent::MarkedAbandoned { invoice_id } => ChainFact::MarkedAbandoned { invoice_id: invoice_id@ },
            ChainEvent::SubmissionResponse { invoice_id } => ChainFact::SubmissionResponse { invoice_id: invoice_id@ },
            ChainEvent::AckStatus { invoice_id, ack_status } => ChainFact::AckStatus {
                invoice_id: invoice_id@,
                ack_status: ack_status@,
            },
            ChainEvent::CheckPerformed { invoice_id, outcome } => ChainFact::CheckPerformed {
                invoice_id: invoice_id@,
                outcome: outcome@,
            },
            ChainEvent::DraftCreated { invoice_id, nav_xml_path } => ChainFact::DraftCreated {
                invoice_id: invoice_id@,
                nav_xml_path: opt_view(*nav_xml_path),
            },
            ChainEvent::StornoIssued { base_invoice_id, storno_invoice_id, modification_index } =>
                ChainFact::StornoIssued {
                    base_invoice_id: base_invoice_id@,
                    storno_invoice_id: storno_invoice_id@,
                    modification_index: *modification_index,
                },
            ChainEvent::ModificationIssued {
                base_invoice_id,
                modification_invoice_id,
                modification_index,
            } => ChainFact::ModificationIssued {
                base_invoice_id: base_invoice_id@,
                modification_invoice_id: modification_invoice_id@,
                modification_index: *modification_index,
            },
            ChainEvent::Other => ChainFact::Other,
        }
    }
}

pub open spec fn facts(events: Seq<ChainEvent>) -> Seq<ChainFact> {
    events.map_values(|e: ChainEvent| e@)
}

/// What a storno issuance hands back.
#[derive(Clone, Debug, PartialEq, Eq)]
pub struct StornoIssuedSummary {
    pub invoice_id: String,
    pub invoice_number: String,
    pub modification_index: u32,
    pub entries_verified: u64,
}

// ── Request guard ────────────────────────────────────────────────────

pub open spec fn storno_request_spec(
    line_count: nat,
    tenant: Seq<char>,
    tenant_ok: bool,
    series: Seq<char>,
    series_ok: bool,
    references: Seq<char>,
) -> Option<RefusalView> {
    if line_count == 0 {
        Some(RefusalView::NoLines)
    } else if identity_guard(tenant, tenant_ok, series, series_ok) is Some {
        identity_guard(tenant, tenant_ok, series, series_ok)
    } else if !is_invoice_reference(references) {
        Some(RefusalView::MalformedReference(references))
    } else {
        None
    }
}

/// The checks a storno request passes before the pipeline reads the
/// ledger: it has lines, the tenant and series identifiers were accepted
/// (`tenant_ok`, `series_ok`), and it references a prefixed invoice id.
pub fn check_storno_request(
    input: &InvoiceInputJson,
    tenant: &str,
    tenant_ok: bool,
    series: &str,
    series_ok: bool,
    references: &str,
) -> (r: Result<(), RequestRefusal>)
    ensures
        guard_view(r) == storno_request_spec(
            input.lines@.len(),
            tenant@,
            tenant_ok,
            series@,
            series_ok,
            references@,
        ),
{
    if input.lines.len() == 0 {
        return Err(RequestRefusal::NoLines);
    }
    if !tenant_ok {
        return Err(RequestRefusal::InvalidTenant(String::from_str(tenant)));
    }
    if !series_ok {
        return Err(RequestRefusal::InvalidSeries(String::from_str(series)));
    }
    reference_check(references)
}

pub(crate) fn reference_check(references: &str) -> (r: Result<(), RequestRefusal>)
    ensures
        guard_view(r) == (if is_invoice_reference(references@) {
            None
        } else {
            Some(RefusalView::MalformedReference(references@))
        }),
{
    proof {
        reveal_strlit("inv_");
    }
    if starts_with(references, "inv_") {
        Ok(())
    } else {
        Err(RequestRefusal::MalformedReference(String::from_str(references)))
    }
}

/// The buyer tax number a chain member carries onto the NAV wire: the
/// trimmed text, or none when it is blank.
pub fn chain_customer_tax_number(customer: &CustomerJson) -> (r: Option<String>)
    ensures
        r is None <==> trim(customer.tax_number@).len() == 0,
        r is Some ==> r->0@ == trim(customer.tax_number@),
{
    let t = trim_to_string(customer.tax_number.as_str());
    if t.unicode_len() == 0 {
        None
    } else {
        Some(t)
    }
}

// ── Chain child gross ────────────────────────────────────────────────

/// The two chain members that follow a base.
#[derive(Clone, Copy, Debug, PartialEq, Eq, Structural)]
pub enum ChainKind {
    Storno,
    Modification,
}

pub open spec fn chain_kind_word(k: ChainKind) -> Seq<char> {
    match k {
        ChainKind::Storno => "storno"@,
        ChainKind::Modification => "modification"@,
    }
}

/// The signed gross (minor units) a chain child carries into the rate
/// inheritance: a storno reverses its lines' total, a modification (a full
/// replacement) keeps it.
pub open spec fn chain_child_gross_spec(kind: ChainKind, line_grosses: Seq<Option<i64>>) -> Result<
    i64,
    Seq<char>,
> {
    match gross_total_spec(line_grosses) {
        Err(GrossTotalError::LineOverflow) => Err(
            chain_kind_word(kind) + " line gross_total overflow"@,
        ),
        Err(GrossTotalError::TotalOverflow) => Err(
            chain_kind_word(kind) + " gross accumulator overflow"@,
        ),
        Ok(t) => match kind {
            ChainKind::Storno => if t == i64::MIN {
                Err("storno gross negation overflow"@)
            } else {
                Ok(-t as i64)
            },
            ChainKind::Modification => Ok(t),
        },
    }
}

/// The gross a chain child hands to the rate inheritance, from the
/// per-line gross totals (`None` marks a line whose own total overflowed).
pub fn chain_child_gross(kind: ChainKind, line_grosses: &Vec<Option<i64>>) -> (r: Result<
    i64,
    String,
>)
    ensures
        match chain_child_gross_spec(kind, line_grosses@) {
            Ok(g) => r == Ok::<i64, String>(g),
            Err(m) => r matches Err(e) && e@ == m,
        },
{
    let word = match kind {
        ChainKind::Storno => "storno",
        ChainKind::Modification => "modification",
    };
    match invoice_gross_total(line_grosses) {
        Err(GrossTotalError::LineOverflow) => {
            let mut s = String::from_str(word);
            s.append(" line gross_total overflow");
            Err(s)
        },
        Err(GrossTotalError::TotalOverflow) => {
            let mut s = String::from_str(word);
            s.append(" gross accumulator overflow");
            Err(s)
        },
        Ok(t) => match kind {
            ChainKind::Storno => if t == i64::MIN {
                Err(String::from_str("storno gross negation overflow"))
            } else {
                Ok(-t)
            },
            ChainKind::Modification => Ok(t),
        },
    }
}

// ── Per-entry predicates ─────────────────────────────────────────────

pub open spec fn is_abandon_of(x: ChainFact, id: Seq<char>) -> bool {
    x matches ChainFact::MarkedAbandoned { invoice_id } && invoice_id == id
}

pub open spec fn is_submission_of(x: ChainFact, id: Seq<char>) -> bool {
    x matches ChainFact::SubmissionResponse { invoice_id } && invoice_id == id
}

pub open spec fn is_saved_ack_of(x: ChainFact, id: Seq<char>) -> bool {
    x matches ChainFact::AckStatus { invoice_id, ack_status } && invoice_id == id && ack_status
        == "SAVED"@
}

pub open spec fn is_storno_against(x: ChainFact, base: Seq<char>) -> bool {
    x matches ChainFact::StornoIssued { base_invoice_id, .. } && base_invoice_id == base
}

pub open spec fn is_modification_against(x: ChainFact, base: Seq<char>) -> bool {
    x matches ChainFact::ModificationIssued { base_invoice_id, .. } && base_invoice_id == base
}

// ── Trail-wide predicates (oldest first) ─────────────────────────────

pub open spec fn any_abandon(f: Seq<ChainFact>, id: Seq<char>) -> bool
    decreases f.len(),
{
    f.len() > 0 && (any_abandon(f.drop_last(), id) || is_abandon_of(f.last(), id))
}

pub open spec fn any_submission(f: Seq<ChainFact>, id: Seq<char>) -> bool
    decreases f.len(),
{
    f.len() > 0 && (any_submission(f.drop_last(), id) || is_submission_of(f.last(), id))
}

/// NAV answered SAVED (terminal-positive) for `id` at some point.
pub open spec fn is_saved(f: Seq<ChainFact>, id: Seq<char>) -> bool
    decreases f.len(),
{
    f.len() > 0 && (is_saved(f.drop_last(), id) || is_saved_ack_of(f.last(), id))
}

pub open spec fn any_storno(f: Seq<ChainFact>, base: Seq<char>) -> bool
    decreases f.len(),
{
    f.len() > 0 && (any_storno(f.drop_last(), base) || is_storno_against(f.last(), base))
}

pub open spec fn any_modification(f: Seq<ChainFact>, base: Seq<char>) -> bool
    decreases f.len(),
{
    f.len() > 0 && (any_modification(f.drop_last(), base) || is_modification_against(f.last(), base))
}

/// Status carried by the newest ack entry for `id`.
pub open spec fn latest_ack(f: Seq<ChainFact>, id: Seq<char>) -> Option<Seq<char>>
    decreases f.len(),
{
    if f.len() == 0 {
        None
    } else {
        match f.last() {
            ChainFact::AckStatus { invoice_id, ack_status } => if invoice_id == id {
                Some(ack_status)
            } else {
                latest_ack(f.drop_last(), id)
            },
            _ => latest_ack(f.drop_last(), id),
        }
    }
}

/// Why a chain member may not be issued against a base.
#[derive(Clone, Debug, PartialEq, Eq)]
pub enum ChainRefusal {
    /// The operator marked the base abandoned.
    Abandoned,
    /// A storno already cancelled the base.
    Stornoed,
    /// The base was never submitted to NAV.
    NeverSubmitted,
    /// NAV's last answer for the base was ABORTED.
    Rejected,
    /// NAV's last answer for the base is not terminal.
    Stuck { last_ack: String },
    /// Submitted, but NAV has not answered yet.
    AwaitingAck,
}

pub enum ChainRefusalView {
    Abandoned,
    Stornoed,
    NeverSubmitted,
    Rejected,
    Stuck { last_ack: Seq<char> },
    AwaitingAck,
}

impl View for ChainRefusal {
    type V = ChainRefusalView;

    open spec fn view(&self) -> ChainRefusalView {
        match self {
            ChainRefusal::Abandoned => ChainRefusalView::Abandoned,
            ChainRefusal::Stornoed => ChainRefusalView::Stornoed,
            ChainRefusal::NeverSubmitted => ChainRefusalView::NeverSubmitted,
            ChainRefusal::Rejected => ChainRefusalView::Rejected,
            ChainRefusal::Stuck { last_ack } => ChainRefusalView::Stuck { last_ack: last_ack@ },
            ChainRefusal::AwaitingAck => ChainRefusalView::AwaitingAck,
        }
    }
}

/// Verdict on storno-ability: the base must be Finalized — submitted, last
/// ack SAVED, never abandoned.
pub open spec fn storno_verdict(f: Seq<ChainFact>, base: Seq<char>) -> Result<(), ChainRefusalView> {
    if any_abandon(f, base) {
        Err(ChainRefusalView::Abandoned)
    } else if !any_submission(f, base) {
        Err(ChainRefusalView::NeverSubmitted)
    } else {
        match latest_ack(f, base) {
            Some(s) => if s == "SAVED"@ {
                Ok(())
            } else if s == "ABORTED"@ {
                Err(ChainRefusalView::Rejected)
            } else {
                Err(ChainRefusalView::Stuck { last_ack: s })
            },
            None => Err(ChainRefusalView::AwaitingAck),
        }
    }
}

pub open spec fn result_view(r: Result<(), ChainRefusal>) -> Result<(), ChainRefusalView> {
    match r {
        Ok(()) => Ok(()),
        Err(e) => Err(e@),
    }
}

// ── Scans ────────────────────────────────────────────────────────────

/// Flags gathered in one forward walk over the trail.
pub struct BaseScan {
    pub abandoned: bool,
    pub submitted: bool,
    pub stornoed: bool,
    pub modified: bool,
    pub latest_ack: Option<String>,
}

pub(crate) proof fn lemma_facts_prefix(events: Seq<ChainEvent>, i: int)
    requires
        0 <= i < events.len(),
    ensures
        facts(events.subrange(0, i + 1)).drop_last() == facts(events.subrange(0, i)),
        facts(events.subrange(0, i + 1)).last() == events[i]@,
        facts(events.subrange(0, i + 1)).len() == i + 1,
{
    assert(facts(events.subrange(0, i + 1)).drop_last() =~= facts(events.subrange(0, i)));
}

/// One forward walk collecting everything the preconditions read about
/// `base`.
pub fn scan_base(entries: &Vec<ChainEvent>, base: &str) -> (r: BaseScan)
    ensures
        r.abandoned == any_abandon(facts(entries@), base@),
        r.submitted == any_submission(facts(entries@), base@),
        r.stornoed == any_storno(facts(entries@), base@),
        r.modified == any_modification(facts(entries@), base@),
        opt_view(r.latest_ack) == latest_ack(facts(entries@), base@),
{
    let mut abandoned = false;
    let mut submitted = false;
    let mut stornoed = false;
    let mut modified = false;
    let mut latest: Option<String> = None;
    let mut i: usize = 0;
    while i < entries.len()
        invariant
            i <= entries.len(),
            abandoned == any_abandon(facts(entries@.subrange(0, i as int)), base@),
            submitted == any_submission(facts(entries@.subrange(0, i as int)), base@),
            stornoed == any_storno(facts(entries@.subrange(0, i as int)), base@),
            modified == any_modification(facts(entries@.subrange(0, i as int)), base@),
            opt_view(latest) == latest_ack(facts(entries@.subrange(0, i as int)), base@),
        decreases entries.len() - i,
    {
        proof {
            lemma_facts_prefix(entries@, i as int);
        }
        match &entries[i] {
            ChainEvent::MarkedAbandoned { invoice_id } => {
                if str_eq(invoice_id.as_str(), base) {
                    abandoned = true;
                }
            },
            ChainEvent::SubmissionResponse { invoice_id } => {
                if str_eq(invoice_id.as_str(), base) {
                    submitted = true;
                }
            },
            ChainEvent::AckStatus { invoice_id, ack_status } => {
                if str_eq(invoice_id.as_str(), base) {
                    latest = Some(ack_status.clone());
                }
            },
            ChainEvent::StornoIssued { base_invoice_id, .. } => {
                if str_eq(base_invoice_id.as_str(), base) {
                    stornoed = true;
                }
            },
            ChainEvent::ModificationIssued { base_invoice_id, .. } => {
                if str_eq(base_invoice_id.as_str(), base) {
                    modified = true;
                }
            },
            _ => {},
        }
        i = i + 1;
    }
    assert(entries@.subrange(0, entries.len() as int) =~= entries@);
    BaseScan { abandoned, submitted, stornoed, modified, latest_ack: latest }
}

fn ack_is(s: &String, lit: &str) -> (r: bool)
    ensures
        r == (s@ == lit@),
{
    str_eq(s.as_str(), lit)
}

/// A storno is only valid against a Finalized base: submitted, last NAV
/// ack SAVED, and never marked abandoned.
pub fn check_base_is_finalized(entries: &Vec<ChainEvent>, base_invoice_id: &str) -> (r: Result<(), ChainRefusal>)
    ensures
        result_view(r) == storno_verdict(facts(entries@), base_invoice_id@),
{
    let scan = scan_base(entries, base_invoice_id);
    if scan.abandoned {
        return Err(ChainRefusal::Abandoned);
    }
    if !scan.submitted {
        return Err(ChainRefusal::NeverSubmitted);
    }
    match scan.latest_ack {
        Some(s) => {
            if ack_is(&s, "SAVED") {
                Ok(())
            } else if ack_is(&s, "ABORTED") {
                Err(ChainRefusal::Rejected)
            } else {
                Err(ChainRefusal::Stuck { last_ack: s })
            }
        },
        None => Err(ChainRefusal::AwaitingAck),
    }
}

/// Operator-facing text of a storno refusal against `base`.
pub open spec fn storno_refusal_text(base: Seq<char>, e: ChainRefusalView) -> Seq<char> {
    match e {
        ChainRefusalView::Abandoned => "base invoice "@ + base
            + " is ABANDONED (operator previously ran `aberp mark-abandoned`); no storno can be issued against it"@,
        ChainRefusalView::Stornoed => Seq::empty(),
        ChainRefusalView::NeverSubmitted => "base invoice "@ + base
            + " has no NAV submission response on record — run `aberp submit-invoice` and `aberp poll-ack` first to finalize it before issuing a storno"@,
        ChainRefusalView::Rejected => "base invoice "@ + base
            + " was REJECTED by NAV (last ack: ABORTED) — a storno is only valid against a SAVED (finalized) invoice; issue a corrective new invoice instead"@,
        ChainRefusalView::Stuck { last_ack } => "base invoice "@ + base + " is STUCK (last ack: "@
            + last_ack
            + ") — finalize it via `aberp poll-ack` (or unblock via `aberp retry-submission`) before issuing a storno; storno against a not-yet-finalized invoice is rejected per ADR-0023 §1"@,
        ChainRefusalView::AwaitingAck => "base invoice "@ + base
            + " has a submission response but no ack status — run `aberp poll-ack` first; storno requires the base to be finalized (NAV terminal SAVED) per ADR-0023 §1"@,
    }
}

/// Operator-facing text of a storno refusal (the finalized check never
/// answers `Stornoed`).
pub fn storno_refusal_message(base: &str, e: &ChainRefusal) -> (r: String)
    requires
        !(e@ is Stornoed),
    ensures
        r@ == storno_refusal_text(base@, e@),
{
    let mut s = String::from_str("base invoice ");
    s.append(base);
    match e {
        ChainRefusal::Abandoned => {
            s.append(
                " is ABANDONED (operator previously ran `aberp mark-abandoned`); no storno can be issued against it",
            );
        },
        ChainRefusal::Stornoed => {
            assert(false);
        },
        ChainRefusal::NeverSubmitted => {
            s.append(
                " has no NAV submission response on record — run `aberp submit-invoice` and `aberp poll-ack` first to finalize it before issuing a storno",
            );
        },
        ChainRefusal::Rejected => {
            s.append(
                " was REJECTED by NAV (last ack: ABORTED) — a storno is only valid against a SAVED (finalized) invoice; issue a corrective new invoice instead",
            );
        },
        ChainRefusal::Stuck { last_ack } => {
            s.append(" is STUCK (last ack: ");
            s.append(last_ack.as_str());
            s.append(
                ") — finalize it via `aberp poll-ack` (or unblock via `aberp retry-submission`) before issuing a storno; storno against a not-yet-finalized invoice is rejected per ADR-0023 §1",
            );
        },
        ChainRefusal::AwaitingAck => {
            s.append(
                " has a submission response but no ack status — run `aberp poll-ack` first; storno requires the base to be finalized (NAV terminal SAVED) per ADR-0023 §1",
            );
        },
    }
    s
}

// ── modificationIndex allocation ─────────────────────────────────────

/// Index a chain entry occupies against `base`, counting only members whose
/// own submission reached SAVED (per the whole trail `all`).
pub open spec fn occupied_index(all: Seq<ChainFact>, x: ChainFact, base: Seq<char>) -> u32 {
    match x {
        ChainFact::StornoIssued { base_invoice_id, storno_invoice_id, modification_index } =>
            if base_invoice_id == base && is_saved(all, storno_invoice_id) {
                modification_index
            } else {
                0
            },
        ChainFact::ModificationIssued { base_invoice_id, modification_invoice_id, modification_index } =>
            if base_invoice_id == base && is_saved(all, modification_invoice_id) {
                modification_index
            } else {
                0
            },
        _ => 0,
    }
}

/// Largest index occupied against `base` among the entries `f`.
pub open spec fn max_occupied(all: Seq<ChainFact>, f: Seq<ChainFact>, base: Seq<char>) -> u32
    decreases f.len(),
{
    if f.len() == 0 {
        0
    } else {
        let rest = max_occupied(all, f.drop_last(), base);
        let here = occupied_index(all, f.last(), base);
        if here > rest {
            here
        } else {
            rest
        }
    }
}

/// Next `modificationIndex` against `base`: one past the largest index held
/// by a SAVED storno or modification of that base (saturating).
pub open spec fn next_index_spec(f: Seq<ChainFact>, base: Seq<char>) -> u32 {
    let m = max_occupied(f, f, base);
    if m == u32::MAX {
        u32::MAX
    } else {
        (m + 1) as u32
    }
}

/// Whether NAV answered SAVED for `id` anywhere in the trail.
pub fn is_saved_member(entries: &Vec<ChainEvent>, id: &str) -> (r: bool)
    ensures
        r == is_saved(facts(entries@), id@),
{
    let mut found = false;
    let mut i: usize = 0;
    while i < entries.len()
        invariant
            i <= entries.len(),
            found == is_saved(facts(entries@.subrange(0, i as int)), id@),
        decreases entries.len() - i,
    {
        proof {
            lemma_facts_prefix(entries@, i as int);
        }
        if let ChainEvent::AckStatus { invoice_id, ack_status } = &entries[i] {
            if str_eq(invoice_id.as_str(), id) && ack_is(ack_status, "SAVED") {
                found = true;
            }
        }
        i = i + 1;
    }
    assert(entries@.subrange(0, entries.len() as int) =~= entries@);
    found
}

/// The next chain `modificationIndex` against `base_invoice_id`. Storno and
/// modification entries share one index space; a member whose own NAV
/// submission never reached SAVED holds no index.
pub fn next_modification_index(entries: &Vec<ChainEvent>, base_invoice_id: &str) -> (r: u32)
    ensures
        r == next_index_spec(facts(entries@), base_invoice_id@),
{
    let ghost all = facts(entries@);
    let mut max_index: u32 = 0;
    let mut i: usize = 0;
    while i < entries.len()
        invariant
            i <= entries.len(),
            all == facts(entries@),
            max_index == max_occupied(all, facts(entries@.subrange(0, i as int)), base_invoice_id@),
        decreases entries.len() - i,
    {
        proof {
            lemma_facts_prefix(entries@, i as int);
        }
        let here: u32 = match &entries[i] {
            ChainEvent::StornoIssued { base_invoice_id: b, storno_invoice_id, modification_index } => {
                if str_eq(b.as_str(), base_invoice_id) && is_saved_member(entries, storno_invoice_id.as_str()) {
                    *modification_index
                } else {
                    0
                }
            },
            ChainEvent::ModificationIssued { base_invoice_id: b, modification_invoice_id, modification_index } => {
                if str_eq(b.as_str(), base_invoice_id) && is_saved_member(entries, modification_invoice_id.as_str()) {
                    *modification_index
                } else {
                    0
                }
            },
            _ => 0,
        };
        assert(here == occupied_index(all, entries@[i as int]@, base_invoice_id@));
        if here > max_index {
            max_index = here;
        }
        i = i + 1;
    }
    assert(entries@.subrange(0, entries.len() as int) =~= entries@);
    if max_index == u32::MAX {
        u32::MAX
    } else {
        max_index + 1
    }
}

// ── Base NAV XML path ────────────────────────────────────────────────

/// The newest draft entry for `id`: `Some(path-or-none)`, or `None` when no
/// draft was recorded.
pub open spec fn latest_draft(f: Seq<ChainFact>, id: Seq<char>) -> Option<Option<Seq<char>>>
    decreases f.len(),
{
    if f.len() == 0 {
        None
    } else {
        match f.last() {
            ChainFact::DraftCreated { invoice_id, nav_xml_path } => if invoice_id == id {
                Some(nav_xml_path)
            } else {
                latest_draft(f.drop_last(), id)
            },
            _ => latest_draft(f.drop_last(), id),
        }
    }
}

/// Why the base's NAV XML path could not be resolved.
#[derive(Clone, Copy, Debug, PartialEq, Eq, Structural)]
pub enum NavXmlPathError {
    /// No draft entry was ever recorded for the invoice.
    NoDraft,
    /// The newest draft entry for the invoice carries no path.
    DraftWithoutPath,
}

pub open spec fn nav_xml_path_spec(f: Seq<ChainFact>, id: Seq<char>) -> Result<Seq<char>, NavXmlPathError> {
    match latest_draft(f, id) {
        None => Err(NavXmlPathError::NoDraft),
        Some(None) => Err(NavXmlPathError::DraftWithoutPath),
        Some(Some(p)) => Ok(p),
    }
}

/// The NAV XML path recorded on the newest draft entry of
/// `base_invoice_id` (walking newest to oldest).
pub fn find_base_nav_xml_path_for_chain(entries: &Vec<ChainEvent>, base_invoice_id: &str) -> (r: Result<String, NavXmlPathError>)
    ensures
        match r {
            Ok(p) => nav_xml_path_spec(facts(entries@), base_invoice_id@) == Ok::<Seq<char>, NavXmlPathError>(p@),
            Err(e) => nav_xml_path_spec(facts(entries@), base_invoice_id@) == Err::<Seq<char>, NavXmlPathError>(e),
        },
{
    let mut j: usize = entries.len();
    assert(entries@.subrange(0, j as int) =~= entries@);
    while j > 0
        invariant
            j <= entries.len(),
            latest_draft(facts(entries@), base_invoice_id@) == latest_draft(
                facts(entries@.subrange(0, j as int)),
                base_invoice_id@,
            ),
        decreases j,
    {
        proof {
            lemma_facts_prefix(entries@, (j - 1) as int);
        }
        if let ChainEvent::DraftCreated { invoice_id, nav_xml_path } = &entries[j - 1] {
            if str_eq(invoice_id.as_str(), base_invoice_id) {
                return match nav_xml_path {
                    Some(p) => Ok(p.clone()),
                    None => Err(NavXmlPathError::DraftWithoutPath),
                };
            }
        }
        j = j - 1;
    }
    proof {
        assert(facts(entries@.subrange(0, 0)).len() == 0);
    }
    Err(NavXmlPathError::NoDraft)
}

pub open spec fn nav_xml_path_error_text(id: Seq<char>, e: NavXmlPathError) -> Seq<char> {
    match e {
        NavXmlPathError::NoDraft => "base invoice "@ + id
            + " has no InvoiceDraftCreated audit entry — chain emission requires a recorded NAV XML path to bind `<originalInvoiceNumber>` to the byte-exact string NAV holds on file"@,
        NavXmlPathError::DraftWithoutPath => "base invoice "@ + id
            + " has an InvoiceDraftCreated audit entry without `nav_xml_path` — chain emission cannot recover the base's NAV-side invoice number for the `<originalInvoiceNumber>` reference"@,
    }
}

pub fn nav_xml_path_error_message(id: &str, e: NavXmlPathError) -> (r: String)
    ensures
        r@ == nav_xml_path_error_text(id@, e),
{
    let mut s = String::from_str("base invoice ");
    s.append(id);
    match e {
        NavXmlPathError::NoDraft => {
            s.append(
                " has no InvoiceDraftCreated audit entry — chain emission requires a recorded NAV XML path to bind `<originalInvoiceNumber>` to the byte-exact string NAV holds on file",
            );
        },
        NavXmlPathError::DraftWithoutPath => {
            s.append(
                " has an InvoiceDraftCreated audit entry without `nav_xml_path` — chain emission cannot recover the base's NAV-side invoice number for the `<originalInvoiceNumber>` reference",
            );
        },
    }
    s
}

// ── SAVED prior modifications a storno must fold ─────────────────────

/// A SAVED modification of a base, with the chain index it holds.
#[derive(Clone, Debug, PartialEq, Eq)]
pub struct ChainMember {
    pub modification_index: u32,
    pub invoice_id: String,
}

pub open spec fn members_view(v: Seq<ChainMember>) -> Seq<(u32, Seq<char>)> {
    v.map_values(|m: ChainMember| (m.modification_index, m.invoice_id@))
}

/// SAVED modifications of `base` among the entries `f`, in trail order.
pub open spec fn saved_modifications(all: Seq<ChainFact>, f: Seq<ChainFact>, base: Seq<char>) -> Seq<(u32, Seq<char>)>
    decreases f.len(),
{
    if f.len() == 0 {
        Seq::empty()
    } else {
        let rest = saved_modifications(all, f.drop_last(), base);
        match f.last() {
            ChainFact::ModificationIssued { base_invoice_id, modification_invoice_id, modification_index } =>
                if base_invoice_id == base && is_saved(all, modification_invoice_id) {
                    rest.push((modification_index, modification_invoice_id))
                } else {
                    rest
                },
            _ => rest,
        }
    }
}

/// Insert `x` after every element whose index is not larger (stable).
pub open spec fn insert_by_index(s: Seq<(u32, Seq<char>)>, x: (u32, Seq<char>)) -> Seq<(u32, Seq<char>)>
    decreases s.len(),
{
    if s.len() == 0 {
        seq![x]
    } else if s.last().0 <= x.0 {
        s.push(x)
    } else {
        insert_by_index(s.drop_last(), x).push(s.last())
    }
}

/// Stable sort by chain index.
pub open spec fn sort_by_index(s: Seq<(u32, Seq<char>)>) -> Seq<(u32, Seq<char>)>
    decreases s.len(),
{
    if s.len() == 0 {
        Seq::empty()
    } else {
        insert_by_index(sort_by_index(s.drop_last()), s.last())
    }
}

pub open spec fn sorted_by_index(s: Seq<(u32, Seq<char>)>) -> bool {
    forall|i: int, j: int| 0 <= i < j < s.len() ==> s[i].0 <= s[j].0
}

proof fn lemma_insert_at_scan_point(s: Seq<(u32, Seq<char>)>, x: (u32, Seq<char>), j: int)
    requires
        0 <= j <= s.len(),
        forall|k: int| j <= k < s.len() ==> s[k].0 > x.0,
        j == 0 || s[j - 1].0 <= x.0,
    ensures
        insert_by_index(s, x) == s.insert(j, x),
    decreases s.len(),
{
    if s.len() == 0 {
        assert(s.insert(j, x) =~= seq![x]);
    } else if s.last().0 <= x.0 {
        assert(j == s.len());
        assert(s.insert(j, x) =~= s.push(x));
    } else {
        let t = s.drop_last();
        assert(j < s.len());
        assert forall|k: int| j <= k < t.len() implies t[k].0 > x.0 by {
            assert(t[k] == s[k]);
        }
        if j > 0 {
            assert(t[j - 1] == s[j - 1]);
        }
        lemma_insert_at_scan_point(t, x, j);
        assert(t.insert(j, x).push(s.last()) =~= s.insert(j, x));
    }
}

/// The ids of the SAVED modifications of `base_invoice_id`, in
/// `modificationIndex` order (ties keep trail order).
pub fn saved_prior_modifications_for_chain(entries: &Vec<ChainEvent>, base_invoice_id: &str) -> (r: Vec<ChainMember>)
    ensures
        members_view(r@) == sort_by_index(saved_modifications(facts(entries@), facts(entries@), base_invoice_id@)),
{
    let ghost all = facts(entries@);
    let mut out: Vec<ChainMember> = Vec::new();
    let mut i: usize = 0;
    assert(members_view(out@) =~= Seq::<(u32, Seq<char>)>::empty());
    while i < entries.len()
        invariant
            i <= entries.len(),
            all == facts(entries@),
            members_view(out@) == sort_by_index(
                saved_modifications(all, facts(entries@.subrange(0, i as int)), base_invoice_id@),
            ),
        decreases entries.len() - i,
    {
        proof {
            lemma_facts_prefix(entries@, i as int);
        }
        let ghost prev = saved_modifications(all, facts(entries@.subrange(0, i as int)), base_invoice_id@);
        let ghost nxt = facts(entries@.subrange(0, (i + 1) as int));
        if let ChainEvent::ModificationIssued { base_invoice_id: b, modification_invoice_id, modification_index } = &entries[i] {
            if str_eq(b.as_str(), base_invoice_id) && is_saved_member(entries, modification_invoice_id.as_str()) {
                let idx = *modification_index;
                let mut j: usize = out.len();
                while j > 0 && out[j - 1].modification_index > idx
                    invariant
                        j <= out.len(),
                        forall|k: int| j <= k < out@.len() ==> out@[k].modification_index > idx,
                    decreases j,
                {
                    j = j - 1;
                }
                let member = ChainMember { modification_index: idx, invoice_id: modification_invoice_id.clone() };
                proof {
                    let mv = members_view(out@);
                    let x = (idx, modification_invoice_id@);
                    assert forall|k: int| j <= k < mv.len() implies mv[k].0 > x.0 by {
                        assert(mv[k].0 == out@[k].modification_index);
                    }
                    if j > 0 {
                        assert(mv[j - 1].0 == out@[j - 1].modification_index);
                    }
                    lemma_insert_at_scan_point(mv, x, j as int);
                    assert(members_view(out@.insert(j as int, member)) =~= mv.insert(j as int, x));
                }
                out.insert(j, member);
                proof {
                    let x = (idx, modification_invoice_id@);
                    assert(saved_modifications(all, nxt, base_invoice_id@) == prev.push(x));
                    assert(prev.push(x).drop_last() =~= prev);
                }
            } else {
                assert(saved_modifications(all, nxt, base_invoice_id@) == prev);
            }
        } else {
            assert(saved_modifications(all, nxt, base_invoice_id@) == prev);
        }
        i = i + 1;
    }
    assert(entries@.subrange(0, entries.len() as int) =~= entries@);
    out
}

proof fn lemma_insert_keeps_sorted(s: Seq<(u32, Seq<char>)>, x: (u32, Seq<char>))
    requires
        sorted_by_index(s),
    ensures
        sorted_by_index(insert_by_index(s, x)),
        insert_by_index(s, x).len() == s.len() + 1,
        forall|k: int| 0 <= k < insert_by_index(s, x).len() ==> (#[trigger] insert_by_index(s, x)[k] == x
            || s.contains(insert_by_index(s, x)[k])),
    decreases s.len(),
{
    if s.len() == 0 {
    } else if s.last().0 <= x.0 {
        let r = s.push(x);
        assert forall|k: int| 0 <= k < r.len() implies (#[trigger] r[k] == x || s.contains(r[k])) by {
            if k < s.len() {
                assert(r[k] == s[k]);
            }
        }
    } else {
        let t = s.drop_last();
        assert(sorted_by_index(t)) by {
            assert forall|i: int, j: int| 0 <= i < j < t.len() implies t[i].0 <= t[j].0 by {
                assert(t[i] == s[i] && t[j] == s[j]);
            }
        }
        lemma_insert_keeps_sorted(t, x);
        let u = insert_by_index(t, x);
        let r = u.push(s.last());
        assert forall|k: int| 0 <= k < u.len() implies u[k].0 <= s.last().0 by {
            if u[k] == x {
            } else {
                assert(t.contains(u[k]));
                let m = choose|m: int| 0 <= m < t.len() && t[m] == u[k];
                assert(s[m] == t[m]);
            }
        }
        assert forall|i: int, j: int| 0 <= i < j < r.len() implies r[i].0 <= r[j].0 by {
            if j == r.len() - 1 {
                assert(r[i] == u[i]);
            } else {
                assert(r[i] == u[i] && r[j] == u[j]);
            }
        }
        assert forall|k: int| 0 <= k < r.len() implies (#[trigger] r[k] == x || s.contains(r[k])) by {
            if k < u.len() {
                assert(r[k] == u[k]);
                if u[k] != x {
                    assert(t.contains(u[k]));
                    let m = choose|m: int| 0 <= m < t.len() && t[m] == u[k];
                    assert(s[m] == t[m]);
                }
            } else {
                assert(s[s.len() - 1] == s.last());
            }
        }
    }
}

/// The fold order is sorted by chain index.
pub proof fn lemma_fold_order_is_sorted(s: Seq<(u32, Seq<char>)>)
    ensures
        sorted_by_index(sort_by_index(s)),
        sort_by_index(s).len() == s.len(),
    decreases s.len(),
{
    if s.len() > 0 {
        lemma_fold_order_is_sorted(s.drop_last());
        lemma_insert_keeps_sorted(sort_by_index(s.drop_last()), s.last());
    }
}

proof fn lemma_insert_multiset(s: Seq<(u32, Seq<char>)>, x: (u32, Seq<char>))
    ensures
        insert_by_index(s, x).to_multiset() == s.to_multiset().insert(x),
    decreases s.len(),
{
    broadcast use vstd::seq_lib::group_to_multiset_ensures;
    if s.len() == 0 {
        assert(seq![x] =~= Seq::<(u32, Seq<char>)>::empty().push(x));
    } else if s.last().0 <= x.0 {
    } else {
        let t = s.drop_last();
        lemma_insert_multiset(t, x);
        assert(s =~= t.push(s.last()));
        assert(insert_by_index(s, x).to_multiset() =~= s.to_multiset().insert(x));
    }
}

/// The fold order neither drops nor invents a chain member: it is a
/// permutation of the SAVED modifications.
pub proof fn lemma_fold_order_is_permutation(s: Seq<(u32, Seq<char>)>)
    ensures
        sort_by_index(s).to_multiset() == s.to_multiset(),
    decreases s.len(),
{
    broadcast use vstd::seq_lib::group_to_multiset_ensures;
    if s.len() > 0 {
        lemma_fold_order_is_permutation(s.drop_last());
        lemma_insert_multiset(sort_by_index(s.drop_last()), s.last());
        assert(s =~= s.drop_last().push(s.last()));
    }
}

// ── Allocation laws ──────────────────────────────────────────────────

proof fn lemma_max_occupied_bounds(all: Seq<ChainFact>, f: Seq<ChainFact>, base: Seq<char>, k: int)
    requires
        0 <= k < f.len(),
    ensures
        occupied_index(all, f[k], base) <= max_occupied(all, f, base),
    decreases f.len(),
{
    if k < f.len() - 1 {
        lemma_max_occupied_bounds(all, f.drop_last(), base, k);
        assert(f.drop_last()[k] == f[k]);
    }
}

proof fn lemma_max_occupied_zero(all: Seq<ChainFact>, f: Seq<ChainFact>, base: Seq<char>)
    requires
        !any_storno(f, base),
        !any_modification(f, base),
    ensures
        max_occupied(all, f, base) == 0,
    decreases f.len(),
{
    if f.len() > 0 {
        lemma_max_occupied_zero(all, f.drop_last(), base);
    }
}

/// A base that no storno or modification references starts its chain at
/// index 1, whatever else the trail holds.
pub proof fn lemma_chain_starts_at_one(f: Seq<ChainFact>, base: Seq<char>)
    requires
        !any_storno(f, base),
        !any_modification(f, base),
    ensures
        next_index_spec(f, base) == 1,
{
    lemma_max_occupied_zero(f, f, base);
}

/// The allocator never hands out an index a SAVED chain member of the same
/// base already holds: the next index exceeds every occupied one (short of
/// saturation at `u32::MAX`).
pub proof fn lemma_next_index_exceeds_occupied(f: Seq<ChainFact>, base: Seq<char>, k: int)
    requires
        0 <= k < f.len(),
        max_occupied(f, f, base) < u32::MAX,
    ensures
        occupied_index(f, f[k], base) < next_index_spec(f, base),
{
    lemma_max_occupied_bounds(f, f, base, k);
}

} // verus!

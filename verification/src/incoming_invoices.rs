//! Accounts-payable side: supplier-issued incoming invoices, their
//! prefixed ids, the closed three-state status vocabulary, the closed
//! transition graph, and the validation / planning decisions that the
//! storage layer executes.

use vstd::prelude::*;
use crate::text::{
    contains_ignore_ascii_case, contains_lower_spec, is_blank, is_blank_spec, starts_with, str_eq,
    trim, trim_to_string,
};

verus! {

// ── Dates ────────────────────────────────────────────────────────────

/// Whether `time::Date::parse` accepts `s` under the format description
/// `[year]-[month]-[day]`.
pub uninterp spec fn ymd_date_accepted(s: Seq<char>) -> bool;

/// `time::Date::parse(s, "[year]-[month]-[day]")` succeeds. The description
/// is the version-1 one the `format_description!` macro builds.
#[verifier::external_body]
fn date_parses_ymd(s: &str) -> (r: bool)
    ensures
        r == ymd_date_accepted(s@),
{
    match time::format_description::parse_borrowed::<1>("[year]-[month]-[day]") {
        Ok(items) => time::Date::parse(s, &items).is_ok(),
        Err(_) => false,
    }
}

/// Strict `YYYY-MM-DD` calendar-date check.
pub fn is_canonical_iso_date(s: &str) -> (r: bool)
    ensures
        r == ymd_date_accepted(s@),
{
    date_parses_ymd(s)
}

// ── Ids ──────────────────────────────────────────────────────────────

/// Crockford base-32 text `ulid::Ulid` renders for a 128-bit value.
pub uninterp spec fn ulid_text(v: u128) -> Seq<char>;

/// What `ulid::Ulid::from_string` makes of a text.
pub uninterp spec fn ulid_decoded(s: Seq<char>) -> Result<u128, UlidDecodeError>;

/// `ulid::DecodeError`.
#[derive(Clone, Copy, Debug, PartialEq, Eq, Structural)]
pub enum UlidDecodeError {
    InvalidLength,
    InvalidChar,
}

/// A fresh ULID (`ulid::Ulid::new`): current time plus randomness.
#[verifier::external_body]
fn ulid_generate() -> u128 {
    ulid::Ulid::new().0
}

/// `ulid::Ulid::to_string`: 26 Crockford base-32 characters, which
/// `Ulid::from_string` decodes back to the same value.
#[verifier::external_body]
fn ulid_encode(v: u128) -> (r: String)
    ensures
        r@ == ulid_text(v),
        r@.len() == 26,
        ulid_decoded(r@) is Ok,
        ulid_decoded(r@)->Ok_0 == v,
{
    ulid::Ulid(v).to_string()
}

/// `ulid::Ulid::from_string`. A text that is not 26 characters long never
/// decodes (the crate checks the byte length, and a 26-byte text of another
/// character count holds non-ASCII bytes, which are not base-32 digits).
#[verifier::external_body]
fn ulid_decode(s: &str) -> (r: Result<u128, UlidDecodeError>)
    ensures
        r == ulid_decoded(s@),
        s@.len() != 26 ==> r is Err,
{
    match ulid::Ulid::from_string(s) {
        Ok(u) => Ok(u.0),
        Err(ulid::DecodeError::InvalidLength) => Err(UlidDecodeError::InvalidLength),
        Err(ulid::DecodeError::InvalidChar) => Err(UlidDecodeError::InvalidChar),
    }
}

pub open spec fn ulid_error_text(e: UlidDecodeError) -> Seq<char> {
    match e {
        UlidDecodeError::InvalidLength => "invalid length"@,
        UlidDecodeError::InvalidChar => "invalid character"@,
    }
}

/// Prefixed-ULID id of an incoming invoice (`apinv_<26-char ULID>`).
#[derive(Clone, Copy, Debug, PartialEq, Eq, Structural, Hash, PartialOrd, Ord)]
pub struct IncomingInvoiceId(pub u128);

pub open spec fn apinv_prefix() -> Seq<char> {
    "apinv_"@
}

/// What `parse_prefixed` answers for a text.
pub open spec fn parse_prefixed_spec(s: Seq<char>) -> Result<u128, Seq<char>> {
    if !(apinv_prefix().len() <= s.len() && s.subrange(0, apinv_prefix().len() as int) == apinv_prefix()) {
        Err("incoming-invoice id `"@ + s + "` missing `apinv_` prefix per ADR-0005"@)
    } else {
        match ulid_decoded(s.subrange(apinv_prefix().len() as int, s.len() as int)) {
            Ok(v) => Ok(v),
            Err(e) => Err("incoming-invoice id `"@ + s + "` body is not a valid 26-char ULID: "@
                + ulid_error_text(e)),
        }
    }
}

impl IncomingInvoiceId {
    /// A fresh id.
    pub fn new() -> (r: IncomingInvoiceId) {
        IncomingInvoiceId(ulid_generate())
    }

    /// `apinv_<ULID>`; parsing it back gives the same id.
    pub fn to_prefixed_string(self) -> (r: String)
        ensures
            r@ == apinv_prefix() + ulid_text(self.0),
            parse_prefixed_spec(r@) == Ok::<u128, Seq<char>>(self.0),
    {
        let mut s = String::from_str("apinv_");
        let body = ulid_encode(self.0);
        s.append(body.as_str());
        proof {
            reveal_strlit("apinv_");
            assert(s@.subrange(0, 6) =~= apinv_prefix());
            assert(s@.subrange(6, s@.len() as int) =~= body@);
        }
        s
    }

    /// Parse `apinv_<ULID>`.
    pub fn parse_prefixed(s: &str) -> (r: Result<IncomingInvoiceId, String>)
        ensures
            match r {
                Ok(id) => parse_prefixed_spec(s@) == Ok::<u128, Seq<char>>(id.0),
                Err(m) => parse_prefixed_spec(s@) == Err::<u128, Seq<char>>(m@),
            },
            s@.len() != apinv_prefix().len() + 26 ==> r is Err,
    {
        if !starts_with(s, "apinv_") {
            let mut m = String::from_str("incoming-invoice id `");
            m.append(s);
            m.append("` missing `apinv_` prefix per ADR-0005");
            return Err(m);
        }
        proof {
            reveal_strlit("apinv_");
        }
        let body = s.substring_char(6, s.unicode_len());
        match ulid_decode(body) {
            Ok(v) => Ok(IncomingInvoiceId(v)),
            Err(e) => {
                let mut m = String::from_str("incoming-invoice id `");
                m.append(s);
                m.append("` body is not a valid 26-char ULID: ");
                match e {
                    UlidDecodeError::InvalidLength => m.append("invalid length"),
                    UlidDecodeError::InvalidChar => m.append("invalid character"),
                }
                Err(m)
            },
        }
    }
}

/// `<prefix><ULID>`, the prefixed-id shape every entity uses.
pub fn prefixed_ulid_string(prefix: &str, v: u128) -> (r: String)
    ensures
        r@ == prefix@ + ulid_text(v),
{
    let mut s = String::from_str(prefix);
    let body = ulid_encode(v);
    s.append(body.as_str());
    s
}

/// A fresh 128-bit ULID value.
pub fn fresh_ulid() -> u128 {
    ulid_generate()
}

// ── Status vocabulary ────────────────────────────────────────────────

/// Operator-decided status of an incoming invoice.
#[derive(Clone, Copy, Debug, PartialEq, Eq, Structural, Hash)]
pub enum IncomingInvoiceStatus {
    Outstanding,
    Paid,
    Irrelevant,
}

pub open spec fn status_text(s: IncomingInvoiceStatus) -> Seq<char> {
    match s {
        IncomingInvoiceStatus::Outstanding => "Outstanding"@,
        IncomingInvoiceStatus::Paid => "Paid"@,
        IncomingInvoiceStatus::Irrelevant => "Irrelevant"@,
    }
}

pub open spec fn status_from_text(s: Seq<char>) -> Result<IncomingInvoiceStatus, Seq<char>> {
    if s == "Outstanding"@ {
        Ok(IncomingInvoiceStatus::Outstanding)
    } else if s == "Paid"@ {
        Ok(IncomingInvoiceStatus::Paid)
    } else if s == "Irrelevant"@ {
        Ok(IncomingInvoiceStatus::Irrelevant)
    } else {
        Err("unknown IncomingInvoiceStatus storage string: `"@ + s
            + "` (expected `Outstanding` / `Paid` / `Irrelevant`)"@)
    }
}

impl IncomingInvoiceStatus {
    /// Storage / wire form.
    pub fn as_str(self) -> (r: &'static str)
        ensures
            r@ == status_text(self),
    {
        match self {
            IncomingInvoiceStatus::Outstanding => "Outstanding",
            IncomingInvoiceStatus::Paid => "Paid",
            IncomingInvoiceStatus::Irrelevant => "Irrelevant",
        }
    }

    /// Parse the storage form; anything outside the vocabulary is refused.
    pub fn from_storage_str(s: &str) -> (r: Result<IncomingInvoiceStatus, String>)
        ensures
            match r {
                Ok(st) => status_from_text(s@) == Ok::<IncomingInvoiceStatus, Seq<char>>(st),
                Err(m) => status_from_text(s@) == Err::<IncomingInvoiceStatus, Seq<char>>(m@),
            },
    {
        if str_eq(s, "Outstanding") {
            Ok(IncomingInvoiceStatus::Outstanding)
        } else if str_eq(s, "Paid") {
            Ok(IncomingInvoiceStatus::Paid)
        } else if str_eq(s, "Irrelevant") {
            Ok(IncomingInvoiceStatus::Irrelevant)
        } else {
            let mut m = String::from_str("unknown IncomingInvoiceStatus storage string: `");
            m.append(s);
            m.append("` (expected `Outstanding` / `Paid` / `Irrelevant`)");
            Err(m)
        }
    }
}

/// Parsing the storage form of a status gives the status back, and distinct
/// statuses have distinct storage forms.
pub proof fn lemma_status_round_trip(s: IncomingInvoiceStatus, t: IncomingInvoiceStatus)
    ensures
        status_from_text(status_text(s)) == Ok::<IncomingInvoiceStatus, Seq<char>>(s),
        status_text(s) == status_text(t) ==> s == t,
{
    reveal_strlit("Outstanding");
    reveal_strlit("Paid");
    reveal_strlit("Irrelevant");
    assert("Outstanding"@.len() != "Paid"@.len());
    assert("Outstanding"@.len() != "Irrelevant"@.len());
    assert("Paid"@.len() != "Irrelevant"@.len());
}

// ── Transition graph ─────────────────────────────────────────────────

pub open spec fn transition_allowed_spec(from: IncomingInvoiceStatus, to: IncomingInvoiceStatus) -> bool {
    ||| from == IncomingInvoiceStatus::Outstanding && to == IncomingInvoiceStatus::Paid
    ||| from == IncomingInvoiceStatus::Outstanding && to == IncomingInvoiceStatus::Irrelevant
    ||| from == IncomingInvoiceStatus::Paid && to == IncomingInvoiceStatus::Outstanding
    ||| from == IncomingInvoiceStatus::Irrelevant && to == IncomingInvoiceStatus::Outstanding
}

/// The closed graph: `Outstanding` ⇄ `Paid`, `Outstanding` ⇄ `Irrelevant`;
/// `Paid` and `Irrelevant` never lead into each other directly.
pub fn transition_allowed(from: IncomingInvoiceStatus, to: IncomingInvoiceStatus) -> (r: bool)
    ensures
        r == transition_allowed_spec(from, to),
{
    match (from, to) {
        (IncomingInvoiceStatus::Outstanding, IncomingInvoiceStatus::Paid) => true,
        (IncomingInvoiceStatus::Outstanding, IncomingInvoiceStatus::Irrelevant) => true,
        (IncomingInvoiceStatus::Paid, IncomingInvoiceStatus::Outstanding) => true,
        (IncomingInvoiceStatus::Irrelevant, IncomingInvoiceStatus::Outstanding) => true,
        _ => false,
    }
}

/// Every allowed move changes the status, every status other than
/// `Outstanding` can be unwound to `Outstanding`, and every move is
/// reversible in one step.
pub proof fn lemma_transition_graph(from: IncomingInvoiceStatus, to: IncomingInvoiceStatus)
    ensures
        transition_allowed_spec(from, to) ==> from != to,
        from != IncomingInvoiceStatus::Outstanding ==> transition_allowed_spec(
            from,
            IncomingInvoiceStatus::Outstanding,
        ),
        transition_allowed_spec(from, to) ==> transition_allowed_spec(to, from),
        !transition_allowed_spec(IncomingInvoiceStatus::Paid, IncomingInvoiceStatus::Irrelevant),
        !transition_allowed_spec(IncomingInvoiceStatus::Irrelevant, IncomingInvoiceStatus::Paid),
{
}

// ── Records ──────────────────────────────────────────────────────────

/// Stored row of an incoming invoice.
#[derive(Clone, Debug, PartialEq, Eq)]
pub struct IncomingInvoice {
    pub id: String,
    pub supplier_tax_number: String,
    pub supplier_name: String,
    pub supplier_address: Option<String>,
    pub nav_invoice_number: String,
    pub issue_date: String,
    pub delivery_date: Option<String>,
    pub payment_deadline: Option<String>,
    pub total_net_minor: i64,
    pub total_vat_minor: i64,
    pub total_gross_minor: i64,
    pub currency: String,
    pub local_status: String,
    pub irrelevant_reason: Option<String>,
    pub nav_xml_path: Option<String>,
    pub created_at: String,
    pub updated_at: String,
}

/// Typed fields of a supplier invoice to ingest.
#[derive(Clone, Debug, PartialEq, Eq)]
pub struct IngestionInput {
    pub supplier_tax_number: String,
    pub supplier_name: String,
    pub supplier_address: Option<String>,
    pub nav_invoice_number: String,
    pub issue_date: String,
    pub delivery_date: Option<String>,
    pub payment_deadline: Option<String>,
    pub total_net_minor: i64,
    pub total_vat_minor: i64,
    pub total_gross_minor: i64,
    pub currency: String,
    pub nav_xml: Option<Vec<u8>>,
}

/// Outcome of an ingestion.
#[derive(Clone, Debug, PartialEq, Eq)]
pub enum IngestOutcome {
    Created { id: String },
    AlreadyExists { id: String },
}

/// Outcome of a status change.
#[derive(Clone, Debug, PartialEq, Eq)]
pub struct StatusChangeOutcome {
    pub id: String,
    pub from_status: String,
    pub to_status: String,
    pub reason: Option<String>,
    pub entries_verified: u64,
}

/// Typed refusals of a status change.
#[derive(Clone, Debug, PartialEq, Eq)]
pub enum StatusChangeError {
    NotFound,
    InvalidTransition { from: String, to: String },
    ReasonRequiredForIrrelevant,
    Other(String),
}

/// Typed refusals of an ingestion.
#[derive(Clone, Debug, PartialEq, Eq)]
pub enum IngestError {
    InvalidInput(String),
    Other(String),
}

// ── Ingestion validation ─────────────────────────────────────────────

pub open spec fn opt_text(o: Option<String>) -> Option<Seq<char>> {
    match o {
        Some(s) => Some(s@),
        None => None,
    }
}

/// First rule an ingestion input breaks, as the message of the 400, given
/// which of its dates parse.
pub open spec fn ingestion_problem(
    input: IngestionInput,
    issue_ok: bool,
    payment_ok: bool,
    delivery_ok: bool,
) -> Option<Seq<char>> {
    if is_blank_spec(input.supplier_tax_number@) {
        Some("supplier_tax_number must be non-empty"@)
    } else if is_blank_spec(input.supplier_name@) {
        Some("supplier_name must be non-empty"@)
    } else if is_blank_spec(input.nav_invoice_number@) {
        Some("nav_invoice_number must be non-empty"@)
    } else if !issue_ok {
        Some("issue_date"@ + " `"@ + input.issue_date@ + "` is not a valid ISO-8601 YYYY-MM-DD date"@)
    } else if input.payment_deadline is Some && !payment_ok {
        Some("payment_deadline"@ + " `"@ + input.payment_deadline->0@
            + "` is not a valid ISO-8601 YYYY-MM-DD date"@)
    } else if input.delivery_date is Some && !delivery_ok {
        Some("delivery_date"@ + " `"@ + input.delivery_date->0@
            + "` is not a valid ISO-8601 YYYY-MM-DD date"@)
    } else if !(input.currency@ == "HUF"@ || input.currency@ == "EUR"@) {
        Some("currency `"@ + input.currency@ + "` not in closed vocab (HUF | EUR)"@)
    } else {
        None
    }
}

pub open spec fn ingest_check_spec(r: Result<(), IngestError>, problem: Option<Seq<char>>) -> bool {
    match problem {
        None => r is Ok,
        Some(m) => r matches Err(IngestError::InvalidInput(s)) && s@ == m,
    }
}

fn invalid(parts: String) -> (r: Result<(), IngestError>)
    ensures
        r matches Err(IngestError::InvalidInput(s)) && s@ == parts@,
{
    Err(IngestError::InvalidInput(parts))
}

fn date_message(field: &str, value: &str) -> (r: String)
    ensures
        r@ == field@ + " `"@ + value@ + "` is not a valid ISO-8601 YYYY-MM-DD date"@,
{
    let mut m = String::from_str(field);
    m.append(" `");
    m.append(value);
    m.append("` is not a valid ISO-8601 YYYY-MM-DD date");
    m
}

/// The validation rules over an ingestion input once it is known which of
/// its dates parse (`payment_ok` / `delivery_ok` are read only when the
/// date is present).
pub fn classify_ingestion_input(
    input: &IngestionInput,
    issue_ok: bool,
    payment_ok: bool,
    delivery_ok: bool,
) -> (r: Result<(), IngestError>)
    ensures
        ingest_check_spec(r, ingestion_problem(*input, issue_ok, payment_ok, delivery_ok)),
{
    if is_blank(input.supplier_tax_number.as_str()) {
        return invalid(String::from_str("supplier_tax_number must be non-empty"));
    }
    if is_blank(input.supplier_name.as_str()) {
        return invalid(String::from_str("supplier_name must be non-empty"));
    }
    if is_blank(input.nav_invoice_number.as_str()) {
        return invalid(String::from_str("nav_invoice_number must be non-empty"));
    }
    if !issue_ok {
        let m = date_message("issue_date", input.issue_date.as_str());
        return invalid(m);
    }
    if let Some(d) = &input.payment_deadline {
        if !payment_ok {
            let m = date_message("payment_deadline", d.as_str());
            return invalid(m);
        }
    }
    if let Some(d) = &input.delivery_date {
        if !delivery_ok {
            let m = date_message("delivery_date", d.as_str());
            return invalid(m);
        }
    }
    if !(str_eq(input.currency.as_str(), "HUF") || str_eq(input.currency.as_str(), "EUR")) {
        let mut m = String::from_str("currency `");
        m.append(input.currency.as_str());
        m.append("` not in closed vocab (HUF | EUR)");
        return invalid(m);
    }
    Ok(())
}

pub open spec fn date_ok_spec(d: Option<String>) -> bool {
    match d {
        Some(s) => ymd_date_accepted(s@),
        None => true,
    }
}

/// Validate the typed fields of an ingestion input: non-blank identifying
/// strings, canonical `YYYY-MM-DD` dates, currency `HUF` or `EUR`.
pub fn validate_ingestion_input(input: &IngestionInput) -> (r: Result<(), IngestError>)
    ensures
        ingest_check_spec(
            r,
            ingestion_problem(
                *input,
                ymd_date_accepted(input.issue_date@),
                date_ok_spec(input.payment_deadline),
                date_ok_spec(input.delivery_date),
            ),
        ),
{
    let issue_ok = is_canonical_iso_date(input.issue_date.as_str());
    let payment_ok = match &input.payment_deadline {
        Some(d) => is_canonical_iso_date(d.as_str()),
        None => true,
    };
    let delivery_ok = match &input.delivery_date {
        Some(d) => is_canonical_iso_date(d.as_str()),
        None => true,
    };
    classify_ingestion_input(input, issue_ok, payment_ok, delivery_ok)
}

// ── Status-change planning ───────────────────────────────────────────

/// `reason.trim()`, dropped when blank.
pub open spec fn trimmed_reason_spec(reason: Option<String>) -> Option<Seq<char>> {
    match reason {
        Some(s) => if is_blank_spec(s@) {
            None
        } else {
            Some(trim(s@))
        },
        None => None,
    }
}

/// The decided shape of a status change, before any write.
#[derive(Clone, Debug, PartialEq, Eq)]
pub struct StatusChangePlan {
    pub from_status: IncomingInvoiceStatus,
    pub to_status: IncomingInvoiceStatus,
    /// Trimmed, non-blank reason, if any.
    pub reason: Option<String>,
    /// Value of the `irrelevant_reason` column after the change.
    pub irrelevant_reason: Option<String>,
    /// `false` for a no-op (from == to): nothing is written.
    pub write_needed: bool,
}

/// The status-change decision, given the row's stored status (`None` when
/// the row is missing).
pub open spec fn plan_spec(
    current: Option<Seq<char>>,
    to: IncomingInvoiceStatus,
    reason: Option<String>,
    r: Result<StatusChangePlan, StatusChangeError>,
) -> bool {
    let tr = trimmed_reason_spec(reason);
    if to == IncomingInvoiceStatus::Irrelevant && tr is None {
        r == Err::<StatusChangePlan, StatusChangeError>(StatusChangeError::ReasonRequiredForIrrelevant)
    } else {
        match current {
            None => r == Err::<StatusChangePlan, StatusChangeError>(StatusChangeError::NotFound),
            Some(cur) => match status_from_text(cur) {
                Err(m) => r matches Err(StatusChangeError::Other(s)) && s@
                    == "decode ap_invoice.local_status read from DB: "@ + m,
                Ok(from) => if from == to {
                    r matches Ok(p) && p.from_status == from && p.to_status == to && opt_text(
                        p.reason,
                    ) == tr && !p.write_needed && opt_text(p.irrelevant_reason) == (if to
                        == IncomingInvoiceStatus::Irrelevant {
                        tr
                    } else {
                        None
                    })
                } else if !transition_allowed_spec(from, to) {
                    r matches Err(StatusChangeError::InvalidTransition { from: f, to: t }) && f@
                        == cur && t@ == status_text(to)
                } else {
                    r matches Ok(p) && p.from_status == from && p.to_status == to && opt_text(
                        p.reason,
                    ) == tr && p.write_needed && opt_text(p.irrelevant_reason) == (if to
                        == IncomingInvoiceStatus::Irrelevant {
                        tr
                    } else {
                        None
                    })
                },
            },
        }
    }
}

fn trimmed_reason(reason: &Option<String>) -> (r: Option<String>)
    ensures
        opt_text(r) == trimmed_reason_spec(*reason),
{
    match reason {
        Some(s) => {
            if is_blank(s.as_str()) {
                None
            } else {
                Some(trim_to_string(s.as_str()))
            }
        },
        None => None,
    }
}

fn clone_opt(o: &Option<String>) -> (r: Option<String>)
    ensures
        opt_text(r) == opt_text(*o),
{
    match o {
        Some(s) => Some(s.clone()),
        None => None,
    }
}

/// Decide a status change of a stored incoming invoice. Refusals, in
/// order: a move to `Irrelevant` without a non-blank reason; a missing row;
/// a stored status outside the vocabulary; a move outside the closed graph.
/// A move to the current status is a no-op success.
pub fn plan_status_change(
    current_status: Option<&str>,
    to_status: IncomingInvoiceStatus,
    reason: Option<String>,
) -> (r: Result<StatusChangePlan, StatusChangeError>)
    ensures
        plan_spec(
            match current_status {
                Some(c) => Some(c@),
                None => None,
            },
            to_status,
            reason,
            r,
        ),
{
    let tr = trimmed_reason(&reason);
    if matches!(to_status, IncomingInvoiceStatus::Irrelevant) && tr.is_none() {
        return Err(StatusChangeError::ReasonRequiredForIrrelevant);
    }
    let cur = match current_status {
        Some(c) => c,
        None => {
            return Err(StatusChangeError::NotFound);
        },
    };
    let from = match IncomingInvoiceStatus::from_storage_str(cur) {
        Ok(f) => f,
        Err(m) => {
            let mut s = String::from_str("decode ap_invoice.local_status read from DB: ");
            s.append(m.as_str());
            return Err(StatusChangeError::Other(s));
        },
    };
    let irrelevant_reason = if matches!(to_status, IncomingInvoiceStatus::Irrelevant) {
        clone_opt(&tr)
    } else {
        None
    };
    if from == to_status {
        return Ok(
            StatusChangePlan {
                from_status: from,
                to_status,
                reason: tr,
                irrelevant_reason,
                write_needed: false,
            },
        );
    }
    if !transition_allowed(from, to_status) {
        return Err(
            StatusChangeError::InvalidTransition {
                from: String::from_str(cur),
                to: String::from_str(to_status.as_str()),
            },
        );
    }
    Ok(
        StatusChangePlan {
            from_status: from,
            to_status,
            reason: tr,
            irrelevant_reason,
            write_needed: true,
        },
    )
}

/// Every accepted status change leaves the row consistent: the
/// `irrelevant_reason` column is set exactly when the new status is
/// `Irrelevant`, and then carries a non-blank reason; a write is only
/// planned for a move of the closed graph.
pub proof fn lemma_planned_change_keeps_row_consistent(
    current: Option<Seq<char>>,
    to: IncomingInvoiceStatus,
    reason: Option<String>,
    p: StatusChangePlan,
)
    requires
        plan_spec(current, to, reason, Ok(p)),
    ensures
        (opt_text(p.irrelevant_reason) is Some) <==> p.to_status == IncomingInvoiceStatus::Irrelevant,
        p.to_status == IncomingInvoiceStatus::Irrelevant ==> !is_blank_spec(
            opt_text(p.irrelevant_reason)->0,
        ),
        p.write_needed ==> transition_allowed_spec(p.from_status, p.to_status),
        !p.write_needed ==> p.from_status == p.to_status,
{
    let tr = trimmed_reason_spec(reason);
    if to == IncomingInvoiceStatus::Irrelevant {
        let s = reason->0;
        crate::text::lemma_blank_iff_trim_empty(s@);
        crate::text::lemma_trim_idempotent(s@);
        crate::text::lemma_blank_iff_trim_empty(trim(s@));
    }
}

// ── Artifact hash ────────────────────────────────────────────────────

/// SHA-256 digest of a byte string.
pub uninterp spec fn sha256_digest(data: Seq<u8>) -> Seq<u8>;

/// `sha2::Sha256::digest`: the 32-byte SHA-256 digest.
#[verifier::external_body]
fn sha256(data: &[u8]) -> (r: Vec<u8>)
    ensures
        r@ == sha256_digest(data@),
        r@.len() == 32,
{
    <sha2::Sha256 as sha2::Digest>::digest(data).to_vec()
}

/// Lower-case hexadecimal digit for `n < 16`.
pub open spec fn hex_char(n: u8) -> char {
    if n < 10 {
        ((n + 48) as u32) as char
    } else {
        ((n + 87) as u32) as char
    }
}

/// Lower-case hexadecimal rendering, two digits per byte (`hex::encode`).
pub open spec fn hex_lower(bytes: Seq<u8>) -> Seq<char>
    decreases bytes.len(),
{
    if bytes.len() == 0 {
        Seq::empty()
    } else {
        hex_lower(bytes.drop_last()) + seq![hex_char(bytes.last() / 16), hex_char(bytes.last() % 16)]
    }
}

fn hex_digit(n: u8) -> (r: &'static str)
    requires
        n < 16,
    ensures
        r@ == seq![hex_char(n)],
{
    proof {
        reveal_strlit("0");
        reveal_strlit("1");
        reveal_strlit("2");
        reveal_strlit("3");
        reveal_strlit("4");
        reveal_strlit("5");
        reveal_strlit("6");
        reveal_strlit("7");
        reveal_strlit("8");
        reveal_strlit("9");
        reveal_strlit("a");
        reveal_strlit("b");
        reveal_strlit("c");
        reveal_strlit("d");
        reveal_strlit("e");
        reveal_strlit("f");
    }
    if n == 0 {
        "0"
    } else if n == 1 {
        "1"
    } else if n == 2 {
        "2"
    } else if n == 3 {
        "3"
    } else if n == 4 {
        "4"
    } else if n == 5 {
        "5"
    } else if n == 6 {
        "6"
    } else if n == 7 {
        "7"
    } else if n == 8 {
        "8"
    } else if n == 9 {
        "9"
    } else if n == 10 {
        "a"
    } else if n == 11 {
        "b"
    } else if n == 12 {
        "c"
    } else if n == 13 {
        "d"
    } else if n == 14 {
        "e"
    } else {
        "f"
    }
}

/// Lower-case hex of a byte string.
pub fn hex_encode(bytes: &[u8]) -> (r: String)
    ensures
        r@ == hex_lower(bytes@),
{
    let mut out = String::new();
    let mut i: usize = 0;
    while i < bytes.len()
        invariant
            i <= bytes@.len(),
            out@ == hex_lower(bytes@.subrange(0, i as int)),
        decreases bytes.len() - i,
    {
        let b = bytes[i];
        proof {
            let nxt = bytes@.subrange(0, (i + 1) as int);
            assert(nxt.drop_last() =~= bytes@.subrange(0, i as int));
            assert(nxt.last() == b);
        }
        out.append(hex_digit(b / 16));
        out.append(hex_digit(b % 16));
        i = i + 1;
    }
    assert(bytes@.subrange(0, bytes@.len() as int) =~= bytes@);
    out
}

/// Hex SHA-256 of a raw NAV XML artifact, as stamped on the ingestion audit
/// payload.
pub fn nav_xml_sha256_hex(bytes: &Vec<u8>) -> (r: String)
    ensures
        r@ == hex_lower(sha256_digest(bytes@)),
        r@.len() == 64,
{
    let digest = sha256(bytes.as_slice());
    let h = hex_encode(digest.as_slice());
    proof {
        lemma_hex_len(digest@);
    }
    h
}

proof fn lemma_hex_len(bytes: Seq<u8>)
    ensures
        hex_lower(bytes).len() == 2 * bytes.len(),
    decreases bytes.len(),
{
    if bytes.len() > 0 {
        lemma_hex_len(bytes.drop_last());
    }
}

// ── Storage error classification ────────────────────────────────────

/// Whether a storage failure message reports a uniqueness violation
/// (`duplicate key`, `violates unique constraint`, `violates primary key
/// constraint`, ASCII case ignored): an ingestion that loses a race to a
/// concurrent writer of the same supplier invoice answers `AlreadyExists`
/// rather than failing.
pub fn is_duplicate_key_message(msg: &str) -> (r: bool)
    ensures
        r == (contains_lower_spec(msg@, "duplicate key"@) || contains_lower_spec(
            msg@,
            "violates unique constraint"@,
        ) || contains_lower_spec(msg@, "violates primary key constraint"@)),
{
    contains_ignore_ascii_case(msg, "duplicate key") || contains_ignore_ascii_case(
        msg,
        "violates unique constraint",
    ) || contains_ignore_ascii_case(msg, "violates primary key constraint")
}

} // verus!

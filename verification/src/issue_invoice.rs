//! Issuance input shapes and the arithmetic / numbering / rate-walk-back
//! decisions of the issuance pipeline.

use vstd::prelude::*;
use crate::billing::{currency_iso, Currency};
use crate::invoice_currency_metadata::{decimal_text_accepted, decimal_text_value, parse_decimal};
use crate::nav_xml::{
    is_valid_tax_number, parse_hungarian_tax_number, tax_number_problem, CustomerVatStatus,
    SupplierConfigError,
};
use crate::billing::VatRateKind;
use crate::text::{
    i64_to_decimal, int_to_decimal, nat_to_decimal, trim, u64_to_decimal, u64_to_padded_decimal,
    zero_pad,
};

verus! {

#[verifier::external_type_specification]
#[verifier::external_body]
pub struct ExDecimal(rust_decimal::Decimal);

/// A decimal quantity held as `mantissa / 10^scale`.
#[derive(Clone, Copy, Debug, PartialEq, Eq, Structural, Hash)]
pub struct Quantity {
    pub mantissa: i128,
    pub scale: u32,
}

/// The signed mantissa of a decimal value (`Decimal::mantissa`).
pub uninterp spec fn decimal_mantissa_value(d: rust_decimal::Decimal) -> i128;

/// The scale of a decimal value (`Decimal::scale`).
pub uninterp spec fn decimal_scale_value(d: rust_decimal::Decimal) -> u32;

/// `rust_decimal::Decimal::mantissa`, a function of the value alone. The
/// mantissa is assembled from three 32-bit words and a sign, so its
/// magnitude stays below 2^96.
#[verifier::external_body]
fn decimal_mantissa(d: &rust_decimal::Decimal) -> (r: i128)
    ensures
        r == decimal_mantissa_value(*d),
        -0x1_0000_0000_0000_0000_0000_0000i128 < r < 0x1_0000_0000_0000_0000_0000_0000i128,
{
    d.mantissa()
}

/// `rust_decimal::Decimal::scale`, a function of the value alone: the
/// power of ten the mantissa is divided by, at most 28
/// (`Decimal::MAX_SCALE`), which every constructor of the type enforces.
#[verifier::external_body]
fn decimal_scale(d: &rust_decimal::Decimal) -> (r: u32)
    ensures
        r == decimal_scale_value(*d),
        r <= 28,
{
    d.scale()
}

impl Quantity {
    pub fn new(mantissa: i128, scale: u32) -> (r: Quantity)
        ensures
            r.mantissa == mantissa,
            r.scale == scale,
    {
        Quantity { mantissa, scale }
    }

    /// The quantity that a `rust_decimal::Decimal` denotes: its mantissa
    /// and its scale.
    pub fn from_decimal(d: &rust_decimal::Decimal) -> (r: Quantity)
        ensures
            r.mantissa == decimal_mantissa_value(*d),
            r.scale == decimal_scale_value(*d),
            -0x1_0000_0000_0000_0000_0000_0000i128 < r.mantissa < 0x1_0000_0000_0000_0000_0000_0000i128,
            r.scale <= 28,
    {
        let mantissa = decimal_mantissa(d);
        let scale = decimal_scale(d);
        Quantity { mantissa, scale }
    }

    /// Strictly greater than zero (the sign of the mantissa decides).
    pub fn is_positive(&self) -> (r: bool)
        ensures
            r == (self.mantissa > 0),
    {
        self.mantissa > 0
    }
}

/// Postal address as it travels on the issuance wire.
#[derive(Clone, Debug, PartialEq, Eq)]
pub struct AddressJson {
    pub country_code: String,
    pub postal_code: String,
    pub city: String,
    pub street: String,
}

#[derive(Clone, Debug, PartialEq, Eq)]
pub struct SupplierJson {
    pub tax_number: String,
    pub name: String,
    pub address: AddressJson,
}

#[derive(Clone, Debug, PartialEq, Eq)]
pub struct CustomerJson {
    pub vat_status: CustomerVatStatus,
    pub partner_id: Option<String>,
    pub tax_number: String,
    pub name: String,
    pub address: Option<AddressJson>,
}

#[derive(Clone, Debug, PartialEq, Eq)]
pub struct LineJson {
    pub description: String,
    pub quantity: Quantity,
    pub unit_price: i64,
    pub vat_rate_percent: u16,
    pub vat_rate_kind: VatRateKind,
    pub note: Option<String>,
    pub unit: Option<String>,
}

#[derive(Clone, Debug, PartialEq, Eq)]
pub struct InvoiceInputJson {
    pub supplier: SupplierJson,
    pub customer: CustomerJson,
    pub lines: Vec<LineJson>,
}

/// What an issuance hands back to its caller.
#[derive(Clone, Debug, PartialEq, Eq)]
pub struct IssuedInvoiceSummary {
    pub invoice_id: String,
    pub invoice_number: String,
    pub nav_xml_path: String,
}

/// Days walked back from the supply date when MNB has no rate for it.
pub const MNB_WALKBACK_DAYS_CAP: i64 = 7;

pub open spec fn basis_points_spec(percent: u16) -> u16 {
    if percent as int * 100 > u16::MAX {
        u16::MAX
    } else {
        (percent * 100) as u16
    }
}

/// Percent rate to basis points, saturating at `u16::MAX`.
pub fn percent_to_basis_points(percent: u16) -> (r: u16)
    ensures
        r == basis_points_spec(percent),
{
    if percent > 655 {
        u16::MAX
    } else {
        percent * 100
    }
}

/// NAV-facing invoice number `<series>/<5-digit-seq>`.
pub open spec fn invoice_number_spec(series: Seq<char>, seq: u64) -> Seq<char> {
    series + "/"@ + zero_pad(nat_to_decimal(seq as nat), 5)
}

pub fn format_invoice_number(series: &str, seq: u64) -> (r: String)
    ensures
        r@ == invoice_number_spec(series@, seq),
{
    let mut s = String::from_str(series);
    s.append("/");
    let digits = u64_to_padded_decimal(seq, 5);
    s.append(digits.as_str());
    s
}

/// Why the invoice gross total could not be formed.
#[derive(Clone, Copy, Debug, PartialEq, Eq, Structural)]
pub enum GrossTotalError {
    /// A line's own gross total did not fit `i64`.
    LineOverflow,
    /// The running sum over the lines left `i64`.
    TotalOverflow,
}

/// Left fold over the line gross totals, stopping at the first failure.
pub open spec fn gross_total_spec(lines: Seq<Option<i64>>) -> Result<i64, GrossTotalError>
    decreases lines.len(),
{
    if lines.len() == 0 {
        Ok(0)
    } else {
        match gross_total_spec(lines.drop_last()) {
            Err(e) => Err(e),
            Ok(acc) => match lines.last() {
                None => Err(GrossTotalError::LineOverflow),
                Some(g) => if i64::MIN <= acc + g <= i64::MAX {
                    Ok((acc + g) as i64)
                } else {
                    Err(GrossTotalError::TotalOverflow)
                },
            },
        }
    }
}

/// Sum of the per-line gross totals (`None` marks a line whose own total
/// overflowed), checked against `i64`.
pub fn invoice_gross_total(line_grosses: &Vec<Option<i64>>) -> (r: Result<i64, GrossTotalError>)
    ensures
        r == gross_total_spec(line_grosses@),
{
    let mut acc: i64 = 0;
    let mut i: usize = 0;
    while i < line_grosses.len()
        invariant
            i <= line_grosses.len(),
            gross_total_spec(line_grosses@.subrange(0, i as int)) == Ok::<i64, GrossTotalError>(acc),
        decreases line_grosses.len() - i,
    {
        proof {
            let nxt = line_grosses@.subrange(0, (i + 1) as int);
            assert(nxt.drop_last() =~= line_grosses@.subrange(0, i as int));
            assert(nxt.last() == line_grosses@[i as int]);
        }
        match line_grosses[i] {
            None => {
                proof {
                    lemma_gross_error_sticks(line_grosses@, (i + 1) as int);
                }
                return Err(GrossTotalError::LineOverflow);
            },
            Some(g) => match acc.checked_add(g) {
                None => {
                    proof {
                        lemma_gross_error_sticks(line_grosses@, (i + 1) as int);
                    }
                    return Err(GrossTotalError::TotalOverflow);
                },
                Some(sum) => {
                    acc = sum;
                },
            },
        }
        i = i + 1;
    }
    assert(line_grosses@.subrange(0, line_grosses.len() as int) =~= line_grosses@);
    Ok(acc)
}

/// Once the fold over a prefix fails, the fold over the whole sequence
/// fails the same way.
proof fn lemma_gross_error_sticks(s: Seq<Option<i64>>, k: int)
    requires
        0 <= k <= s.len(),
        gross_total_spec(s.subrange(0, k)) is Err,
    ensures
        gross_total_spec(s) == gross_total_spec(s.subrange(0, k)),
    decreases s.len() - k,
{
    if k == s.len() {
        assert(s.subrange(0, k) =~= s);
    } else {
        let nxt = s.subrange(0, k + 1);
        assert(nxt.drop_last() =~= s.subrange(0, k));
        lemma_gross_error_sticks(s, k + 1);
    }
}

/// What one MNB fetch for a candidate date answered.
#[derive(Clone, Copy, Debug, PartialEq, Eq, Structural)]
pub enum MnbFetchOutcome {
    /// A rate was published.
    Rate,
    /// No rate for the currency on that date (weekend / holiday).
    NoRateForCurrency,
    /// Transport, status, parse or any other failure.
    OtherError,
}

/// What the walk-back does next.
#[derive(Clone, Copy, Debug, PartialEq, Eq, Structural)]
pub enum WalkbackAction {
    /// Use the rate just fetched.
    Finalize,
    /// Fetch again for the supply date minus this many days.
    TryOffset(i64),
    /// Every day of the window was tried without a publication.
    FailExhausted,
    /// A non-retryable fetch failure; propagate it.
    FailFetch,
}

/// One step of the rate walk-back: after the fetch for `supply_date -
/// offset` days answered `outcome`, decide what happens next.
pub fn walkback_next(offset: i64, outcome: MnbFetchOutcome) -> (r: WalkbackAction)
    requires
        0 <= offset <= MNB_WALKBACK_DAYS_CAP,
    ensures
        outcome == MnbFetchOutcome::Rate ==> r == WalkbackAction::Finalize,
        outcome == MnbFetchOutcome::OtherError ==> r == WalkbackAction::FailFetch,
        outcome == MnbFetchOutcome::NoRateForCurrency && offset < MNB_WALKBACK_DAYS_CAP ==> r
            == WalkbackAction::TryOffset((offset + 1) as i64),
        outcome == MnbFetchOutcome::NoRateForCurrency && offset == MNB_WALKBACK_DAYS_CAP ==> r
            == WalkbackAction::FailExhausted,
{
    match outcome {
        MnbFetchOutcome::Rate => WalkbackAction::Finalize,
        MnbFetchOutcome::OtherError => WalkbackAction::FailFetch,
        MnbFetchOutcome::NoRateForCurrency => {
            if offset < MNB_WALKBACK_DAYS_CAP {
                WalkbackAction::TryOffset(offset + 1)
            } else {
                WalkbackAction::FailExhausted
            }
        },
    }
}

/// Sentinel prefix of the walk-back-exhausted loud-fail message.
pub const ERR_NO_RATE_AFTER_WALKBACK: &'static str = "no MNB rate published";

/// Sentinel prefix of the non-retryable MNB fetch failure message.
pub const ERR_MNB_FETCH_FAILED: &'static str = "MNB rate-fetch failed";

pub open spec fn no_rate_text(c: Currency, supply_date: Seq<char>) -> Seq<char> {
    ERR_NO_RATE_AFTER_WALKBACK@ + " for "@ + currency_iso(c) + " in the "@ + nat_to_decimal(
        MNB_WALKBACK_DAYS_CAP as nat,
    ) + " days preceding (and including) "@ + supply_date
        + "; the supply-fulfillment date may be in a multi-day non-publication window OR before MNB began publishing this currency (ADR-0037 §2.b walk-back exhausted)"@
}

/// The loud-fail text once the walk-back window holds no publication.
/// `supply_date` is the supply date as `YYYY-MM-DD`.
pub fn no_rate_after_walkback_message(currency: Currency, supply_date: &str) -> (r: String)
    ensures
        r@ == no_rate_text(currency, supply_date@),
{
    let mut s = String::from_str(ERR_NO_RATE_AFTER_WALKBACK);
    s.append(" for ");
    s.append(currency.iso_code());
    s.append(" in the ");
    let cap = i64_to_decimal(MNB_WALKBACK_DAYS_CAP);
    s.append(cap.as_str());
    s.append(" days preceding (and including) ");
    s.append(supply_date);
    s.append(
        "; the supply-fulfillment date may be in a multi-day non-publication window OR before MNB began publishing this currency (ADR-0037 §2.b walk-back exhausted)",
    );
    s
}

pub open spec fn fetch_failed_text(c: Currency, candidate: Seq<char>, error: Seq<char>) -> Seq<char> {
    ERR_MNB_FETCH_FAILED@ + " for "@ + currency_iso(c) + " on "@ + candidate + ": "@ + error
}

/// The loud-fail text of a non-retryable MNB fetch failure for the
/// candidate date `candidate`; `error` is the provider's own text.
pub fn mnb_fetch_failed_message(currency: Currency, candidate: &str, error: &str) -> (r: String)
    ensures
        r@ == fetch_failed_text(currency, candidate@, error@),
{
    let mut s = String::from_str(ERR_MNB_FETCH_FAILED);
    s.append(" for ");
    s.append(currency.iso_code());
    s.append(" on ");
    s.append(candidate);
    s.append(": ");
    s.append(error);
    s
}

pub open spec fn rate_parse_text(value: Seq<char>) -> Seq<char> {
    "MNB rate value `"@ + value
        + "` is not a parseable decimal (expected rust_decimal-compatible canonical form)"@
}

/// MNB's verbatim dot-decimal rate value as a `Decimal`; a value that does
/// not parse is a loud failure.
pub fn parse_mnb_rate(value: &str) -> (r: Result<rust_decimal::Decimal, String>)
    ensures
        r is Ok <==> decimal_text_accepted(value@),
        r is Ok ==> (decimal_mantissa_value(r->Ok_0), decimal_scale_value(r->Ok_0))
            == decimal_text_value(value@),
        r is Err ==> r->Err_0@ == rate_parse_text(value@),
{
    match parse_decimal(value) {
        Some(d) => Ok(d),
        None => {
            let mut s = String::from_str("MNB rate value `");
            s.append(value);
            s.append(
                "` is not a parseable decimal (expected rust_decimal-compatible canonical form)",
            );
            Err(s)
        },
    }
}

pub open spec fn gross_total_error_text(e: GrossTotalError) -> Seq<char> {
    match e {
        GrossTotalError::LineOverflow => "line gross total overflowed i64"@,
        GrossTotalError::TotalOverflow => "invoice gross total overflowed i64"@,
    }
}

/// The loud-fail text of an overflowing gross total.
pub fn gross_total_error_message(e: GrossTotalError) -> (r: String)
    ensures
        r@ == gross_total_error_text(e),
{
    match e {
        GrossTotalError::LineOverflow => String::from_str("line gross total overflowed i64"),
        GrossTotalError::TotalOverflow => String::from_str("invoice gross total overflowed i64"),
    }
}

pub open spec fn huf_overflow_text(gross_minor: i64, rate_value: Seq<char>) -> Seq<char> {
    "EUR amount "@ + int_to_decimal(gross_minor as int) + " cents × rate "@ + rate_value
        + " overflows i64 HUF equivalent (ADR-0037 §1.c)"@
}

/// The loud-fail text when the HUF equivalent of `gross_minor` cents at
/// the rate `rate_value` does not fit in `i64`.
pub fn huf_overflow_message(gross_minor: i64, rate_value: &str) -> (r: String)
    ensures
        r@ == huf_overflow_text(gross_minor, rate_value@),
{
    let mut s = String::from_str("EUR amount ");
    let g = i64_to_decimal(gross_minor);
    s.append(g.as_str());
    s.append(" cents × rate ");
    s.append(rate_value);
    s.append(" overflows i64 HUF equivalent (ADR-0037 §1.c)");
    s
}

pub open spec fn supplier_error_text(e: SupplierConfigError) -> Seq<char> {
    match e {
        SupplierConfigError::MissingTaxNumber => "supplier tax number is missing"@,
        SupplierConfigError::MalformedTaxNumber { input, reason } => "supplier tax number `"@
            + input@ + "` is malformed: "@ + reason@,
    }
}

/// Sentinel prefix of the supplier-config loud-fail message.
pub const ERR_SUPPLIER_CONFIG_INVALID: &'static str = "supplier_config_invalid";

/// The loud-fail text for a supplier whose tax number does not parse:
/// `supplier_config_invalid: <error>`.
pub fn supplier_config_error_message(e: &SupplierConfigError) -> (r: String)
    ensures
        r@ == "supplier_config_invalid: "@ + supplier_error_text(*e),
{
    let mut s = String::from_str("supplier_config_invalid: ");
    match e {
        SupplierConfigError::MissingTaxNumber => {
            s.append("supplier tax number is missing");
        },
        SupplierConfigError::MalformedTaxNumber { input, reason } => {
            s.append("supplier tax number `");
            s.append(input.as_str());
            s.append("` is malformed: ");
            s.append(reason);
        },
    }
    s
}

/// What `supplier_error_text` renders for the refusal of a tax number
/// `s` that does not parse.
pub open spec fn supplier_problem_text(s: Seq<char>) -> Seq<char> {
    if trim(s).len() == 0 {
        "supplier tax number is missing"@
    } else {
        "supplier tax number `"@ + trim(s) + "` is malformed: "@ + tax_number_problem(
            trim(s),
        )->0
    }
}

/// Supplier parties must carry a well-formed Hungarian tax number before an
/// invoice may burn a sequence slot.
pub fn validate_supplier_tax_number(supplier: &SupplierJson) -> (r: Result<(), String>)
    ensures
        r is Ok <==> is_valid_tax_number(supplier.tax_number@),
        r is Err ==> r->Err_0@ == "supplier_config_invalid: "@ + supplier_problem_text(
            supplier.tax_number@,
        ),
{
    match parse_hungarian_tax_number(supplier.tax_number.as_str()) {
        Ok(_) => Ok(()),
        Err(e) => Err(supplier_config_error_message(&e)),
    }
}

// ── Request guards ───────────────────────────────────────────────────

/// The three issuance pipelines: a fresh invoice, a storno of a base, a
/// modification of a base.
#[derive(Clone, Copy, Debug, PartialEq, Eq, Structural)]
pub enum IssuanceKind {
    Invoice,
    Storno,
    Modification,
}

/// Why an issuance request is refused before anything is written.
#[derive(Clone, Debug, PartialEq, Eq)]
pub enum RequestRefusal {
    NoLines,
    SupplierConfig(SupplierConfigError),
    MalformedModificationDate(String),
    InvalidTenant(String),
    InvalidSeries(String),
    MalformedReference(String),
    QueueFull { pending: u64, cap: u64 },
}

/// Mathematical value of a refusal: texts as character sequences, a
/// supplier-config refusal as the error's rendered text.
pub enum RefusalView {
    NoLines,
    SupplierConfig(Seq<char>),
    MalformedModificationDate(Seq<char>),
    InvalidTenant(Seq<char>),
    InvalidSeries(Seq<char>),
    MalformedReference(Seq<char>),
    QueueFull { pending: u64, cap: u64 },
}

impl View for RequestRefusal {
    type V = RefusalView;

    open spec fn view(&self) -> RefusalView {
        match self {
            RequestRefusal::NoLines => RefusalView::NoLines,
            RequestRefusal::SupplierConfig(e) => RefusalView::SupplierConfig(supplier_error_text(*e)),
            RequestRefusal::MalformedModificationDate(d) => RefusalView::MalformedModificationDate(d@),
            RequestRefusal::InvalidTenant(t) => RefusalView::InvalidTenant(t@),
            RequestRefusal::InvalidSeries(s) => RefusalView::InvalidSeries(s@),
            RequestRefusal::MalformedReference(x) => RefusalView::MalformedReference(x@),
            RequestRefusal::QueueFull { pending, cap } => RefusalView::QueueFull {
                pending: *pending,
                cap: *cap,
            },
        }
    }
}

pub open spec fn guard_view(r: Result<(), RequestRefusal>) -> Option<RefusalView> {
    match r {
        Ok(_) => None,
        Err(e) => Some(e@),
    }
}

/// The refusals that the tenant / series identifiers draw, in the order the
/// pipelines test them. Whether an identifier is accepted is decided by the
/// ledger's and the billing store's own constructors.
pub open spec fn identity_guard(
    tenant: Seq<char>,
    tenant_ok: bool,
    series: Seq<char>,
    series_ok: bool,
) -> Option<RefusalView> {
    if !tenant_ok {
        Some(RefusalView::InvalidTenant(tenant))
    } else if !series_ok {
        Some(RefusalView::InvalidSeries(series))
    } else {
        None
    }
}

/// A chain reference must be a prefixed invoice id.
pub open spec fn is_invoice_reference(x: Seq<char>) -> bool {
    x.len() >= 4 && x.subrange(0, 4) == "inv_"@
}

pub open spec fn invoice_request_spec(
    line_count: nat,
    supplier_tax_number: Seq<char>,
    tenant: Seq<char>,
    tenant_ok: bool,
    series: Seq<char>,
    series_ok: bool,
) -> Option<RefusalView> {
    if line_count == 0 {
        Some(RefusalView::NoLines)
    } else if !is_valid_tax_number(supplier_tax_number) {
        Some(RefusalView::SupplierConfig(supplier_problem_text(supplier_tax_number)))
    } else {
        identity_guard(tenant, tenant_ok, series, series_ok)
    }
}

fn identity_check(tenant: &str, tenant_ok: bool, series: &str, series_ok: bool) -> (r: Result<
    (),
    RequestRefusal,
>)
    ensures
        guard_view(r) == identity_guard(tenant@, tenant_ok, series@, series_ok),
{
    if !tenant_ok {
        Err(RequestRefusal::InvalidTenant(String::from_str(tenant)))
    } else if !series_ok {
        Err(RequestRefusal::InvalidSeries(String::from_str(series)))
    } else {
        Ok(())
    }
}

/// The checks a fresh invoice passes before the pipeline touches storage:
/// it has lines, its supplier carries a well-formed tax number, and the
/// tenant and series identifiers were accepted (`tenant_ok`, `series_ok`).
pub fn check_invoice_request(
    input: &InvoiceInputJson,
    tenant: &str,
    tenant_ok: bool,
    series: &str,
    series_ok: bool,
) -> (r: Result<(), RequestRefusal>)
    ensures
        guard_view(r) == invoice_request_spec(
            input.lines@.len(),
            input.supplier.tax_number@,
            tenant@,
            tenant_ok,
            series@,
            series_ok,
        ),
{
    if input.lines.len() == 0 {
        return Err(RequestRefusal::NoLines);
    }
    match parse_hungarian_tax_number(input.supplier.tax_number.as_str()) {
        Ok(_) => {},
        Err(e) => {
            return Err(RequestRefusal::SupplierConfig(e));
        },
    }
    identity_check(tenant, tenant_ok, series, series_ok)
}

/// Every pipeline refuses to burn a sequence number while the offline
/// submission queue holds `cap` or more pending invoices.
pub fn check_submission_queue(pending: u64, cap: u64) -> (r: Result<(), RequestRefusal>)
    ensures
        guard_view(r) == (if pending >= cap {
            Some(RefusalView::QueueFull { pending, cap })
        } else {
            None
        }),
{
    if pending >= cap {
        Err(RequestRefusal::QueueFull { pending, cap })
    } else {
        Ok(())
    }
}

pub open spec fn no_lines_text(kind: IssuanceKind) -> Seq<char> {
    match kind {
        IssuanceKind::Storno => "input JSON has no lines"@,
        _ => "input has no lines"@,
    }
}

pub open spec fn queue_full_tail(kind: IssuanceKind) -> Seq<char> {
    match kind {
        IssuanceKind::Invoice => ", or `aberp mark-abandoned --invoice-id <id> --reason ...` on invoices the operator has decided not to submit"@,
        IssuanceKind::Storno => " before issuing a storno"@,
        IssuanceKind::Modification => " before issuing a modification"@,
    }
}

pub open spec fn refusal_text(kind: IssuanceKind, v: RefusalView) -> Seq<char> {
    match v {
        RefusalView::NoLines => no_lines_text(kind),
        RefusalView::SupplierConfig(t) => "supplier_config_invalid: "@ + t,
        RefusalView::MalformedModificationDate(d) => "modification_date '"@ + d
            + "' is not a well-formed YYYY-MM-DD (ADR-0024 §1 requires explicit operator-supplied date — no silent default)"@,
        RefusalView::InvalidTenant(t) => "tenant value '"@ + t + "' is empty or has a null byte"@,
        RefusalView::InvalidSeries(s) => "series value '"@ + s + "' fails SeriesCode validation"@,
        RefusalView::MalformedReference(x) => "references value '"@ + x
            + "' is not a prefixed invoice id (expected inv_<ULID>)"@,
        RefusalView::QueueFull { pending, cap } => "submission queue is full ("@ + nat_to_decimal(
            pending as nat,
        ) + "/"@ + nat_to_decimal(cap as nat)
            + " pending invoices per ADR-0009 §7 / ADR-0031 §5); run `aberp drain-submission-queue --endpoint <test|production> --tax-number ...` to submit the backlog"@
            + queue_full_tail(kind),
    }
}

/// The operator-facing text of a refusal in the given pipeline.
pub fn request_refusal_message(kind: IssuanceKind, refusal: &RequestRefusal) -> (r: String)
    ensures
        r@ == refusal_text(kind, refusal@),
{
    match refusal {
        RequestRefusal::NoLines => match kind {
            IssuanceKind::Storno => String::from_str("input JSON has no lines"),
            _ => String::from_str("input has no lines"),
        },
        RequestRefusal::SupplierConfig(e) => supplier_config_error_message(e),
        RequestRefusal::MalformedModificationDate(d) => {
            let mut s = String::from_str("modification_date '");
            s.append(d.as_str());
            s.append(
                "' is not a well-formed YYYY-MM-DD (ADR-0024 §1 requires explicit operator-supplied date — no silent default)",
            );
            s
        },
        RequestRefusal::InvalidTenant(t) => {
            let mut s = String::from_str("tenant value '");
            s.append(t.as_str());
            s.append("' is empty or has a null byte");
            s
        },
        RequestRefusal::InvalidSeries(x) => {
            let mut s = String::from_str("series value '");
            s.append(x.as_str());
            s.append("' fails SeriesCode validation");
            s
        },
        RequestRefusal::MalformedReference(x) => {
            let mut s = String::from_str("references value '");
            s.append(x.as_str());
            s.append("' is not a prefixed invoice id (expected inv_<ULID>)");
            s
        },
        RequestRefusal::QueueFull { pending, cap } => {
            let mut s = String::from_str("submission queue is full (");
            let p = u64_to_decimal(*pending);
            s.append(p.as_str());
            s.append("/");
            let c = u64_to_decimal(*cap);
            s.append(c.as_str());
            s.append(
                " pending invoices per ADR-0009 §7 / ADR-0031 §5); run `aberp drain-submission-queue --endpoint <test|production> --tax-number ...` to submit the backlog",
            );
            match kind {
                IssuanceKind::Invoice => s.append(
                    ", or `aberp mark-abandoned --invoice-id <id> --reason ...` on invoices the operator has decided not to submit",
                ),
                IssuanceKind::Storno => s.append(" before issuing a storno"),
                IssuanceKind::Modification => s.append(" before issuing a modification"),
            }
            s
        },
    }
}

} // verus!

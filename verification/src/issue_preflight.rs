//! Pre-issuance validation of the operator-typed invoice fields: every
//! problem of a request is collected in one pass, each as a closed-vocab
//! error with a wire discriminant, a field path and bilingual messages.

use vstd::prelude::*;
use crate::billing::{Currency, VatRateKind, currency_iso, vat_rate_kind_name};
use crate::issue_invoice::{AddressJson, CustomerJson, LineJson};
use crate::nav_xml::{
    CustomerVatStatus, SupplierConfigError, parse_hungarian_tax_number, tax_number_problem,
};
use crate::text::{
    int_to_decimal, is_blank, is_blank_spec, nat_to_decimal, str_eq, trim, trim_to_string,
    i64_to_decimal, u64_to_decimal,
};

verus! {

/// Hungarian standard VAT rates (percent).
pub const ALLOWED_VAT_RATES_PERCENT: [u16; 4] = [0, 5, 18, 27];

/// Wire discriminant of the typed 400 body.
pub const ERR_INVOICE_PREFLIGHT_FAILED: &'static str = "invoice_preflight_failed";

pub open spec fn allowed_rates_spec() -> Seq<u16> {
    seq![0u16, 5u16, 18u16, 27u16]
}

pub open spec fn is_allowed_rate(r: u16) -> bool {
    r == 0 || r == 5 || r == 18 || r == 27
}

/// The issuance request fields preflight reads.
#[derive(Clone, Debug, PartialEq, Eq)]
pub struct IssueInvoiceRequest {
    pub customer: CustomerJson,
    pub lines: Vec<LineJson>,
    pub currency: Currency,
    pub series: Option<String>,
    pub bank_account_id: Option<String>,
    pub invoice_note: Option<String>,
    pub payment_deadline: Option<String>,
    pub delivery_date: Option<String>,
}

/// Closed-vocab pre-issuance error.
#[derive(Clone, Debug, PartialEq, Eq)]
pub enum InvoicePreflightError {
    CustomerNameEmpty,
    CustomerTaxNumberMissing,
    CustomerTaxNumberMalformed { actual: String, reason: &'static str },
    CustomerAddressMissing,
    InvoiceLinesEmpty,
    LineItemDescriptionEmpty { line_index: usize },
    LineItemQuantityZero { line_index: usize },
    LineItemUnitPriceNonPositive { line_index: usize, actual: i64 },
    LineItemVatRateUnknown { line_index: usize, actual: u16, allowed: [u16; 4] },
    LineItemVatRateKindNotYetIssuable { line_index: usize, kind: VatRateKind },
    SellerBankMissingForCurrency { currency: Currency },
    SellerBankCurrencyMismatch {
        selected_id: String,
        selected_currency: Currency,
        invoice_currency: Currency,
    },
    CustomerTaxNumberPresentForPrivatePerson { actual: String },
    CustomerVatStatusOtherNotSupportedV1,
}

/// Mathematical value of a preflight error: strings as character
/// sequences.
pub enum PreflightIssue {
    CustomerNameEmpty,
    CustomerTaxNumberMissing,
    CustomerTaxNumberMalformed { actual: Seq<char>, reason: Seq<char> },
    CustomerAddressMissing,
    InvoiceLinesEmpty,
    LineItemDescriptionEmpty { line_index: usize },
    LineItemQuantityZero { line_index: usize },
    LineItemUnitPriceNonPositive { line_index: usize, actual: i64 },
    LineItemVatRateUnknown { line_index: usize, actual: u16, allowed: Seq<u16> },
    LineItemVatRateKindNotYetIssuable { line_index: usize, kind: VatRateKind },
    SellerBankMissingForCurrency { currency: Currency },
    SellerBankCurrencyMismatch {
        selected_id: Seq<char>,
        selected_currency: Currency,
        invoice_currency: Currency,
    },
    CustomerTaxNumberPresentForPrivatePerson { actual: Seq<char> },
    CustomerVatStatusOtherNotSupportedV1,
}

impl View for InvoicePreflightError {
    type V = PreflightIssue;

    open spec fn view(&self) -> PreflightIssue {
        match self {
            InvoicePreflightError::CustomerNameEmpty => PreflightIssue::CustomerNameEmpty,
            InvoicePreflightError::CustomerTaxNumberMissing => PreflightIssue::CustomerTaxNumberMissing,
            InvoicePreflightError::CustomerTaxNumberMalformed { actual, reason } =>
                PreflightIssue::CustomerTaxNumberMalformed { actual: actual@, reason: reason@ },
            InvoicePreflightError::CustomerAddressMissing => PreflightIssue::CustomerAddressMissing,
            InvoicePreflightError::InvoiceLinesEmpty => PreflightIssue::InvoiceLinesEmpty,
            InvoicePreflightError::LineItemDescriptionEmpty { line_index } =>
                PreflightIssue::LineItemDescriptionEmpty { line_index: *line_index },
            InvoicePreflightError::LineItemQuantityZero { line_index } =>
                PreflightIssue::LineItemQuantityZero { line_index: *line_index },
            InvoicePreflightError::LineItemUnitPriceNonPositive { line_index, actual } =>
                PreflightIssue::LineItemUnitPriceNonPositive {
                    line_index: *line_index,
                    actual: *actual,
                },
            InvoicePreflightError::LineItemVatRateUnknown { line_index, actual, allowed } =>
                PreflightIssue::LineItemVatRateUnknown {
                    line_index: *line_index,
                    actual: *actual,
                    allowed: allowed@,
                },
            InvoicePreflightError::LineItemVatRateKindNotYetIssuable { line_index, kind } =>
                PreflightIssue::LineItemVatRateKindNotYetIssuable {
                    line_index: *line_index,
                    kind: *kind,
                },
            InvoicePreflightError::SellerBankMissingForCurrency { currency } =>
                PreflightIssue::SellerBankMissingForCurrency { currency: *currency },
            InvoicePreflightError::SellerBankCurrencyMismatch {
                selected_id,
                selected_currency,
                invoice_currency,
            } => PreflightIssue::SellerBankCurrencyMismatch {
                selected_id: selected_id@,
                selected_currency: *selected_currency,
                invoice_currency: *invoice_currency,
            },
            InvoicePreflightError::CustomerTaxNumberPresentForPrivatePerson { actual } =>
                PreflightIssue::CustomerTaxNumberPresentForPrivatePerson { actual: actual@ },
            InvoicePreflightError::CustomerVatStatusOtherNotSupportedV1 =>
                PreflightIssue::CustomerVatStatusOtherNotSupportedV1,
        }
    }
}

// ── Rules ────────────────────────────────────────────────────────────

/// All four address sub-fields are non-blank.
pub open spec fn address_complete_spec(address: Option<AddressJson>) -> bool {
    match address {
        Some(a) => !is_blank_spec(a.country_code@) && !is_blank_spec(a.postal_code@)
            && !is_blank_spec(a.city@) && !is_blank_spec(a.street@),
        None => false,
    }
}

/// Issues of the customer block other than the name.
pub open spec fn customer_issues(c: CustomerJson) -> Seq<PreflightIssue> {
    let tax = c.tax_number@;
    match c.vat_status {
        CustomerVatStatus::Domestic => if is_blank_spec(tax) {
            seq![PreflightIssue::CustomerTaxNumberMissing]
        } else {
            match tax_number_problem(trim(tax)) {
                Some(reason) => seq![
                    PreflightIssue::CustomerTaxNumberMalformed { actual: trim(tax), reason },
                ],
                None => if address_complete_spec(c.address) {
                    Seq::empty()
                } else {
                    seq![PreflightIssue::CustomerAddressMissing]
                },
            }
        },
        CustomerVatStatus::PrivatePerson => {
            let present = if is_blank_spec(tax) {
                Seq::empty()
            } else {
                seq![PreflightIssue::CustomerTaxNumberPresentForPrivatePerson { actual: trim(tax) }]
            };
            if address_complete_spec(c.address) {
                present
            } else {
                present.push(PreflightIssue::CustomerAddressMissing)
            }
        },
        CustomerVatStatus::Other => seq![PreflightIssue::CustomerVatStatusOtherNotSupportedV1],
    }
}

/// Issues of one line, in the order the checks run.
pub open spec fn line_issues(l: LineJson, i: usize) -> Seq<PreflightIssue> {
    let a = if is_blank_spec(l.description@) {
        seq![PreflightIssue::LineItemDescriptionEmpty { line_index: i }]
    } else {
        Seq::empty()
    };
    let b = if l.quantity.mantissa <= 0 {
        a.push(PreflightIssue::LineItemQuantityZero { line_index: i })
    } else {
        a
    };
    let c = if l.unit_price <= 0 {
        b.push(PreflightIssue::LineItemUnitPriceNonPositive { line_index: i, actual: l.unit_price })
    } else {
        b
    };
    if l.vat_rate_kind != VatRateKind::Percent {
        c.push(PreflightIssue::LineItemVatRateKindNotYetIssuable { line_index: i, kind: l.vat_rate_kind })
    } else if !is_allowed_rate(l.vat_rate_percent) {
        c.push(
            PreflightIssue::LineItemVatRateUnknown {
                line_index: i,
                actual: l.vat_rate_percent,
                allowed: allowed_rates_spec(),
            },
        )
    } else {
        c
    }
}

/// Issues of every line, line by line.
pub open spec fn lines_issues(lines: Seq<LineJson>) -> Seq<PreflightIssue>
    decreases lines.len(),
{
    if lines.len() == 0 {
        Seq::empty()
    } else {
        lines_issues(lines.drop_last()) + line_issues(lines.last(), (lines.len() - 1) as usize)
    }
}

/// Every problem of a request, in reporting order: name, customer block,
/// then the lines (or the single "no lines" error).
pub open spec fn preflight_spec(r: IssueInvoiceRequest) -> Seq<PreflightIssue> {
    let name = if is_blank_spec(r.customer.name@) {
        seq![PreflightIssue::CustomerNameEmpty]
    } else {
        Seq::empty()
    };
    let head = name + customer_issues(r.customer);
    if r.lines@.len() == 0 {
        head.push(PreflightIssue::InvoiceLinesEmpty)
    } else {
        head + lines_issues(r.lines@)
    }
}

pub open spec fn issues_of(errs: Seq<InvoicePreflightError>) -> Seq<PreflightIssue> {
    errs.map_values(|e: InvoicePreflightError| e@)
}

/// `customer.address` is present with all four sub-fields non-blank.
pub fn customer_address_complete(address: &Option<AddressJson>) -> (r: bool)
    ensures
        r == address_complete_spec(*address),
{
    match address {
        Some(a) => !is_blank(a.country_code.as_str()) && !is_blank(a.postal_code.as_str())
            && !is_blank(a.city.as_str()) && !is_blank(a.street.as_str()),
        None => false,
    }
}

proof fn lemma_issues_push(errs: Seq<InvoicePreflightError>, e: InvoicePreflightError)
    ensures
        issues_of(errs.push(e)) == issues_of(errs).push(e@),
{
    assert(issues_of(errs.push(e)) =~= issues_of(errs).push(e@));
}

fn push_issue(errs: &mut Vec<InvoicePreflightError>, e: InvoicePreflightError)
    ensures
        issues_of(final(errs)@) == issues_of(old(errs)@).push(e@),
{
    proof {
        lemma_issues_push(errs@, e);
    }
    errs.push(e);
}

fn check_line(errs: &mut Vec<InvoicePreflightError>, line: &LineJson, i: usize)
    ensures
        issues_of(final(errs)@) == issues_of(old(errs)@) + line_issues(*line, i),
{
    let ghost start = issues_of(errs@);
    if is_blank(line.description.as_str()) {
        push_issue(errs, InvoicePreflightError::LineItemDescriptionEmpty { line_index: i });
    }
    if !line.quantity.is_positive() {
        push_issue(errs, InvoicePreflightError::LineItemQuantityZero { line_index: i });
    }
    if line.unit_price <= 0 {
        push_issue(
            errs,
            InvoicePreflightError::LineItemUnitPriceNonPositive {
                line_index: i,
                actual: line.unit_price,
            },
        );
    }
    if !line.vat_rate_kind.is_percent() {
        push_issue(
            errs,
            InvoicePreflightError::LineItemVatRateKindNotYetIssuable {
                line_index: i,
                kind: line.vat_rate_kind,
            },
        );
    } else {
        let r = line.vat_rate_percent;
        if !(r == 0 || r == 5 || r == 18 || r == 27) {
            let allowed: [u16; 4] = [0, 5, 18, 27];
            assert(allowed@ =~= allowed_rates_spec());
            push_issue(
                errs,
                InvoicePreflightError::LineItemVatRateUnknown { line_index: i, actual: r, allowed },
            );
        }
    }
    assert(issues_of(errs@) =~= start + line_issues(*line, i));
}

/// Every preflight problem of `request`, all at once, in reporting order.
/// An empty result means the request may proceed to issuance.
pub fn validate_invoice_preflight(request: &IssueInvoiceRequest) -> (errs: Vec<InvoicePreflightError>)
    ensures
        issues_of(errs@) == preflight_spec(*request),
{
    let mut errors: Vec<InvoicePreflightError> = Vec::new();
    assert(issues_of(errors@) =~= Seq::<PreflightIssue>::empty());
    if is_blank(request.customer.name.as_str()) {
        push_issue(&mut errors, InvoicePreflightError::CustomerNameEmpty);
    }
    let ghost name_part = issues_of(errors@);
    let tax = request.customer.tax_number.as_str();
    match request.customer.vat_status {
        CustomerVatStatus::Domestic => {
            let mut well_formed = false;
            if is_blank(tax) {
                push_issue(&mut errors, InvoicePreflightError::CustomerTaxNumberMissing);
            } else {
                match parse_hungarian_tax_number(tax) {
                    Ok(_) => {
                        well_formed = true;
                    },
                    Err(SupplierConfigError::MissingTaxNumber) => {
                        push_issue(&mut errors, InvoicePreflightError::CustomerTaxNumberMissing);
                    },
                    Err(SupplierConfigError::MalformedTaxNumber { input, reason }) => {
                        push_issue(
                            &mut errors,
                            InvoicePreflightError::CustomerTaxNumberMalformed {
                                actual: input,
                                reason,
                            },
                        );
                    },
                }
            }
            if well_formed && !customer_address_complete(&request.customer.address) {
                push_issue(&mut errors, InvoicePreflightError::CustomerAddressMissing);
            }
        },
        CustomerVatStatus::PrivatePerson => {
            if !is_blank(tax) {
                let actual = trim_to_string(tax);
                push_issue(
                    &mut errors,
                    InvoicePreflightError::CustomerTaxNumberPresentForPrivatePerson { actual },
                );
            }
            if !customer_address_complete(&request.customer.address) {
                push_issue(&mut errors, InvoicePreflightError::CustomerAddressMissing);
            }
        },
        CustomerVatStatus::Other => {
            push_issue(&mut errors, InvoicePreflightError::CustomerVatStatusOtherNotSupportedV1);
        },
    }
    assert(issues_of(errors@) =~= name_part + customer_issues(request.customer));
    let ghost head = issues_of(errors@);
    let n = request.lines.len();
    if n == 0 {
        push_issue(&mut errors, InvoicePreflightError::InvoiceLinesEmpty);
    } else {
        let mut i: usize = 0;
        while i < n
            invariant
                n == request.lines@.len(),
                i <= n,
                issues_of(errors@) == head + lines_issues(request.lines@.subrange(0, i as int)),
            decreases n - i,
        {
            let ghost before = issues_of(errors@);
            check_line(&mut errors, &request.lines[i], i);
            proof {
                let nxt = request.lines@.subrange(0, (i + 1) as int);
                assert(nxt.drop_last() =~= request.lines@.subrange(0, i as int));
                assert(nxt.last() == request.lines@[i as int]);
                assert(lines_issues(nxt) == lines_issues(request.lines@.subrange(0, i as int))
                    + line_issues(request.lines@[i as int], i));
                assert(issues_of(errors@) =~= head + lines_issues(nxt));
            }
            i = i + 1;
        }
        assert(request.lines@.subrange(0, n as int) =~= request.lines@);
    }
    errors
}

/// A line whose VAT kind is not `Percent` is reported once, as not yet
/// issuable; the numeric-rate gate never fires on it as well.
pub proof fn lemma_non_percent_line_skips_rate_gate(l: LineJson, i: usize)
    requires
        l.vat_rate_kind != VatRateKind::Percent,
    ensures
        line_issues(l, i).contains(
            PreflightIssue::LineItemVatRateKindNotYetIssuable { line_index: i, kind: l.vat_rate_kind },
        ),
        forall|k: int|
            0 <= k < line_issues(l, i).len() ==> !(#[trigger] line_issues(l, i)[k] is LineItemVatRateUnknown),
{
    let s = line_issues(l, i);
    assert(s[s.len() - 1] == PreflightIssue::LineItemVatRateKindNotYetIssuable {
        line_index: i,
        kind: l.vat_rate_kind,
    });
}

/// A malformed Domestic tax number suppresses the address rule: the
/// customer block reports the tax number only.
pub proof fn lemma_malformed_tax_suppresses_address(c: CustomerJson)
    requires
        c.vat_status == CustomerVatStatus::Domestic,
        !is_blank_spec(c.tax_number@),
        tax_number_problem(trim(c.tax_number@)) is Some,
    ensures
        !customer_issues(c).contains(PreflightIssue::CustomerAddressMissing),
{
    let s = customer_issues(c);
    assert(s.len() == 1);
    assert(s[0] is CustomerTaxNumberMalformed);
}

// ── Accessors ────────────────────────────────────────────────────────

/// Wire discriminant: the variant name verbatim.
pub open spec fn kind_spec(e: PreflightIssue) -> Seq<char> {
    match e {
        PreflightIssue::CustomerNameEmpty => "CustomerNameEmpty"@,
        PreflightIssue::CustomerTaxNumberMissing => "CustomerTaxNumberMissing"@,
        PreflightIssue::CustomerTaxNumberMalformed { .. } => "CustomerTaxNumberMalformed"@,
        PreflightIssue::CustomerAddressMissing => "CustomerAddressMissing"@,
        PreflightIssue::InvoiceLinesEmpty => "InvoiceLinesEmpty"@,
        PreflightIssue::LineItemDescriptionEmpty { .. } => "LineItemDescriptionEmpty"@,
        PreflightIssue::LineItemQuantityZero { .. } => "LineItemQuantityZero"@,
        PreflightIssue::LineItemUnitPriceNonPositive { .. } => "LineItemUnitPriceNonPositive"@,
        PreflightIssue::LineItemVatRateUnknown { .. } => "LineItemVatRateUnknown"@,
        PreflightIssue::LineItemVatRateKindNotYetIssuable { .. } => "LineItemVatRateKindNotYetIssuable"@,
        PreflightIssue::SellerBankMissingForCurrency { .. } => "SellerBankMissingForCurrency"@,
        PreflightIssue::SellerBankCurrencyMismatch { .. } => "SellerBankCurrencyMismatch"@,
        PreflightIssue::CustomerTaxNumberPresentForPrivatePerson { .. } => "CustomerTaxNumberPresentForPrivatePerson"@,
        PreflightIssue::CustomerVatStatusOtherNotSupportedV1 => "CustomerVatStatusOtherNotSupportedV1"@,
    }
}

/// Position of the variant in the closed vocabulary.
pub open spec fn variant_index(e: PreflightIssue) -> nat {
    match e {
        PreflightIssue::CustomerNameEmpty => 0,
        PreflightIssue::CustomerTaxNumberMissing => 1,
        PreflightIssue::CustomerTaxNumberMalformed { .. } => 2,
        PreflightIssue::CustomerAddressMissing => 3,
        PreflightIssue::InvoiceLinesEmpty => 4,
        PreflightIssue::LineItemDescriptionEmpty { .. } => 5,
        PreflightIssue::LineItemQuantityZero { .. } => 6,
        PreflightIssue::LineItemUnitPriceNonPositive { .. } => 7,
        PreflightIssue::LineItemVatRateUnknown { .. } => 8,
        PreflightIssue::LineItemVatRateKindNotYetIssuable { .. } => 9,
        PreflightIssue::SellerBankMissingForCurrency { .. } => 10,
        PreflightIssue::SellerBankCurrencyMismatch { .. } => 11,
        PreflightIssue::CustomerTaxNumberPresentForPrivatePerson { .. } => 12,
        PreflightIssue::CustomerVatStatusOtherNotSupportedV1 => 13,
    }
}

pub open spec fn lines_path(i: usize, field: Seq<char>) -> Seq<char> {
    "lines["@ + nat_to_decimal(i as nat) + "]."@ + field
}

/// Dotted camelCase path of the offending input.
pub open spec fn field_path_spec(e: PreflightIssue) -> Seq<char> {
    match e {
        PreflightIssue::CustomerNameEmpty => "customer.name"@,
        PreflightIssue::CustomerTaxNumberMissing => "customer.taxNumber"@,
        PreflightIssue::CustomerTaxNumberMalformed { .. } => "customer.taxNumber"@,
        PreflightIssue::CustomerAddressMissing => "customer.address"@,
        PreflightIssue::InvoiceLinesEmpty => "lines"@,
        PreflightIssue::LineItemDescriptionEmpty { line_index } => lines_path(line_index, "description"@),
        PreflightIssue::LineItemQuantityZero { line_index } => lines_path(line_index, "quantity"@),
        PreflightIssue::LineItemUnitPriceNonPositive { line_index, .. } => lines_path(line_index, "unitPrice"@),
        PreflightIssue::LineItemVatRateUnknown { line_index, .. } => lines_path(line_index, "vatRatePercent"@),
        PreflightIssue::LineItemVatRateKindNotYetIssuable { line_index, .. } => lines_path(line_index, "vatRateKind"@),
        PreflightIssue::SellerBankMissingForCurrency { .. } => "bankAccountId"@,
        PreflightIssue::SellerBankCurrencyMismatch { .. } => "bankAccountId"@,
        PreflightIssue::CustomerTaxNumberPresentForPrivatePerson { .. } => "customer.taxNumber"@,
        PreflightIssue::CustomerVatStatusOtherNotSupportedV1 => "customer.vatStatus"@,
    }
}

/// Line numbers are shown 1-based.
pub open spec fn line_no(i: usize) -> Seq<char> {
    nat_to_decimal((i + 1) as nat)
}

/// `"0%, 5%, 18%, 27%"` for `[0, 5, 18, 27]`.
pub open spec fn percent_list_spec(rates: Seq<u16>) -> Seq<char>
    decreases rates.len(),
{
    if rates.len() == 0 {
        Seq::empty()
    } else if rates.len() == 1 {
        nat_to_decimal(rates[0] as nat) + "%"@
    } else {
        percent_list_spec(rates.drop_last()) + ", "@ + nat_to_decimal(rates.last() as nat) + "%"@
    }
}

/// Hungarian rendering of a tax-number shape reason.
pub open spec fn reason_hu_spec(reason: Seq<char>) -> Seq<char> {
    if reason == "expected three dash-separated segments"@ {
        "három, kötőjellel elválasztott szegmens szükséges"@
    } else if reason == "taxpayerId segment must be exactly 8 digits"@ {
        "az adózói azonosító szegmens pontosan 8 számjegy"@
    } else if reason == "vatCode segment must be exactly 1 digit"@ {
        "az ÁFA-kód szegmens pontosan 1 számjegy"@
    } else if reason == "countyCode segment must be exactly 2 digits"@ {
        "a megyekód szegmens pontosan 2 számjegy"@
    } else if reason == "taxpayerId segment must be ASCII digits only"@ {
        "az adózói azonosító csak számjegyeket tartalmazhat"@
    } else if reason == "vatCode segment must be an ASCII digit"@ {
        "az ÁFA-kód csak számjegy lehet"@
    } else if reason == "countyCode segment must be ASCII digits only"@ {
        "a megyekód csak számjegyeket tartalmazhat"@
    } else {
        "hibás formátum"@
    }
}

pub open spec fn message_hu_spec(e: PreflightIssue) -> Seq<char> {
    match e {
        PreflightIssue::CustomerNameEmpty => "A vevő neve kötelező a számlán (Áfa tv. §169)"@,
        PreflightIssue::CustomerTaxNumberMissing =>
            "Az ügyfél adószáma (ADÓSZÁM) kötelező (helyes: `xxxxxxxx-y-zz`, pl. `87654321-2-13`)."@,
        PreflightIssue::CustomerTaxNumberMalformed { actual, reason } =>
            "Az ügyfél adószáma (`"@ + actual + "`) hibás formátum ("@ + reason_hu_spec(reason)
                + "). Helyes: `xxxxxxxx-y-zz`, pl. `87654321-2-13`."@,
        PreflightIssue::CustomerAddressMissing =>
            "A vevő címe kötelező a számlán (Áfa tv. §169) — pótold a partner adatlapján (ország, irányítószám, város, utca)."@,
        PreflightIssue::InvoiceLinesEmpty => "Legalább egy tételsor szükséges a számlához."@,
        PreflightIssue::LineItemDescriptionEmpty { line_index } =>
            "A(z) "@ + line_no(line_index) + ". tételsor megnevezése kötelező."@,
        PreflightIssue::LineItemQuantityZero { line_index } =>
            "A(z) "@ + line_no(line_index) + ". tételsor mennyisége nullánál nagyobb kell legyen."@,
        PreflightIssue::LineItemUnitPriceNonPositive { line_index, actual } =>
            "A(z) "@ + line_no(line_index) + ". tételsor egységára pozitív kell legyen (kapott: "@
                + int_to_decimal(actual as int) + "). Sztornó / módosítás külön folyamat."@,
        PreflightIssue::LineItemVatRateUnknown { line_index, actual, allowed } =>
            "A(z) "@ + line_no(line_index) + ". tételsor ÁFA-kulcsa ("@ + nat_to_decimal(actual as nat)
                + "%) nem szerepel a magyar szabványos kulcsok között ("@ + percent_list_spec(allowed)
                + "). Speciális kategóriák (AAM/TAM/TAH) jelenleg nem támogatottak."@,
        PreflightIssue::LineItemVatRateKindNotYetIssuable { line_index, kind } =>
            "A(z) "@ + line_no(line_index) + ". tételsor ÁFA-típusa ("@ + vat_rate_kind_name(kind)
                + ") még nem bocsátható ki. A 0%-os / adómentes / fordított adózású típusok NAV-gépezete készen áll, de átmenetileg zárolva van (ADR-0101). Használjon százalékos (Percent) ÁFA-kulcsot."@,
        PreflightIssue::SellerBankMissingForCurrency { currency } =>
            "Nincs konfigurált bankszámla a számla pénzneméhez ("@ + currency_iso(currency)
                + "). Adjon meg egy `[[seller.banks]]` bejegyzést ehhez a pénznemhez a Bérlőbeállítások / Bank accounts menüpontban."@,
        PreflightIssue::SellerBankCurrencyMismatch { selected_id, selected_currency, invoice_currency } =>
            "A választott bankszámla (`"@ + selected_id + "`) pénzneme "@ + currency_iso(selected_currency)
                + " eltér a számla pénznemétől "@ + currency_iso(invoice_currency)
                + ". Válasszon olyan bankszámlát, amelynek pénzneme megegyezik a számla pénznemével."@,
        PreflightIssue::CustomerTaxNumberPresentForPrivatePerson { actual } =>
            "Magánszemély vevőhöz nem tartozhat adószám (kapott: `"@ + actual
                + "`). Természetes személy vevő esetén a NAV szabálya tiltja a `<customerVatData>` blokkot — váltson Adóalany típusra, vagy hagyja üresen az ADÓSZÁM mezőt."@,
        PreflightIssue::CustomerVatStatusOtherNotSupportedV1 =>
            "Külföldi (OTHER) vevő kibocsátása későbbi verzióban érkezik (ADR-0048 §7 / v2). Jelenleg csak Adóalany / Magánszemély típusú vevő számlázható."@,
    }
}

pub open spec fn message_en_spec(e: PreflightIssue) -> Seq<char> {
    match e {
        PreflightIssue::CustomerNameEmpty => "Buyer name required per §169"@,
        PreflightIssue::CustomerTaxNumberMissing =>
            "Customer ADÓSZÁM is required (expected `xxxxxxxx-y-zz`, e.g. `87654321-2-13`)."@,
        PreflightIssue::CustomerTaxNumberMalformed { actual, reason } =>
            "Customer ADÓSZÁM `"@ + actual + "` is not a valid Hungarian tax number ("@ + reason
                + "); expected `xxxxxxxx-y-zz`, e.g. `87654321-2-13`."@,
        PreflightIssue::CustomerAddressMissing =>
            "Buyer address required per §169 — fix the partner record (country, postal code, city, street)."@,
        PreflightIssue::InvoiceLinesEmpty => "At least one line item is required."@,
        PreflightIssue::LineItemDescriptionEmpty { line_index } =>
            "Line "@ + line_no(line_index) + " description is required."@,
        PreflightIssue::LineItemQuantityZero { line_index } =>
            "Line "@ + line_no(line_index) + " quantity must be greater than zero."@,
        PreflightIssue::LineItemUnitPriceNonPositive { line_index, actual } =>
            "Line "@ + line_no(line_index) + " unit price must be positive (got "@
                + int_to_decimal(actual as int) + "). Storno / modification is a separate flow."@,
        PreflightIssue::LineItemVatRateUnknown { line_index, actual, allowed } =>
            "Line "@ + line_no(line_index) + " VAT rate ("@ + nat_to_decimal(actual as nat)
                + "%) is not a Hungarian standard rate (allowed: "@ + percent_list_spec(allowed)
                + "). Special categories (AAM/TAM/TAH) are not supported on this wire shape today."@,
        PreflightIssue::LineItemVatRateKindNotYetIssuable { line_index, kind } =>
            "Line "@ + line_no(line_index) + " VAT kind ("@ + vat_rate_kind_name(kind)
                + ") is not issuable yet. The NAV machinery for the 0%/exempt/reverse-charge kinds is in place but is deliberately gated shut (ADR-0101 Session 1); use a Percent VAT rate. Session 2 opens this behind the NAV-category adversarial review."@,
        PreflightIssue::SellerBankMissingForCurrency { currency } =>
            "No bank account configured for the invoice's currency ("@ + currency_iso(currency)
                + "). Add a `[[seller.banks]]` entry for this currency in Tenant Settings → Bank accounts."@,
        PreflightIssue::SellerBankCurrencyMismatch { selected_id, selected_currency, invoice_currency } =>
            "Selected bank account (`"@ + selected_id + "`) currency "@ + currency_iso(selected_currency)
                + " does not match the invoice currency "@ + currency_iso(invoice_currency)
                + ". Pick a bank account whose currency matches the invoice."@,
        PreflightIssue::CustomerTaxNumberPresentForPrivatePerson { actual } =>
            "Natural-person (PRIVATE_PERSON) buyers must NOT carry a tax number (got `"@ + actual
                + "`). NAV's business-rule layer forbids `<customerVatData>` under PRIVATE_PERSON — switch the buyer type to Domestic or clear the ADÓSZÁM field."@,
        PreflightIssue::CustomerVatStatusOtherNotSupportedV1 =>
            "Foreign-buyer (OTHER) issuance is named-deferred to v2 per ADR-0048 §7. v1 supports Domestic and PrivatePerson buyers only — pick one of those, or wait for the v2 PR that wires the EU community-VAT / non-EU third-state tax-id branch."@,
    }
}

/// Line-indexed variants carry an index whose 1-based rendering fits.
pub open spec fn line_index_renderable(e: PreflightIssue) -> bool {
    match e {
        PreflightIssue::LineItemDescriptionEmpty { line_index } => line_index < usize::MAX,
        PreflightIssue::LineItemQuantityZero { line_index } => line_index < usize::MAX,
        PreflightIssue::LineItemUnitPriceNonPositive { line_index, .. } => line_index < usize::MAX,
        PreflightIssue::LineItemVatRateUnknown { line_index, .. } => line_index < usize::MAX,
        PreflightIssue::LineItemVatRateKindNotYetIssuable { line_index, .. } => line_index < usize::MAX,
        _ => true,
    }
}

fn string_of(s: &str) -> (r: String)
    ensures
        r@ == s@,
{
    String::from_str(s)
}

fn lines_path_string(i: usize, field: &str) -> (r: String)
    ensures
        r@ == lines_path(i, field@),
{
    let mut s = String::from_str("lines[");
    let d = u64_to_decimal(i as u64);
    s.append(d.as_str());
    s.append("].");
    s.append(field);
    s
}

fn line_no_string(i: usize) -> (r: String)
    requires
        i < usize::MAX,
    ensures
        r@ == line_no(i),
{
    u64_to_decimal((i as u64) + 1)
}

/// Render `[0, 5, 18, 27]` as `"0%, 5%, 18%, 27%"`.
pub fn format_percent_list(rates: &[u16]) -> (r: String)
    ensures
        r@ == percent_list_spec(rates@),
{
    let mut out = String::new();
    let mut i: usize = 0;
    while i < rates.len()
        invariant
            i <= rates@.len(),
            out@ == percent_list_spec(rates@.subrange(0, i as int)),
        decreases rates.len() - i,
    {
        proof {
            let nxt = rates@.subrange(0, (i + 1) as int);
            assert(nxt.drop_last() =~= rates@.subrange(0, i as int));
            assert(nxt.last() == rates@[i as int]);
            if i == 0 {
                assert(nxt[0] == rates@[0]);
            }
        }
        if i > 0 {
            out.append(", ");
        }
        let d = u64_to_decimal(rates[i] as u64);
        out.append(d.as_str());
        out.append("%");
        proof {
            if i == 0 {
                assert(out@ =~= nat_to_decimal(rates@[0] as nat) + "%"@);
            }
        }
        i = i + 1;
    }
    assert(rates@.subrange(0, rates@.len() as int) =~= rates@);
    out
}

/// Hungarian text for a tax-number shape reason.
pub fn translate_reason_hu(reason: &str) -> (r: &'static str)
    ensures
        r@ == reason_hu_spec(reason@),
{
    if str_eq(reason, "expected three dash-separated segments") {
        "három, kötőjellel elválasztott szegmens szükséges"
    } else if str_eq(reason, "taxpayerId segment must be exactly 8 digits") {
        "az adózói azonosító szegmens pontosan 8 számjegy"
    } else if str_eq(reason, "vatCode segment must be exactly 1 digit") {
        "az ÁFA-kód szegmens pontosan 1 számjegy"
    } else if str_eq(reason, "countyCode segment must be exactly 2 digits") {
        "a megyekód szegmens pontosan 2 számjegy"
    } else if str_eq(reason, "taxpayerId segment must be ASCII digits only") {
        "az adózói azonosító csak számjegyeket tartalmazhat"
    } else if str_eq(reason, "vatCode segment must be an ASCII digit") {
        "az ÁFA-kód csak számjegy lehet"
    } else if str_eq(reason, "countyCode segment must be ASCII digits only") {
        "a megyekód csak számjegyeket tartalmazhat"
    } else {
        "hibás formátum"
    }
}

impl InvoicePreflightError {
    /// Wire discriminant (the variant name).
    pub fn kind(&self) -> (r: &'static str)
        ensures
            r@ == kind_spec(self@),
    {
        match self {
            InvoicePreflightError::CustomerNameEmpty => "CustomerNameEmpty",
            InvoicePreflightError::CustomerTaxNumberMissing => "CustomerTaxNumberMissing",
            InvoicePreflightError::CustomerTaxNumberMalformed { .. } => "CustomerTaxNumberMalformed",
            InvoicePreflightError::CustomerAddressMissing => "CustomerAddressMissing",
            InvoicePreflightError::InvoiceLinesEmpty => "InvoiceLinesEmpty",
            InvoicePreflightError::LineItemDescriptionEmpty { .. } => "LineItemDescriptionEmpty",
            InvoicePreflightError::LineItemQuantityZero { .. } => "LineItemQuantityZero",
            InvoicePreflightError::LineItemUnitPriceNonPositive { .. } => "LineItemUnitPriceNonPositive",
            InvoicePreflightError::LineItemVatRateUnknown { .. } => "LineItemVatRateUnknown",
            InvoicePreflightError::LineItemVatRateKindNotYetIssuable { .. } => "LineItemVatRateKindNotYetIssuable",
            InvoicePreflightError::SellerBankMissingForCurrency { .. } => "SellerBankMissingForCurrency",
            InvoicePreflightError::SellerBankCurrencyMismatch { .. } => "SellerBankCurrencyMismatch",
            InvoicePreflightError::CustomerTaxNumberPresentForPrivatePerson { .. } => "CustomerTaxNumberPresentForPrivatePerson",
            InvoicePreflightError::CustomerVatStatusOtherNotSupportedV1 => "CustomerVatStatusOtherNotSupportedV1",
        }
    }

    /// Dotted path into the wire shape of the offending input.
    pub fn field_path(&self) -> (r: String)
        ensures
            r@ == field_path_spec(self@),
    {
        match self {
            InvoicePreflightError::CustomerNameEmpty => string_of("customer.name"),
            InvoicePreflightError::CustomerTaxNumberMissing => string_of("customer.taxNumber"),
            InvoicePreflightError::CustomerTaxNumberMalformed { .. } => string_of("customer.taxNumber"),
            InvoicePreflightError::CustomerAddressMissing => string_of("customer.address"),
            InvoicePreflightError::InvoiceLinesEmpty => string_of("lines"),
            InvoicePreflightError::LineItemDescriptionEmpty { line_index } => lines_path_string(*line_index, "description"),
            InvoicePreflightError::LineItemQuantityZero { line_index } => lines_path_string(*line_index, "quantity"),
            InvoicePreflightError::LineItemUnitPriceNonPositive { line_index, .. } => lines_path_string(*line_index, "unitPrice"),
            InvoicePreflightError::LineItemVatRateUnknown { line_index, .. } => lines_path_string(*line_index, "vatRatePercent"),
            InvoicePreflightError::LineItemVatRateKindNotYetIssuable { line_index, .. } => lines_path_string(*line_index, "vatRateKind"),
            InvoicePreflightError::SellerBankMissingForCurrency { .. } => string_of("bankAccountId"),
            InvoicePreflightError::SellerBankCurrencyMismatch { .. } => string_of("bankAccountId"),
            InvoicePreflightError::CustomerTaxNumberPresentForPrivatePerson { .. } => string_of("customer.taxNumber"),
            InvoicePreflightError::CustomerVatStatusOtherNotSupportedV1 => string_of("customer.vatStatus"),
        }
    }

    /// Hungarian operator-facing message.
    pub fn message_hu(&self) -> (r: String)
        requires
            line_index_renderable(self@),
        ensures
            r@ == message_hu_spec(self@),
    {
        match self {
            InvoicePreflightError::CustomerNameEmpty => string_of("A vevő neve kötelező a számlán (Áfa tv. §169)"),
            InvoicePreflightError::CustomerTaxNumberMissing => string_of(
                "Az ügyfél adószáma (ADÓSZÁM) kötelező (helyes: `xxxxxxxx-y-zz`, pl. `87654321-2-13`).",
            ),
            InvoicePreflightError::CustomerTaxNumberMalformed { actual, reason } => {
                let mut s = string_of("Az ügyfél adószáma (`");
                s.append(actual.as_str());
                s.append("`) hibás formátum (");
                s.append(translate_reason_hu(reason));
                s.append("). Helyes: `xxxxxxxx-y-zz`, pl. `87654321-2-13`.");
                s
            },
            InvoicePreflightError::CustomerAddressMissing => string_of(
                "A vevő címe kötelező a számlán (Áfa tv. §169) — pótold a partner adatlapján (ország, irányítószám, város, utca).",
            ),
            InvoicePreflightError::InvoiceLinesEmpty => string_of("Legalább egy tételsor szükséges a számlához."),
            InvoicePreflightError::LineItemDescriptionEmpty { line_index } => {
                let mut s = string_of("A(z) ");
                s.append(line_no_string(*line_index).as_str());
                s.append(". tételsor megnevezése kötelező.");
                s
            },
            InvoicePreflightError::LineItemQuantityZero { line_index } => {
                let mut s = string_of("A(z) ");
                s.append(line_no_string(*line_index).as_str());
                s.append(". tételsor mennyisége nullánál nagyobb kell legyen.");
                s
            },
            InvoicePreflightError::LineItemUnitPriceNonPositive { line_index, actual } => {
                let mut s = string_of("A(z) ");
                s.append(line_no_string(*line_index).as_str());
                s.append(". tételsor egységára pozitív kell legyen (kapott: ");
                s.append(i64_to_decimal(*actual).as_str());
                s.append("). Sztornó / módosítás külön folyamat.");
                s
            },
            InvoicePreflightError::LineItemVatRateUnknown { line_index, actual, allowed } => {
                let mut s = string_of("A(z) ");
                s.append(line_no_string(*line_index).as_str());
                s.append(". tételsor ÁFA-kulcsa (");
                s.append(u64_to_decimal(*actual as u64).as_str());
                s.append("%) nem szerepel a magyar szabványos kulcsok között (");
                s.append(format_percent_list(allowed.as_slice()).as_str());
                s.append("). Speciális kategóriák (AAM/TAM/TAH) jelenleg nem támogatottak.");
                s
            },
            InvoicePreflightError::LineItemVatRateKindNotYetIssuable { line_index, kind } => {
                let mut s = string_of("A(z) ");
                s.append(line_no_string(*line_index).as_str());
                s.append(". tételsor ÁFA-típusa (");
                s.append(kind.as_str());
                s.append(
                    ") még nem bocsátható ki. A 0%-os / adómentes / fordított adózású típusok NAV-gépezete készen áll, de átmenetileg zárolva van (ADR-0101). Használjon százalékos (Percent) ÁFA-kulcsot.",
                );
                s
            },
            InvoicePreflightError::SellerBankMissingForCurrency { currency } => {
                let mut s = string_of("Nincs konfigurált bankszámla a számla pénzneméhez (");
                s.append(currency.iso_code());
                s.append(
                    "). Adjon meg egy `[[seller.banks]]` bejegyzést ehhez a pénznemhez a Bérlőbeállítások / Bank accounts menüpontban.",
                );
                s
            },
            InvoicePreflightError::SellerBankCurrencyMismatch { selected_id, selected_currency, invoice_currency } => {
                let mut s = string_of("A választott bankszámla (`");
                s.append(selected_id.as_str());
                s.append("`) pénzneme ");
                s.append(selected_currency.iso_code());
                s.append(" eltér a számla pénznemétől ");
                s.append(invoice_currency.iso_code());
                s.append(
                    ". Válasszon olyan bankszámlát, amelynek pénzneme megegyezik a számla pénznemével.",
                );
                s
            },
            InvoicePreflightError::CustomerTaxNumberPresentForPrivatePerson { actual } => {
                let mut s = string_of("Magánszemély vevőhöz nem tartozhat adószám (kapott: `");
                s.append(actual.as_str());
                s.append(
                    "`). Természetes személy vevő esetén a NAV szabálya tiltja a `<customerVatData>` blokkot — váltson Adóalany típusra, vagy hagyja üresen az ADÓSZÁM mezőt.",
                );
                s
            },
            InvoicePreflightError::CustomerVatStatusOtherNotSupportedV1 => string_of(
                "Külföldi (OTHER) vevő kibocsátása későbbi verzióban érkezik (ADR-0048 §7 / v2). Jelenleg csak Adóalany / Magánszemély típusú vevő számlázható.",
            ),
        }
    }

    /// English developer / debug message.
    pub fn message_en(&self) -> (r: String)
        requires
            line_index_renderable(self@),
        ensures
            r@ == message_en_spec(self@),
    {
        match self {
            InvoicePreflightError::CustomerNameEmpty => string_of("Buyer name required per §169"),
            InvoicePreflightError::CustomerTaxNumberMissing => string_of(
                "Customer ADÓSZÁM is required (expected `xxxxxxxx-y-zz`, e.g. `87654321-2-13`).",
            ),
            InvoicePreflightError::CustomerTaxNumberMalformed { actual, reason } => {
                let mut s = string_of("Customer ADÓSZÁM `");
                s.append(actual.as_str());
                s.append("` is not a valid Hungarian tax number (");
                s.append(reason);
                s.append("); expected `xxxxxxxx-y-zz`, e.g. `87654321-2-13`.");
                s
            },
            InvoicePreflightError::CustomerAddressMissing => string_of(
                "Buyer address required per §169 — fix the partner record (country, postal code, city, street).",
            ),
            InvoicePreflightError::InvoiceLinesEmpty => string_of("At least one line item is required."),
            InvoicePreflightError::LineItemDescriptionEmpty { line_index } => {
                let mut s = string_of("Line ");
                s.append(line_no_string(*line_index).as_str());
                s.append(" description is required.");
                s
            },
            InvoicePreflightError::LineItemQuantityZero { line_index } => {
                let mut s = string_of("Line ");
                s.append(line_no_string(*line_index).as_str());
                s.append(" quantity must be greater than zero.");
                s
            },
            InvoicePreflightError::LineItemUnitPriceNonPositive { line_index, actual } => {
                let mut s = string_of("Line ");
                s.append(line_no_string(*line_index).as_str());
                s.append(" unit price must be positive (got ");
                s.append(i64_to_decimal(*actual).as_str());
                s.append("). Storno / modification is a separate flow.");
                s
            },
            InvoicePreflightError::LineItemVatRateUnknown { line_index, actual, allowed } => {
                let mut s = string_of("Line ");
                s.append(line_no_string(*line_index).as_str());
                s.append(" VAT rate (");
                s.append(u64_to_decimal(*actual as u64).as_str());
                s.append("%) is not a Hungarian standard rate (allowed: ");
                s.append(format_percent_list(allowed.as_slice()).as_str());
                s.append(
                    "). Special categories (AAM/TAM/TAH) are not supported on this wire shape today.",
                );
                s
            },
            InvoicePreflightError::LineItemVatRateKindNotYetIssuable { line_index, kind } => {
                let mut s = string_of("Line ");
                s.append(line_no_string(*line_index).as_str());
                s.append(" VAT kind (");
                s.append(kind.as_str());
                s.append(
                    ") is not issuable yet. The NAV machinery for the 0%/exempt/reverse-charge kinds is in place but is deliberately gated shut (ADR-0101 Session 1); use a Percent VAT rate. Session 2 opens this behind the NAV-category adversarial review.",
                );
                s
            },
            InvoicePreflightError::SellerBankMissingForCurrency { currency } => {
                let mut s = string_of("No bank account configured for the invoice's currency (");
                s.append(currency.iso_code());
                s.append(
                    "). Add a `[[seller.banks]]` entry for this currency in Tenant Settings → Bank accounts.",
                );
                s
            },
            InvoicePreflightError::SellerBankCurrencyMismatch { selected_id, selected_currency, invoice_currency } => {
                let mut s = string_of("Selected bank account (`");
                s.append(selected_id.as_str());
                s.append("`) currency ");
                s.append(selected_currency.iso_code());
                s.append(" does not match the invoice currency ");
                s.append(invoice_currency.iso_code());
                s.append(". Pick a bank account whose currency matches the invoice.");
                s
            },
            InvoicePreflightError::CustomerTaxNumberPresentForPrivatePerson { actual } => {
                let mut s = string_of("Natural-person (PRIVATE_PERSON) buyers must NOT carry a tax number (got `");
                s.append(actual.as_str());
                s.append(
                    "`). NAV's business-rule layer forbids `<customerVatData>` under PRIVATE_PERSON — switch the buyer type to Domestic or clear the ADÓSZÁM field.",
                );
                s
            },
            InvoicePreflightError::CustomerVatStatusOtherNotSupportedV1 => string_of(
                "Foreign-buyer (OTHER) issuance is named-deferred to v2 per ADR-0048 §7. v1 supports Domestic and PrivatePerson buyers only — pick one of those, or wait for the v2 PR that wires the EU community-VAT / non-EU third-state tax-id branch.",
            ),
        }
    }
}

/// Distinct variants have distinct wire discriminants, so the SPA can route
/// on `kind()` alone.
pub proof fn lemma_kind_distinguishes_variants(a: PreflightIssue, b: PreflightIssue)
    ensures
        kind_spec(a) == kind_spec(b) ==> variant_index(a) == variant_index(b),
{
    reveal_strlit("CustomerNameEmpty");
    reveal_strlit("CustomerTaxNumberMissing");
    reveal_strlit("CustomerTaxNumberMalformed");
    reveal_strlit("CustomerAddressMissing");
    reveal_strlit("InvoiceLinesEmpty");
    reveal_strlit("LineItemDescriptionEmpty");
    reveal_strlit("LineItemQuantityZero");
    reveal_strlit("LineItemUnitPriceNonPositive");
    reveal_strlit("LineItemVatRateUnknown");
    reveal_strlit("LineItemVatRateKindNotYetIssuable");
    reveal_strlit("SellerBankMissingForCurrency");
    reveal_strlit("SellerBankCurrencyMismatch");
    reveal_strlit("CustomerTaxNumberPresentForPrivatePerson");
    reveal_strlit("CustomerVatStatusOtherNotSupportedV1");
    if kind_spec(a) == kind_spec(b) {
        assert(kind_spec(a).len() == kind_spec(b).len());
        assert(kind_spec(a)[0] == kind_spec(b)[0]);
        assert(kind_spec(a)[8] == kind_spec(b)[8]);
        assert(kind_spec(a)[10] == kind_spec(b)[10]);
    }
}

/// Every variant renders a non-empty Hungarian and English message.
pub proof fn lemma_messages_non_empty(e: PreflightIssue)
    ensures
        message_hu_spec(e).len() > 0,
        message_en_spec(e).len() > 0,
{
    reveal_strlit("A vevő neve kötelező a számlán (Áfa tv. §169)");
    reveal_strlit("Az ügyfél adószáma (ADÓSZÁM) kötelező (helyes: `xxxxxxxx-y-zz`, pl. `87654321-2-13`).");
    reveal_strlit("Az ügyfél adószáma (`");
    reveal_strlit("A vevő címe kötelező a számlán (Áfa tv. §169) — pótold a partner adatlapján (ország, irányítószám, város, utca).");
    reveal_strlit("Legalább egy tételsor szükséges a számlához.");
    reveal_strlit("A(z) ");
    reveal_strlit("Nincs konfigurált bankszámla a számla pénzneméhez (");
    reveal_strlit("A választott bankszámla (`");
    reveal_strlit("Magánszemély vevőhöz nem tartozhat adószám (kapott: `");
    reveal_strlit("Külföldi (OTHER) vevő kibocsátása későbbi verzióban érkezik (ADR-0048 §7 / v2). Jelenleg csak Adóalany / Magánszemély típusú vevő számlázható.");
    reveal_strlit("Buyer name required per §169");
    reveal_strlit("Customer ADÓSZÁM is required (expected `xxxxxxxx-y-zz`, e.g. `87654321-2-13`).");
    reveal_strlit("Customer ADÓSZÁM `");
    reveal_strlit("Buyer address required per §169 — fix the partner record (country, postal code, city, street).");
    reveal_strlit("At least one line item is required.");
    reveal_strlit("Line ");
    reveal_strlit("No bank account configured for the invoice's currency (");
    reveal_strlit("Selected bank account (`");
    reveal_strlit("Natural-person (PRIVATE_PERSON) buyers must NOT carry a tax number (got `");
    reveal_strlit("Foreign-buyer (OTHER) issuance is named-deferred to v2 per ADR-0048 §7. v1 supports Domestic and PrivatePerson buyers only — pick one of those, or wait for the v2 PR that wires the EU community-VAT / non-EU third-state tax-id branch.");
}

} // verus!

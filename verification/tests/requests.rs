use aberp::billing::{Currency, VatRateKind};
use aberp::issue_invoice::{
    check_invoice_request, check_submission_queue, gross_total_error_message, huf_overflow_message,
    mnb_fetch_failed_message, no_rate_after_walkback_message, parse_mnb_rate,
    request_refusal_message, validate_supplier_tax_number, AddressJson, CustomerJson,
    GrossTotalError, InvoiceInputJson, IssuanceKind, LineJson, Quantity, RequestRefusal,
    SupplierJson, ERR_MNB_FETCH_FAILED, ERR_NO_RATE_AFTER_WALKBACK,
};
use aberp::issue_modification::check_modification_request;
use aberp::issue_storno::{chain_child_gross, chain_customer_tax_number, check_storno_request, ChainKind};
use aberp::nav_xml::{CustomerVatStatus, SupplierConfigError};
use rust_decimal::Decimal;

fn address() -> AddressJson {
    AddressJson {
        country_code: "HU".to_string(),
        postal_code: "1011".to_string(),
        city: "Budapest".to_string(),
        street: "Fő utca 1.".to_string(),
    }
}

fn input(lines: usize, supplier_tax: &str) -> InvoiceInputJson {
    let line = LineJson {
        description: "CNC machining service".to_string(),
        quantity: Quantity::new(1, 0),
        unit_price: 10_000,
        vat_rate_percent: 27,
        vat_rate_kind: VatRateKind::Percent,
        note: None,
        unit: None,
    };
    InvoiceInputJson {
        supplier: SupplierJson {
            tax_number: supplier_tax.to_string(),
            name: "Seller Kft.".to_string(),
            address: address(),
        },
        customer: CustomerJson {
            vat_status: CustomerVatStatus::Domestic,
            partner_id: None,
            tax_number: " 12345678-2-41 ".to_string(),
            name: "Buyer Zrt.".to_string(),
            address: Some(address()),
        },
        lines: vec![line; lines],
    }
}

#[test]
fn invoice_request_accepts_a_complete_request() {
    assert_eq!(check_invoice_request(&input(1, "12345678-2-41"), "t", true, "A", true), Ok(()));
}

#[test]
fn invoice_request_checks_in_pipeline_order() {
    // No lines wins over every later problem.
    assert_eq!(
        check_invoice_request(&input(0, "bogus"), "", false, "", false),
        Err(RequestRefusal::NoLines)
    );
    // A malformed supplier tax number wins over the identifiers.
    assert_eq!(
        check_invoice_request(&input(2, " 1234-2-41 "), "", false, "", false),
        Err(RequestRefusal::SupplierConfig(SupplierConfigError::MalformedTaxNumber {
            input: "1234-2-41".to_string(),
            reason: "taxpayerId segment must be exactly 8 digits",
        }))
    );
    assert_eq!(
        check_invoice_request(&input(1, "   "), "t", true, "A", true),
        Err(RequestRefusal::SupplierConfig(SupplierConfigError::MissingTaxNumber))
    );
    assert_eq!(
        check_invoice_request(&input(1, "12345678-2-41"), "bad\0tenant", false, "", false),
        Err(RequestRefusal::InvalidTenant("bad\0tenant".to_string()))
    );
    assert_eq!(
        check_invoice_request(&input(1, "12345678-2-41"), "t", true, "x y", false),
        Err(RequestRefusal::InvalidSeries("x y".to_string()))
    );
}

#[test]
fn supplier_tax_number_refusal_text_is_exact() {
    let s = input(1, "1234567a-2-41").supplier;
    assert_eq!(
        validate_supplier_tax_number(&s),
        Err("supplier_config_invalid: supplier tax number `1234567a-2-41` is malformed: \
             taxpayerId segment must be ASCII digits only"
            .to_string())
    );
    let missing = input(1, "").supplier;
    assert_eq!(
        validate_supplier_tax_number(&missing),
        Err("supplier_config_invalid: supplier tax number is missing".to_string())
    );
}

#[test]
fn storno_request_requires_prefixed_reference() {
    let i = input(1, "12345678-2-41");
    assert_eq!(check_storno_request(&i, "t", true, "A", true, "inv_01HX"), Ok(()));
    assert_eq!(
        check_storno_request(&i, "t", true, "A", true, "01HX"),
        Err(RequestRefusal::MalformedReference("01HX".to_string()))
    );
    assert_eq!(
        check_storno_request(&i, "t", true, "A", true, "inv"),
        Err(RequestRefusal::MalformedReference("inv".to_string()))
    );
    // Identifier problems are reported before the reference shape.
    assert_eq!(
        check_storno_request(&i, "", false, "A", true, "nope"),
        Err(RequestRefusal::InvalidTenant(String::new()))
    );
    assert_eq!(
        check_storno_request(&input(0, "x"), "", false, "A", true, "nope"),
        Err(RequestRefusal::NoLines)
    );
}

#[test]
fn modification_request_requires_an_explicit_date() {
    let i = input(1, "12345678-2-41");
    assert_eq!(
        check_modification_request(&i, "2026-05-14", "t", true, "A", true, "inv_01HX"),
        Ok(())
    );
    assert_eq!(
        check_modification_request(&i, "2026-5-14", "t", true, "A", true, "inv_01HX"),
        Err(RequestRefusal::MalformedModificationDate("2026-5-14".to_string()))
    );
    assert_eq!(
        check_modification_request(&i, "2026-02-30", "", false, "A", true, "x"),
        Err(RequestRefusal::MalformedModificationDate("2026-02-30".to_string()))
    );
    assert_eq!(
        check_modification_request(&i, "2026-02-28", "t", true, "A", true, "x"),
        Err(RequestRefusal::MalformedReference("x".to_string()))
    );
    assert_eq!(
        check_modification_request(&input(0, "x"), "bad", "t", true, "A", true, "x"),
        Err(RequestRefusal::NoLines)
    );
}

#[test]
fn submission_queue_cap_refuses_at_the_cap() {
    assert_eq!(check_submission_queue(49, 50), Ok(()));
    assert_eq!(
        check_submission_queue(50, 50),
        Err(RequestRefusal::QueueFull { pending: 50, cap: 50 })
    );
    assert_eq!(
        check_submission_queue(51, 50),
        Err(RequestRefusal::QueueFull { pending: 51, cap: 50 })
    );
}

#[test]
fn refusal_messages_name_the_pipeline() {
    let full = RequestRefusal::QueueFull { pending: 50, cap: 50 };
    assert_eq!(
        request_refusal_message(IssuanceKind::Storno, &full),
        "submission queue is full (50/50 pending invoices per ADR-0009 §7 / ADR-0031 §5); \
         run `aberp drain-submission-queue --endpoint <test|production> --tax-number ...` \
         to submit the backlog before issuing a storno"
    );
    assert_eq!(
        request_refusal_message(IssuanceKind::Modification, &full),
        "submission queue is full (50/50 pending invoices per ADR-0009 §7 / ADR-0031 §5); \
         run `aberp drain-submission-queue --endpoint <test|production> --tax-number ...` \
         to submit the backlog before issuing a modification"
    );
    assert_eq!(
        request_refusal_message(IssuanceKind::Invoice, &full),
        "submission queue is full (50/50 pending invoices per ADR-0009 §7 / ADR-0031 §5); \
         run `aberp drain-submission-queue --endpoint <test|production> --tax-number ...` \
         to submit the backlog, or `aberp mark-abandoned --invoice-id <id> --reason ...` \
         on invoices the operator has decided not to submit"
    );
    assert_eq!(
        request_refusal_message(IssuanceKind::Storno, &RequestRefusal::NoLines),
        "input JSON has no lines"
    );
    assert_eq!(
        request_refusal_message(IssuanceKind::Invoice, &RequestRefusal::NoLines),
        "input has no lines"
    );
    assert_eq!(
        request_refusal_message(
            IssuanceKind::Storno,
            &RequestRefusal::MalformedReference("01HX".to_string())
        ),
        "references value '01HX' is not a prefixed invoice id (expected inv_<ULID>)"
    );
    assert_eq!(
        request_refusal_message(IssuanceKind::Invoice, &RequestRefusal::InvalidTenant(String::new())),
        "tenant value '' is empty or has a null byte"
    );
    assert_eq!(
        request_refusal_message(IssuanceKind::Invoice, &RequestRefusal::InvalidSeries("Q".to_string())),
        "series value 'Q' fails SeriesCode validation"
    );
    assert_eq!(
        request_refusal_message(
            IssuanceKind::Modification,
            &RequestRefusal::MalformedModificationDate("14/05".to_string())
        ),
        "modification_date '14/05' is not a well-formed YYYY-MM-DD (ADR-0024 §1 requires \
         explicit operator-supplied date — no silent default)"
    );
    assert_eq!(
        request_refusal_message(
            IssuanceKind::Invoice,
            &RequestRefusal::SupplierConfig(SupplierConfigError::MissingTaxNumber)
        ),
        "supplier_config_invalid: supplier tax number is missing"
    );
}

#[test]
fn chain_customer_tax_number_trims_or_omits() {
    let mut c = input(1, "x").customer;
    assert_eq!(chain_customer_tax_number(&c), Some("12345678-2-41".to_string()));
    c.tax_number = "  \t ".to_string();
    assert_eq!(chain_customer_tax_number(&c), None);
}

#[test]
fn rate_walkback_messages_are_exact() {
    assert_eq!(
        no_rate_after_walkback_message(Currency::Eur, "2026-01-04"),
        "no MNB rate published for EUR in the 7 days preceding (and including) 2026-01-04; \
         the supply-fulfillment date may be in a multi-day non-publication window \
         OR before MNB began publishing this currency (ADR-0037 §2.b walk-back exhausted)"
    );
    assert!(no_rate_after_walkback_message(Currency::Eur, "2026-01-04")
        .starts_with(ERR_NO_RATE_AFTER_WALKBACK));
    assert_eq!(
        mnb_fetch_failed_message(Currency::Eur, "2026-01-02", "HTTP status 503"),
        "MNB rate-fetch failed for EUR on 2026-01-02: HTTP status 503"
    );
    assert!(mnb_fetch_failed_message(Currency::Huf, "d", "e").starts_with(ERR_MNB_FETCH_FAILED));
}

#[test]
fn mnb_rate_value_parses_or_loud_fails() {
    assert_eq!(parse_mnb_rate("385.12"), Ok(Decimal::new(38512, 2)));
    assert_eq!(
        parse_mnb_rate("385,12"),
        Err("MNB rate value `385,12` is not a parseable decimal (expected \
             rust_decimal-compatible canonical form)"
            .to_string())
    );
}

#[test]
fn gross_and_conversion_overflow_messages() {
    assert_eq!(gross_total_error_message(GrossTotalError::LineOverflow), "line gross total overflowed i64");
    assert_eq!(
        gross_total_error_message(GrossTotalError::TotalOverflow),
        "invoice gross total overflowed i64"
    );
    assert_eq!(
        huf_overflow_message(-12345, "385.12"),
        "EUR amount -12345 cents × rate 385.12 overflows i64 HUF equivalent (ADR-0037 §1.c)"
    );
}

#[test]
fn chain_child_gross_reverses_a_storno_and_keeps_a_modification() {
    let lines = vec![Some(12_700), Some(-2_540), Some(0)];
    assert_eq!(chain_child_gross(ChainKind::Storno, &lines), Ok(-10_160));
    assert_eq!(chain_child_gross(ChainKind::Modification, &lines), Ok(10_160));
    assert_eq!(chain_child_gross(ChainKind::Storno, &vec![]), Ok(0));
}

#[test]
fn chain_child_gross_overflow_messages() {
    assert_eq!(
        chain_child_gross(ChainKind::Storno, &vec![Some(1), None]),
        Err("storno line gross_total overflow".to_string())
    );
    assert_eq!(
        chain_child_gross(ChainKind::Modification, &vec![Some(i64::MAX), Some(1)]),
        Err("modification gross accumulator overflow".to_string())
    );
    assert_eq!(
        chain_child_gross(ChainKind::Storno, &vec![Some(i64::MIN)]),
        Err("storno gross negation overflow".to_string())
    );
    assert_eq!(chain_child_gross(ChainKind::Modification, &vec![Some(i64::MIN)]), Ok(i64::MIN));
}

#[test]
fn an_accepted_modification_request_passes_the_storno_guard() {
    let i = input(2, "12345678-2-41");
    assert_eq!(check_modification_request(&i, "2026-05-14", "t", true, "A", true, "inv_01HX"), Ok(()));
    assert_eq!(check_storno_request(&i, "t", true, "A", true, "inv_01HX"), Ok(()));
}

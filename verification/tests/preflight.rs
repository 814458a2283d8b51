use aberp::billing::{Currency, VatRateKind};
use aberp::issue_invoice::{AddressJson, CustomerJson, LineJson, Quantity};
use aberp::issue_preflight::{
    format_percent_list, translate_reason_hu, validate_invoice_preflight, InvoicePreflightError,
    IssueInvoiceRequest, ALLOWED_VAT_RATES_PERCENT,
};
use aberp::nav_xml::{parse_hungarian_tax_number, CustomerVatStatus, SupplierConfigError};
use rust_decimal::Decimal;

fn qty(d: Decimal) -> Quantity {
    Quantity::from_decimal(&d)
}

fn good_customer_address() -> AddressJson {
    AddressJson {
        country_code: "HU".to_string(),
        postal_code: "1052".to_string(),
        city: "Budapest".to_string(),
        street: "Váci utca 19.".to_string(),
    }
}

fn good_line() -> LineJson {
    LineJson {
        description: "CNC machining service".to_string(),
        quantity: qty(Decimal::from(1)),
        unit_price: 10_000,
        vat_rate_percent: 27,
        vat_rate_kind: VatRateKind::Percent,
        note: None,
        unit: None,
    }
}

fn good_request() -> IssueInvoiceRequest {
    IssueInvoiceRequest {
        customer: CustomerJson {
            vat_status: CustomerVatStatus::Domestic,
            partner_id: None,
            tax_number: "87654321-2-13".to_string(),
            name: "Áben Consulting KFT.".to_string(),
            address: Some(good_customer_address()),
        },
        lines: vec![good_line()],
        currency: Currency::Huf,
        series: None,
        bank_account_id: None,
        invoice_note: None,
        payment_deadline: None,
        delivery_date: None,
    }
}

#[test]
fn golden_valid_request_returns_empty_vec() {
    assert!(validate_invoice_preflight(&good_request()).is_empty());
}

#[test]
fn shut_door_rejects_every_non_percent_kind() {
    let kinds = [
        VatRateKind::AamExempt,
        VatRateKind::DomesticReverseCharge,
        VatRateKind::IntraCommunityGoods,
        VatRateKind::IntraCommunityServiceReverse,
        VatRateKind::TamExempt,
        VatRateKind::ExportGoods,
        VatRateKind::OtherInternational,
        VatRateKind::NewTransportIntraCommunity,
        VatRateKind::OutOfScopeThirdCountry,
        VatRateKind::MarginScheme,
        VatRateKind::NoVatCharge,
        VatRateKind::VatContent,
    ];
    for kind in kinds {
        let mut r = good_request();
        r.lines[0].vat_rate_kind = kind;
        r.lines[0].vat_rate_percent = 0;
        let errs = validate_invoice_preflight(&r);
        assert!(
            errs.iter().any(|e| matches!(
                e,
                InvoicePreflightError::LineItemVatRateKindNotYetIssuable { kind: k, .. }
                    if *k == kind
            )),
            "kind {kind:?} must be rejected as not-yet-issuable (shut door); got {errs:?}"
        );
        assert!(
            !errs
                .iter()
                .any(|e| matches!(e, InvoicePreflightError::LineItemVatRateUnknown { .. })),
            "non-Percent kind must not ALSO trip LineItemVatRateUnknown; got {errs:?}"
        );
    }
}

#[test]
fn shut_door_variant_discriminant_field_path_and_messages() {
    let e = InvoicePreflightError::LineItemVatRateKindNotYetIssuable {
        line_index: 2,
        kind: VatRateKind::AamExempt,
    };
    assert_eq!(e.kind(), "LineItemVatRateKindNotYetIssuable");
    assert_eq!(e.field_path(), "lines[2].vatRateKind");
    assert!(e.message_hu().contains("AamExempt"));
    assert!(e.message_en().contains("AamExempt"));
}

#[test]
fn percent_kind_still_numeric_gated() {
    let mut r = good_request();
    r.lines[0].vat_rate_kind = VatRateKind::Percent;
    r.lines[0].vat_rate_percent = 9;
    let errs = validate_invoice_preflight(&r);
    assert!(
        errs.iter()
            .any(|e| matches!(e, InvoicePreflightError::LineItemVatRateUnknown { .. })),
        "Percent + out-of-vocab rate must still trip LineItemVatRateUnknown; got {errs:?}"
    );
}

#[test]
fn fires_customer_name_empty_for_blank_name() {
    let mut r = good_request();
    r.customer.name = "   ".to_string();
    let errs = validate_invoice_preflight(&r);
    assert!(errs.contains(&InvoicePreflightError::CustomerNameEmpty), "got {errs:?}");
}

#[test]
fn fires_customer_tax_number_missing_for_blank_tax() {
    let mut r = good_request();
    r.customer.tax_number = "".to_string();
    let errs = validate_invoice_preflight(&r);
    assert!(errs.contains(&InvoicePreflightError::CustomerTaxNumberMissing), "got {errs:?}");
}

#[test]
fn fires_customer_tax_number_malformed_for_bare_digits() {
    let mut r = good_request();
    r.customer.tax_number = "87654321".to_string();
    let errs = validate_invoice_preflight(&r);
    let found = errs.iter().any(|e| {
        matches!(
            e,
            InvoicePreflightError::CustomerTaxNumberMalformed { actual, .. }
                if actual == "87654321"
        )
    });
    assert!(found, "expected CustomerTaxNumberMalformed, got {errs:?}");
}

#[test]
fn fires_customer_address_missing_for_none_address() {
    let mut r = good_request();
    r.customer.address = None;
    let errs = validate_invoice_preflight(&r);
    assert!(errs.contains(&InvoicePreflightError::CustomerAddressMissing), "got {errs:?}");
}

#[test]
fn fires_customer_address_missing_for_each_blank_subfield() {
    let mut r = good_request();
    r.customer.address.as_mut().unwrap().city = "   ".to_string();
    assert!(validate_invoice_preflight(&r).contains(&InvoicePreflightError::CustomerAddressMissing));
    let mut r = good_request();
    r.customer.address.as_mut().unwrap().street = "".to_string();
    assert!(validate_invoice_preflight(&r).contains(&InvoicePreflightError::CustomerAddressMissing));
    let mut r = good_request();
    r.customer.address.as_mut().unwrap().postal_code = "".to_string();
    assert!(validate_invoice_preflight(&r).contains(&InvoicePreflightError::CustomerAddressMissing));
    let mut r = good_request();
    r.customer.address.as_mut().unwrap().country_code = "".to_string();
    assert!(validate_invoice_preflight(&r).contains(&InvoicePreflightError::CustomerAddressMissing));
}

#[test]
fn customer_address_missing_suppressed_when_tax_number_malformed() {
    let mut r = good_request();
    r.customer.tax_number = "12345".to_string();
    r.customer.address = None;
    let errs = validate_invoice_preflight(&r);
    assert!(!errs.contains(&InvoicePreflightError::CustomerAddressMissing), "got {errs:?}");
}

#[test]
fn fires_invoice_lines_empty_for_empty_lines() {
    let mut r = good_request();
    r.lines.clear();
    let errs = validate_invoice_preflight(&r);
    assert!(errs.contains(&InvoicePreflightError::InvoiceLinesEmpty), "got {errs:?}");
}

#[test]
fn fires_line_item_description_empty_for_blank_line_description() {
    let mut r = good_request();
    r.lines[0].description = "   ".to_string();
    let errs = validate_invoice_preflight(&r);
    assert!(errs.contains(&InvoicePreflightError::LineItemDescriptionEmpty { line_index: 0 }));
}

#[test]
fn fires_line_item_quantity_zero_for_zero_quantity() {
    let mut r = good_request();
    r.lines[0].quantity = qty(Decimal::ZERO);
    let errs = validate_invoice_preflight(&r);
    assert!(errs.contains(&InvoicePreflightError::LineItemQuantityZero { line_index: 0 }));
}

#[test]
fn fires_line_item_quantity_zero_for_negative_quantity() {
    let mut r = good_request();
    r.lines[0].quantity = qty(Decimal::from(-1));
    let errs = validate_invoice_preflight(&r);
    assert!(errs.contains(&InvoicePreflightError::LineItemQuantityZero { line_index: 0 }));
}

#[test]
fn accepts_fractional_quantity() {
    let mut r = good_request();
    r.lines[0].quantity = qty(Decimal::new(15, 1));
    let errs = validate_invoice_preflight(&r);
    assert!(
        !errs
            .iter()
            .any(|e| matches!(e, InvoicePreflightError::LineItemQuantityZero { .. })),
        "1.5 must not trip the quantity gate, got {errs:?}"
    );
}

#[test]
fn fires_line_item_unit_price_non_positive_for_zero_unit_price() {
    let mut r = good_request();
    r.lines[0].unit_price = 0;
    let errs = validate_invoice_preflight(&r);
    assert!(errs.iter().any(|e| matches!(
        e,
        InvoicePreflightError::LineItemUnitPriceNonPositive { line_index: 0, actual: 0 }
    )));
}

#[test]
fn fires_line_item_unit_price_non_positive_for_negative_unit_price() {
    let mut r = good_request();
    r.lines[0].unit_price = -500;
    let errs = validate_invoice_preflight(&r);
    assert!(errs.iter().any(|e| matches!(
        e,
        InvoicePreflightError::LineItemUnitPriceNonPositive { line_index: 0, actual: -500 }
    )));
}

#[test]
fn fires_line_item_vat_rate_unknown_for_off_vocab_rate() {
    let mut r = good_request();
    r.lines[0].vat_rate_percent = 12;
    let errs = validate_invoice_preflight(&r);
    assert!(errs.iter().any(|e| matches!(
        e,
        InvoicePreflightError::LineItemVatRateUnknown { line_index: 0, actual: 12, .. }
    )));
}

#[test]
fn allows_every_standard_vat_rate_individually() {
    for rate in ALLOWED_VAT_RATES_PERCENT.iter() {
        let mut r = good_request();
        r.lines[0].vat_rate_percent = *rate;
        let errs = validate_invoice_preflight(&r);
        assert!(errs.is_empty(), "rate {rate}% must pass preflight, got {errs:?}");
    }
}

#[test]
fn collects_all_errors_in_one_pass_for_multi_failing_request() {
    let r = IssueInvoiceRequest {
        customer: CustomerJson {
            vat_status: CustomerVatStatus::Domestic,
            partner_id: None,
            tax_number: "12345".to_string(),
            name: "  ".to_string(),
            address: None,
        },
        lines: vec![
            LineJson {
                description: "".to_string(),
                quantity: qty(Decimal::ZERO),
                unit_price: -1,
                vat_rate_percent: 12,
                vat_rate_kind: VatRateKind::Percent,
                note: None,
                unit: None,
            },
            good_line(),
            LineJson {
                description: "second bad line".to_string(),
                quantity: qty(Decimal::from(1)),
                unit_price: 10,
                vat_rate_percent: 99,
                vat_rate_kind: VatRateKind::Percent,
                note: None,
                unit: None,
            },
        ],
        currency: Currency::Huf,
        series: None,
        bank_account_id: None,
        invoice_note: None,
        payment_deadline: None,
        delivery_date: None,
    };
    let errs = validate_invoice_preflight(&r);
    assert!(errs.contains(&InvoicePreflightError::CustomerNameEmpty));
    assert!(errs
        .iter()
        .any(|e| matches!(e, InvoicePreflightError::CustomerTaxNumberMalformed { .. })));
    assert!(errs.contains(&InvoicePreflightError::LineItemDescriptionEmpty { line_index: 0 }));
    assert!(errs.contains(&InvoicePreflightError::LineItemQuantityZero { line_index: 0 }));
    assert!(errs.iter().any(|e| matches!(
        e,
        InvoicePreflightError::LineItemUnitPriceNonPositive { line_index: 0, .. }
    )));
    assert!(errs.iter().any(|e| matches!(
        e,
        InvoicePreflightError::LineItemVatRateUnknown { line_index: 0, actual: 12, .. }
    )));
    assert!(errs.iter().any(|e| matches!(
        e,
        InvoicePreflightError::LineItemVatRateUnknown { line_index: 2, actual: 99, .. }
    )));
    assert!(!errs.iter().any(|e| match e {
        InvoicePreflightError::LineItemDescriptionEmpty { line_index }
        | InvoicePreflightError::LineItemQuantityZero { line_index }
        | InvoicePreflightError::LineItemUnitPriceNonPositive { line_index, .. }
        | InvoicePreflightError::LineItemVatRateUnknown { line_index, .. } => *line_index == 1,
        _ => false,
    }));
    assert_eq!(errs.len(), 7, "exactly the seven problems, got {errs:?}");
}

#[test]
fn preflight_catches_what_would_fail_at_nav_submit_time() {
    let mut r = good_request();
    r.customer.tax_number = "87654321-2-".to_string();
    let errs = validate_invoice_preflight(&r);
    assert!(errs.iter().any(|e| matches!(
        e,
        InvoicePreflightError::CustomerTaxNumberMalformed { actual, .. }
            if actual == "87654321-2-"
    )));
    let nav_side = parse_hungarian_tax_number("87654321-2-");
    assert!(nav_side.is_err());
}

fn every_variant() -> Vec<InvoicePreflightError> {
    vec![
        InvoicePreflightError::CustomerNameEmpty,
        InvoicePreflightError::CustomerTaxNumberMissing,
        InvoicePreflightError::CustomerTaxNumberMalformed {
            actual: "1234".to_string(),
            reason: "expected three dash-separated segments",
        },
        InvoicePreflightError::CustomerAddressMissing,
        InvoicePreflightError::InvoiceLinesEmpty,
        InvoicePreflightError::LineItemDescriptionEmpty { line_index: 0 },
        InvoicePreflightError::LineItemQuantityZero { line_index: 0 },
        InvoicePreflightError::LineItemUnitPriceNonPositive { line_index: 0, actual: -1 },
        InvoicePreflightError::LineItemVatRateUnknown {
            line_index: 0,
            actual: 99,
            allowed: ALLOWED_VAT_RATES_PERCENT,
        },
        InvoicePreflightError::LineItemVatRateKindNotYetIssuable {
            line_index: 0,
            kind: VatRateKind::TamExempt,
        },
        InvoicePreflightError::SellerBankMissingForCurrency { currency: Currency::Eur },
        InvoicePreflightError::SellerBankCurrencyMismatch {
            selected_id: "bnk_x".to_string(),
            selected_currency: Currency::Huf,
            invoice_currency: Currency::Eur,
        },
        InvoicePreflightError::CustomerTaxNumberPresentForPrivatePerson {
            actual: "12345678-1-42".to_string(),
        },
        InvoicePreflightError::CustomerVatStatusOtherNotSupportedV1,
    ]
}

#[test]
fn kind_is_distinct_per_variant() {
    let variants = every_variant();
    let kinds: std::collections::HashSet<&'static str> =
        variants.iter().map(|v| v.kind()).collect();
    assert_eq!(kinds.len(), variants.len(), "duplicates: {kinds:?}");
}

#[test]
fn field_path_uses_camel_case_and_bracket_indexing() {
    assert_eq!(InvoicePreflightError::CustomerNameEmpty.field_path(), "customer.name");
    assert_eq!(
        InvoicePreflightError::CustomerTaxNumberMissing.field_path(),
        "customer.taxNumber"
    );
    assert_eq!(
        InvoicePreflightError::LineItemDescriptionEmpty { line_index: 3 }.field_path(),
        "lines[3].description"
    );
    assert_eq!(
        InvoicePreflightError::LineItemVatRateUnknown {
            line_index: 7,
            actual: 99,
            allowed: ALLOWED_VAT_RATES_PERCENT,
        }
        .field_path(),
        "lines[7].vatRatePercent"
    );
}

#[test]
fn message_hu_and_en_both_present_for_every_variant() {
    for v in every_variant() {
        assert!(!v.message_hu().is_empty(), "HU missing for {v:?}");
        assert!(!v.message_en().is_empty(), "EN missing for {v:?}");
    }
}

#[test]
fn seller_bank_variants_route_to_bank_account_id_field() {
    let missing = InvoicePreflightError::SellerBankMissingForCurrency { currency: Currency::Huf };
    assert_eq!(missing.field_path(), "bankAccountId");
    let mismatch = InvoicePreflightError::SellerBankCurrencyMismatch {
        selected_id: "bnk_abc".to_string(),
        selected_currency: Currency::Eur,
        invoice_currency: Currency::Huf,
    };
    assert_eq!(mismatch.field_path(), "bankAccountId");
}

#[test]
fn seller_bank_missing_for_currency_message_names_currency() {
    let err = InvoicePreflightError::SellerBankMissingForCurrency { currency: Currency::Eur };
    let hu = err.message_hu();
    let en = err.message_en();
    assert!(hu.contains("EUR"), "{hu}");
    assert!(en.contains("EUR"), "{en}");
    assert!(hu.contains("Bérlőbeállítások") || hu.contains("Bank accounts"), "{hu}");
    assert!(en.contains("Tenant Settings"), "{en}");
}

#[test]
fn seller_bank_currency_mismatch_message_names_all_three_handles() {
    let err = InvoicePreflightError::SellerBankCurrencyMismatch {
        selected_id: "bnk_xyz".to_string(),
        selected_currency: Currency::Huf,
        invoice_currency: Currency::Eur,
    };
    let hu = err.message_hu();
    let en = err.message_en();
    for body in [&hu, &en] {
        assert!(body.contains("bnk_xyz"), "{body}");
        assert!(body.contains("HUF"), "{body}");
        assert!(body.contains("EUR"), "{body}");
    }
}

#[test]
fn fires_customer_tax_number_present_for_private_person() {
    let mut r = good_request();
    r.customer.vat_status = CustomerVatStatus::PrivatePerson;
    r.customer.tax_number = "12345678-1-42".to_string();
    let errs = validate_invoice_preflight(&r);
    assert!(errs.iter().any(|e| matches!(
        e,
        InvoicePreflightError::CustomerTaxNumberPresentForPrivatePerson { actual }
            if actual == "12345678-1-42"
    )));
}

#[test]
fn does_not_fire_customer_tax_number_missing_for_private_person() {
    let mut r = good_request();
    r.customer.vat_status = CustomerVatStatus::PrivatePerson;
    r.customer.tax_number = "".to_string();
    let errs = validate_invoice_preflight(&r);
    assert!(!errs.contains(&InvoicePreflightError::CustomerTaxNumberMissing));
}

#[test]
fn fires_customer_address_missing_for_private_person() {
    let mut r = good_request();
    r.customer.vat_status = CustomerVatStatus::PrivatePerson;
    r.customer.tax_number = "".to_string();
    r.customer.address = None;
    let errs = validate_invoice_preflight(&r);
    assert!(errs.contains(&InvoicePreflightError::CustomerAddressMissing));
}

#[test]
fn fires_customer_address_missing_for_domestic_and_private_person() {
    for (vat_status, tax) in [
        (CustomerVatStatus::Domestic, "12345678-2-13"),
        (CustomerVatStatus::PrivatePerson, ""),
    ] {
        let mut r = good_request();
        r.customer.vat_status = vat_status;
        r.customer.tax_number = tax.to_string();
        r.customer.address = None;
        let errs = validate_invoice_preflight(&r);
        assert!(errs.contains(&InvoicePreflightError::CustomerAddressMissing), "{vat_status:?}");
    }
}

#[test]
fn does_not_fire_customer_address_missing_when_address_present() {
    for (vat_status, tax) in [
        (CustomerVatStatus::Domestic, "12345678-2-13"),
        (CustomerVatStatus::PrivatePerson, ""),
    ] {
        let mut r = good_request();
        r.customer.vat_status = vat_status;
        r.customer.tax_number = tax.to_string();
        r.customer.address = Some(good_customer_address());
        let errs = validate_invoice_preflight(&r);
        assert!(!errs.contains(&InvoicePreflightError::CustomerAddressMissing), "{vat_status:?}");
    }
}

#[test]
fn customer_address_missing_message_names_section_169() {
    let e = InvoicePreflightError::CustomerAddressMissing;
    assert!(e.message_hu().contains("§169"));
    assert!(e.message_en().contains("§169"));
}

#[test]
fn fires_customer_vat_status_other_not_supported_v1() {
    let mut r = good_request();
    r.customer.vat_status = CustomerVatStatus::Other;
    let errs = validate_invoice_preflight(&r);
    assert!(errs.contains(&InvoicePreflightError::CustomerVatStatusOtherNotSupportedV1));
}

#[test]
fn domestic_branch_preserves_pre_pr_97_invariants() {
    let mut r = good_request();
    r.customer.vat_status = CustomerVatStatus::Domestic;
    r.customer.tax_number = "".to_string();
    let errs = validate_invoice_preflight(&r);
    assert!(errs.contains(&InvoicePreflightError::CustomerTaxNumberMissing));
}

#[test]
fn fires_customer_name_empty_for_every_customer_type() {
    for vat_status in [
        CustomerVatStatus::Domestic,
        CustomerVatStatus::PrivatePerson,
        CustomerVatStatus::Other,
    ] {
        let mut r = good_request();
        r.customer.vat_status = vat_status;
        r.customer.tax_number = "".to_string();
        r.customer.name = "   ".to_string();
        let errs = validate_invoice_preflight(&r);
        assert!(errs.contains(&InvoicePreflightError::CustomerNameEmpty), "{vat_status:?}");
    }
}

#[test]
fn customer_name_empty_message_names_section_169() {
    let e = InvoicePreflightError::CustomerNameEmpty;
    assert!(e.message_hu().contains("§169"));
    assert!(e.message_en().contains("§169"));
}

#[test]
fn does_not_fire_customer_name_empty_when_name_present() {
    for (vat_status, tax) in [
        (CustomerVatStatus::Domestic, "12345678-2-13"),
        (CustomerVatStatus::PrivatePerson, ""),
    ] {
        let mut r = good_request();
        r.customer.vat_status = vat_status;
        r.customer.tax_number = tax.to_string();
        r.customer.name = "Teszt Magánszemély".to_string();
        let errs = validate_invoice_preflight(&r);
        assert!(!errs.contains(&InvoicePreflightError::CustomerNameEmpty));
    }
}

#[test]
fn pr_97_variants_route_to_expected_fields() {
    let p = InvoicePreflightError::CustomerTaxNumberPresentForPrivatePerson { actual: "x".to_string() };
    assert_eq!(p.field_path(), "customer.taxNumber");
    let other = InvoicePreflightError::CustomerVatStatusOtherNotSupportedV1;
    assert_eq!(other.field_path(), "customer.vatStatus");
}

// ── own scenarios ────────────────────────────────────────────────────

#[test]
fn messages_render_one_based_line_numbers_and_rate_lists() {
    let e = InvoicePreflightError::LineItemVatRateUnknown {
        line_index: 0,
        actual: 12,
        allowed: ALLOWED_VAT_RATES_PERCENT,
    };
    assert_eq!(
        e.message_en(),
        "Line 1 VAT rate (12%) is not a Hungarian standard rate (allowed: 0%, 5%, 18%, 27%). Special categories (AAM/TAM/TAH) are not supported on this wire shape today."
    );
    let p = InvoicePreflightError::LineItemUnitPriceNonPositive { line_index: 9, actual: -500 };
    assert_eq!(
        p.message_hu(),
        "A(z) 10. tételsor egységára pozitív kell legyen (kapott: -500). Sztornó / módosítás külön folyamat."
    );
    assert_eq!(format_percent_list(&[0, 5, 18, 27]), "0%, 5%, 18%, 27%");
    assert_eq!(format_percent_list(&[]), "");
}

#[test]
fn malformed_tax_number_messages_translate_the_reason() {
    let e = InvoicePreflightError::CustomerTaxNumberMalformed {
        actual: "1234".to_string(),
        reason: "expected three dash-separated segments",
    };
    assert_eq!(
        e.message_hu(),
        "Az ügyfél adószáma (`1234`) hibás formátum (három, kötőjellel elválasztott szegmens szükséges). Helyes: `xxxxxxxx-y-zz`, pl. `87654321-2-13`."
    );
    assert_eq!(translate_reason_hu("something else"), "hibás formátum");
    assert_eq!(translate_reason_hu("vatCode segment must be an ASCII digit"), "az ÁFA-kód csak számjegy lehet");
}

#[test]
fn tax_number_parser_reports_the_first_broken_rule() {
    let ok = parse_hungarian_tax_number("  87654321-2-13 ").unwrap();
    assert_eq!(ok.taxpayer_id, "87654321");
    assert_eq!(ok.vat_code, "2");
    assert_eq!(ok.county_code, "13");
    assert_eq!(parse_hungarian_tax_number("   "), Err(SupplierConfigError::MissingTaxNumber));
    let reason = |s: &str| match parse_hungarian_tax_number(s) {
        Err(SupplierConfigError::MalformedTaxNumber { reason, .. }) => reason,
        other => panic!("{s}: {other:?}"),
    };
    assert_eq!(reason("87654321"), "expected three dash-separated segments");
    assert_eq!(reason("1-2-3-4"), "expected three dash-separated segments");
    assert_eq!(reason("8765432-2-13"), "taxpayerId segment must be exactly 8 digits");
    assert_eq!(reason("8765432a-2-13"), "taxpayerId segment must be ASCII digits only");
    assert_eq!(reason("87654321-22-13"), "vatCode segment must be exactly 1 digit");
    assert_eq!(reason("87654321-x-13"), "vatCode segment must be an ASCII digit");
    assert_eq!(reason("87654321-2-1"), "countyCode segment must be exactly 2 digits");
    assert_eq!(reason("87654321-2-1x"), "countyCode segment must be ASCII digits only");
    assert_eq!(reason("8765432é-2-13"), "taxpayerId segment must be exactly 8 digits");
}

#[test]
fn errors_come_in_reporting_order() {
    let mut r = good_request();
    r.customer.name = "".to_string();
    r.customer.vat_status = CustomerVatStatus::PrivatePerson;
    r.customer.tax_number = " 1 ".to_string();
    r.customer.address = None;
    r.lines[0].description = " ".to_string();
    let errs = validate_invoice_preflight(&r);
    assert_eq!(
        errs,
        vec![
            InvoicePreflightError::CustomerNameEmpty,
            InvoicePreflightError::CustomerTaxNumberPresentForPrivatePerson { actual: "1".to_string() },
            InvoicePreflightError::CustomerAddressMissing,
            InvoicePreflightError::LineItemDescriptionEmpty { line_index: 0 },
        ]
    );
}

#[test]
fn quantity_from_decimal_keeps_mantissa_and_scale() {
    assert_eq!(Quantity::from_decimal(&Decimal::new(12345, 2)), Quantity::new(12345, 2));
    assert_eq!(Quantity::from_decimal(&Decimal::new(-7, 0)), Quantity::new(-7, 0));
    assert_eq!(Quantity::from_decimal(&Decimal::ZERO), Quantity::new(0, 0));
}

use aberp::billing::Currency;
use aberp::invoice_bank_snapshot::InvoiceBankSnapshot;
use aberp::invoice_currency_metadata::{
    decode_currency_column, inherit_rate_inputs_for_chain, require_chain_currency_match,
    InvoiceCurrencyMetadata,
};
use aberp::invoice_draft::{
    delete_outcome, draft_delete_idempotency_key, draft_deleted_payload, draft_id, stage_draft,
    validate_delete_draft_inputs, CreateDraftInputs, DeleteDraftInputs, DraftSources,
};
use aberp::mark_abandoned::{abandon_reason, effective_reason_for_audit, nav_exists_guard};
use aberp::mark_invoice_paid::{decide_mark_paid, MarkPaidError, MarkPaidInput, PaymentRecord};
use aberp::material_inventory::ReservationState;
use aberp::material_traceability::{normalize_query_value, TraceQueryKind};
use rust_decimal::Decimal;
use std::str::FromStr;

#[test]
fn present_requires_all_five_fields() {
    let full = InvoiceBankSnapshot {
        bank_account_id: Some("bnk_x".to_string()),
        bank_account_currency: Some("HUF".to_string()),
        bank_account_number: Some("123".to_string()),
        bank_account_bank_name: Some("Bank".to_string()),
        bank_account_swift_bic: Some("GIBAHUHB".to_string()),
    };
    assert!(full.present());
    let mut missing_one = full.clone();
    missing_one.bank_account_currency = None;
    assert!(!missing_one.present());
}

#[test]
fn into_typed_returns_snapshot_when_all_fields_present() {
    let full = InvoiceBankSnapshot {
        bank_account_id: Some("bnk_z".to_string()),
        bank_account_currency: Some("EUR".to_string()),
        bank_account_number: Some("HU12-3456".to_string()),
        bank_account_bank_name: Some("Erste".to_string()),
        bank_account_swift_bic: Some("GIBAHUHB".to_string()),
    };
    let typed = full.into_typed().expect("full snapshot must convert");
    assert_eq!(typed.id, "bnk_z");
    assert_eq!(typed.currency, "EUR");
}

#[test]
fn into_typed_returns_none_for_partial_snapshot() {
    let partial = InvoiceBankSnapshot {
        bank_account_id: Some("bnk_p".to_string()),
        bank_account_currency: None,
        bank_account_number: Some("999".to_string()),
        bank_account_bank_name: Some("X".to_string()),
        bank_account_swift_bic: Some("Y".to_string()),
    };
    assert!(partial.into_typed().is_none());
}

fn eur_base_metadata() -> InvoiceCurrencyMetadata {
    InvoiceCurrencyMetadata {
        currency: Currency::Eur,
        exchange_rate: Some("405.230000".to_string()),
        exchange_rate_source: Some("MNB".to_string()),
        exchange_rate_date: Some("2026-05-08".to_string()),
        huf_equivalent_total: Some(40_523),
    }
}

fn huf_base_metadata() -> InvoiceCurrencyMetadata {
    InvoiceCurrencyMetadata {
        currency: Currency::Huf,
        exchange_rate: None,
        exchange_rate_source: None,
        exchange_rate_date: None,
        huf_equivalent_total: None,
    }
}

#[test]
fn inherit_rate_metadata_eur_base_inherits_rate_source_date_and_recomputes_huf() {
    let inherited = inherit_rate_inputs_for_chain(&eur_base_metadata())
        .unwrap()
        .expect("EUR child must carry rate inputs");
    assert_eq!(inherited.rate, Decimal::from_str("405.230000").unwrap());
    assert_eq!(inherited.source, "MNB");
    assert_eq!(inherited.date, "2026-05-08");
}

#[test]
fn inherit_rate_metadata_huf_base_produces_none() {
    assert!(inherit_rate_inputs_for_chain(&huf_base_metadata()).unwrap().is_none());
}

#[test]
fn inherit_rate_metadata_loud_fails_on_eur_base_with_missing_rate() {
    let mut base = eur_base_metadata();
    base.exchange_rate = None;
    let err = inherit_rate_inputs_for_chain(&base).unwrap_err();
    assert!(err.contains("missing exchange_rate"), "{err}");
}

#[test]
fn inherit_rate_refuses_corrupt_rate_and_date() {
    let mut base = eur_base_metadata();
    base.exchange_rate = Some("four hundred".to_string());
    assert_eq!(
        inherit_rate_inputs_for_chain(&base).unwrap_err(),
        "base invoice exchange_rate value `four hundred` is not a parseable decimal — DB row corrupt or schema-drifted"
    );
    let mut base = eur_base_metadata();
    base.exchange_rate_date = Some("2026-13-08".to_string());
    assert!(inherit_rate_inputs_for_chain(&base).unwrap_err().contains("does not parse as YYYY-MM-DD"));
    let mut base = eur_base_metadata();
    base.exchange_rate_source = None;
    assert!(inherit_rate_inputs_for_chain(&base).unwrap_err().contains("missing exchange_rate_source column"));
}

#[test]
fn chain_currency_mismatch_huf_child_against_eur_base_loud_fails() {
    let msg = require_chain_currency_match(Currency::Eur, Currency::Huf, "inv_BASE_FOR_EUR").unwrap_err();
    assert!(msg.contains("ChainCurrencyMismatch"), "{msg}");
    assert!(msg.contains("inv_BASE_FOR_EUR"), "{msg}");
}

#[test]
fn chain_currency_mismatch_eur_child_against_huf_base_loud_fails() {
    let msg = require_chain_currency_match(Currency::Huf, Currency::Eur, "inv_BASE_FOR_HUF").unwrap_err();
    assert!(msg.contains("ChainCurrencyMismatch"), "{msg}");
}

#[test]
fn chain_currency_match_matching_pairs_accepted() {
    require_chain_currency_match(Currency::Eur, Currency::Eur, "inv_x").unwrap();
    require_chain_currency_match(Currency::Huf, Currency::Huf, "inv_y").unwrap();
}

#[test]
fn currency_column_decodes_the_closed_vocabulary() {
    assert_eq!(decode_currency_column("inv_1", None), Ok(Currency::Huf));
    assert_eq!(decode_currency_column("inv_1", Some("HUF")), Ok(Currency::Huf));
    assert_eq!(decode_currency_column("inv_1", Some("EUR")), Ok(Currency::Eur));
    let err = decode_currency_column("inv_1", Some("USD")).unwrap_err();
    assert!(err.contains("inv_1") && err.contains("USD"), "{err}");
    assert_eq!(Currency::from_iso_code("EUR"), Some(Currency::Eur));
    assert_eq!(Currency::from_iso_code("eur"), None);
    assert_eq!(Currency::Huf.iso_code(), "HUF");
}

#[test]
fn effective_reason_appends_forced_marker_when_active() {
    let reason = "operator chose to abandon despite NAV-side acceptance";
    let composed = effective_reason_for_audit(reason, true);
    assert_eq!(
        composed,
        "operator chose to abandon despite NAV-side acceptance [forced-despite-nav-side-exists]"
    );
    assert!(composed.contains("[forced-despite-nav-side-exists]"));
    assert!(composed.starts_with(reason));
}

#[test]
fn effective_reason_preserves_reason_verbatim_when_not_forced() {
    let reason = "non-divergent abandonment";
    let composed = effective_reason_for_audit(reason, false);
    assert_eq!(composed, reason);
    assert!(!composed.contains("forced-despite"));
}

#[test]
fn reason_must_be_non_empty() {
    assert!("   ".trim().is_empty());
    assert!("".trim().is_empty());
    assert!(!"x".trim().is_empty());
    assert!(abandon_reason("   ").is_err());
    assert!(abandon_reason("").is_err());
    assert_eq!(abandon_reason(" x ").unwrap(), "x");
}

#[test]
fn nav_exists_guard_refuses_unless_forced() {
    let err = nav_exists_guard("inv_1", Some("exists"), false).unwrap_err();
    assert!(err.starts_with("F49 guard: mark-abandoned REFUSED for invoice inv_1: "));
    assert!(err.contains("--invoice-id inv_1 --tax-number"));
    assert_eq!(nav_exists_guard("inv_1", Some("exists"), true), Ok(true));
    assert_eq!(nav_exists_guard("inv_1", Some("absent"), false), Ok(false));
    assert_eq!(nav_exists_guard("inv_1", None, true), Ok(false));
}

fn paid_input(paid_at: &str) -> MarkPaidInput {
    MarkPaidInput {
        invoice_id: "inv_1".to_string(),
        paid_at: paid_at.to_string(),
        amount_minor: 127_000,
        currency: "HUF".to_string(),
        method: "bank_transfer".to_string(),
        reference: Some("UTALAS-1".to_string()),
    }
}

#[test]
fn mark_paid_refuses_bad_dates_and_double_payment() {
    assert_eq!(
        decide_mark_paid(&paid_input("2026/05/26"), None),
        Err(MarkPaidError::InvalidPaidAt(
            "paid_at '2026/05/26' is not a valid ISO-8601 YYYY-MM-DD date".to_string()
        ))
    );
    let existing = PaymentRecord {
        paid_at: "2026-05-01".to_string(),
        amount_minor: 1,
        currency: "HUF".to_string(),
        method: "cash".to_string(),
        reference: None,
    };
    assert_eq!(
        decide_mark_paid(&paid_input("2026-05-26"), Some(existing.clone())),
        Err(MarkPaidError::AlreadyPaid(existing))
    );
    let rec = decide_mark_paid(&paid_input("2026-05-26"), None).unwrap();
    assert_eq!(rec.paid_at, "2026-05-26");
    assert_eq!(rec.amount_minor, 127_000);
    assert_eq!(rec.reference.as_deref(), Some("UTALAS-1"));
}

#[test]
fn reservation_state_round_trip_for_every_variant() {
    for s in ReservationState::ALL {
        let db = s.as_db_str();
        let parsed = ReservationState::from_db_str(db).unwrap();
        assert_eq!(parsed, s);
    }
}

#[test]
fn reservation_state_rejects_unknown_string() {
    assert_eq!(ReservationState::from_db_str("garbage"), None);
    assert_eq!(ReservationState::from_db_str(""), None);
    assert_eq!(ReservationState::from_db_str("RESERVED"), None);
}

#[test]
fn trace_query_kind_storage_strings() {
    assert_eq!(TraceQueryKind::MaterialId.as_str(), "material_id");
    assert_eq!(TraceQueryKind::HeatLot.as_str(), "heat_lot");
    assert_eq!(normalize_query_value("  HEAT-1 \n"), "HEAT-1");
}

fn draft_inputs() -> CreateDraftInputs {
    CreateDraftInputs {
        tenant: "t1".to_string(),
        partner_id: "ptr_1".to_string(),
        source_dispatch_id: Some("dsp_1".to_string()),
        source_wo_id: Some("wo_1".to_string()),
        source_quote_id: None,
        product_id: "prd_1".to_string(),
        qty: Decimal::new(25, 1),
        notes: Some("handle with care".to_string()),
        actor: "operator".to_string(),
        idempotency_key: "idem-1".to_string(),
    }
}

#[test]
fn create_draft_refuses_empty_idempotency_key() {
    let mut inputs = draft_inputs();
    inputs.idempotency_key = "  ".to_string();
    assert_eq!(
        stage_draft(&inputs, "drf_X", "2026-01-01T00:00:00Z").unwrap_err(),
        "idempotency_key must be non-empty"
    );
    let mut inputs = draft_inputs();
    inputs.partner_id = "".to_string();
    assert_eq!(
        stage_draft(&inputs, "drf_X", "2026-01-01T00:00:00Z").unwrap_err(),
        "partner_id must be non-empty"
    );
}

#[test]
fn staged_draft_and_payload_agree() {
    let (draft, payload) = stage_draft(&draft_inputs(), "drf_X", "2026-01-01T00:00:00Z").unwrap();
    assert_eq!(draft.drf_id, "drf_X");
    assert_eq!(payload.draft_id, "drf_X");
    assert_eq!(draft.qty, "2.5");
    assert_eq!(payload.qty, "2.5");
    assert_eq!(draft.source_dispatch_id.as_deref(), Some("dsp_1"));
    assert_eq!(payload.idempotency_key, "idem-1");
    assert_eq!(draft.created_at, "2026-01-01T00:00:00Z");
    assert!(draft_id(0).starts_with("drf_"));
    assert_eq!(draft_id(0).len(), 30);
}

#[test]
fn draft_deletion_payload_and_outcome() {
    let inputs = DeleteDraftInputs {
        tenant: "t1".to_string(),
        drf_id: "drf_X".to_string(),
        actor: "operator".to_string(),
    };
    assert_eq!(validate_delete_draft_inputs(&inputs), Ok(()));
    let mut bad = inputs.clone();
    bad.drf_id = " ".to_string();
    assert_eq!(validate_delete_draft_inputs(&bad), Err("drf_id must be non-empty".to_string()));
    let prior = DraftSources {
        partner_id: "ptr_1".to_string(),
        source_dispatch_id: Some("dsp_1".to_string()),
        source_wo_id: None,
        source_quote_id: Some("q_1".to_string()),
    };
    let p = draft_deleted_payload(&inputs, &prior, "2026-02-02T00:00:00Z");
    assert_eq!(p.idempotency_key, "draft_delete:drf_X");
    assert_eq!(p.source_quote_id.as_deref(), Some("q_1"));
    assert_eq!(draft_delete_idempotency_key("drf_Y"), "draft_delete:drf_Y");
    assert!(!delete_outcome(false, 3).deleted);
    assert_eq!(delete_outcome(false, 3).dispatch_pointers_cleared, 0);
    assert_eq!(delete_outcome(true, 3).dispatch_pointers_cleared, 3);
}

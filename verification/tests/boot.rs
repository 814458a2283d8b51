use aberp::issue_invoice::{
    format_invoice_number, invoice_gross_total, percent_to_basis_points,
    supplier_config_error_message, validate_supplier_tax_number, walkback_next, AddressJson,
    GrossTotalError, MnbFetchOutcome, SupplierJson, WalkbackAction, MNB_WALKBACK_DAYS_CAP,
};
use aberp::live_checkpoint::{
    debounce_secs, debounce_step, is_disabled, DebounceAction, DebounceEvent, DebounceState,
    DEFAULT_DEBOUNCE_SECS,
};
use aberp::margin_profiles::{
    default_enabled, margin_profile_id, normalize_notes, validate_profile_fields,
};
use aberp::mes_boot::{
    env_adapter_entries, migrate_env_adapters_to_toml, AdapterConfigEntry, AdapterDefaultPorts,
    AdapterEnv, AdapterKind, DEFAULT_HOST, DEFAULT_UR_RTDE_MODEL, DEFAULT_UR_RTDE_ROBOT_ID,
    DEFAULT_ZEBRA_FRIENDLY_NAME, DEFAULT_ZEBRA_PRINTER_ID, ENV_BARCODE_HOST,
};
use aberp::nav_xml::SupplierConfigError;

fn ports() -> AdapterDefaultPorts {
    AdapterDefaultPorts { barcode: 9000, zebra: 9100, mtconnect: 5000, ur_rtde: 30004 }
}

#[test]
fn no_env_means_no_entries() {
    assert!(env_adapter_entries(&AdapterEnv::default(), ports(), true).unwrap().is_empty());
}

#[test]
fn enabled_env_maps_to_typed_entries_with_defaults() {
    let env = AdapterEnv {
        zebra_enabled: Some("true".to_string()),
        ur_rtde_enabled: Some("TRUE".to_string()),
        ..AdapterEnv::default()
    };
    let entries = env_adapter_entries(&env, ports(), true).unwrap();
    assert_eq!(entries.len(), 2);
    let zebra = entries.iter().find(|e| e.kind == AdapterKind::LabelPrinter).unwrap();
    assert_eq!(zebra.adapter_id, DEFAULT_ZEBRA_PRINTER_ID);
    assert_eq!(zebra.friendly_name, DEFAULT_ZEBRA_FRIENDLY_NAME);
    assert_eq!(zebra.host, DEFAULT_HOST);
    assert_eq!(zebra.port, ports().zebra);
    let robot = entries.iter().find(|e| e.kind == AdapterKind::Robot).unwrap();
    assert_eq!(robot.adapter_id, DEFAULT_UR_RTDE_ROBOT_ID);
    assert_eq!(robot.model.as_deref(), Some(DEFAULT_UR_RTDE_MODEL));
}

#[test]
fn barcode_env_rejects_non_ip_host() {
    let env = AdapterEnv {
        barcode_enabled: Some("true".to_string()),
        barcode_host: Some("not-an-ip".to_string()),
        ..AdapterEnv::default()
    };
    let err = env_adapter_entries(&env, ports(), false).unwrap_err();
    assert!(err.contains(ENV_BARCODE_HOST) || err.contains("barcode"), "{err}");
}

#[test]
fn malformed_port_and_blank_ids_fail_the_collection() {
    let env = AdapterEnv {
        mtconnect_enabled: Some("true".to_string()),
        mtconnect_port: Some("70000".to_string()),
        ..AdapterEnv::default()
    };
    assert_eq!(
        env_adapter_entries(&env, ports(), true).unwrap_err(),
        "read MTConnect env config: parse ABERP_MTCONNECT_PORT=70000"
    );
    let env = AdapterEnv {
        zebra_enabled: Some("True".to_string()),
        zebra_printer_id: Some("  ".to_string()),
        ..AdapterEnv::default()
    };
    assert_eq!(
        env_adapter_entries(&env, ports(), true).unwrap_err(),
        "read Zebra env config: ABERP_ZEBRA_PRINTER_ID is empty"
    );
    let env = AdapterEnv {
        mtconnect_enabled: Some("true".to_string()),
        mtconnect_port: Some("+7878".to_string()),
        ..AdapterEnv::default()
    };
    assert_eq!(env_adapter_entries(&env, ports(), true).unwrap()[0].port, 7878);
    let env = AdapterEnv { barcode_enabled: Some("yes".to_string()), ..AdapterEnv::default() };
    assert!(env_adapter_entries(&env, ports(), true).unwrap().is_empty());
}

fn cnc(id: &str, host: &str) -> AdapterConfigEntry {
    AdapterConfigEntry {
        kind: AdapterKind::Cnc,
        adapter_id: id.to_string(),
        friendly_name: "CNC Machine".to_string(),
        host: host.to_string(),
        port: 5000,
        device_name: Some("default".to_string()),
        model: None,
    }
}

#[test]
fn migration_is_idempotent_by_adapter_id() {
    let env = AdapterEnv {
        mtconnect_enabled: Some("true".to_string()),
        mtconnect_machine_id: Some("cnc-line-a".to_string()),
        mtconnect_host: Some("10.0.0.20".to_string()),
        ..AdapterEnv::default()
    };
    let mut entries: Vec<AdapterConfigEntry> = Vec::new();
    let first = migrate_env_adapters_to_toml(&mut entries, env_adapter_entries(&env, ports(), true).unwrap());
    assert_eq!(first, 1);
    let second = migrate_env_adapters_to_toml(&mut entries, env_adapter_entries(&env, ports(), true).unwrap());
    assert_eq!(second, 0);
    assert_eq!(entries.len(), 1);
    assert_eq!(entries[0].adapter_id, "cnc-line-a");
    assert_eq!(entries[0].host, "10.0.0.20");
    assert_eq!(entries[0].kind, AdapterKind::Cnc);
}

#[test]
fn migration_preserves_existing_adapters() {
    let mut entries = vec![AdapterConfigEntry {
        kind: AdapterKind::Robot,
        adapter_id: "robot-hand-added".to_string(),
        friendly_name: "Cell A".to_string(),
        host: "10.0.0.30".to_string(),
        port: 30004,
        device_name: None,
        model: Some("UR10e".to_string()),
    }];
    let env = AdapterEnv {
        zebra_enabled: Some("true".to_string()),
        zebra_printer_id: Some("lp-dispatch".to_string()),
        ..AdapterEnv::default()
    };
    let added = migrate_env_adapters_to_toml(&mut entries, env_adapter_entries(&env, ports(), true).unwrap());
    assert_eq!(added, 1);
    assert_eq!(entries.len(), 2);
    assert!(entries.iter().any(|e| e.adapter_id == "robot-hand-added"));
    assert!(entries.iter().any(|e| e.adapter_id == "lp-dispatch"));
}

#[test]
fn migration_leaves_a_listed_id_untouched_and_dedups_env_entries() {
    let mut entries = vec![cnc("cnc-a", "10.0.0.1")];
    let added = migrate_env_adapters_to_toml(
        &mut entries,
        vec![cnc("cnc-a", "10.9.9.9"), cnc("cnc-b", "10.0.0.2"), cnc("cnc-b", "10.0.0.3")],
    );
    assert_eq!(added, 1);
    assert_eq!(entries, vec![cnc("cnc-a", "10.0.0.1"), cnc("cnc-b", "10.0.0.2")]);
}

#[test]
fn checkpoint_kill_switch_and_debounce() {
    assert!(is_disabled(Some("1")));
    assert!(is_disabled(Some("TRUE")));
    assert!(is_disabled(Some("true")));
    assert!(!is_disabled(Some("yes")));
    assert!(!is_disabled(Some("0")));
    assert!(!is_disabled(None));
    assert_eq!(debounce_secs(None), DEFAULT_DEBOUNCE_SECS);
    assert_eq!(debounce_secs(Some("15")), 15);
    assert_eq!(debounce_secs(Some("0")), 60);
    assert_eq!(debounce_secs(Some("-5")), 60);
    assert_eq!(debounce_secs(Some("abc")), 60);
    assert_eq!(debounce_secs(Some(" 15")), 60);
}

#[test]
fn validation_surfaces_every_problem_at_once() {
    let errs = validate_profile_fields("  ", "nope", false, false, false).unwrap_err();
    let fields: Vec<_> = errs.iter().map(|e| e.field).collect();
    assert!(fields.contains(&"name"));
    assert!(fields.contains(&"customer_type"));
    assert!(fields.contains(&"gross_margin_pct"));
    assert!(fields.contains(&"min_margin_pct"));
    assert_eq!(errs[1].message, "Ismeretlen vevőtípus: \"nope\". / Unknown customer type.");
}

#[test]
fn profile_name_limit_counts_characters_after_trimming() {
    let ok_name = format!("  {}  ", "a".repeat(120));
    assert_eq!(validate_profile_fields(&ok_name, "defense", true, true, true), Ok(()));
    let long = "a".repeat(121);
    let errs = validate_profile_fields(&long, "defense", true, true, true).unwrap_err();
    assert_eq!(errs.len(), 1);
    assert_eq!(errs[0].field, "name");
    let wide = "é".repeat(120);
    assert_eq!(validate_profile_fields(&wide, "defense", true, true, true), Ok(()));
    let wider = "é".repeat(121);
    let errs = validate_profile_fields(&wider, "defense", true, true, true).unwrap_err();
    assert_eq!(errs.len(), 1);
    assert_eq!(errs[0].field, "name");
    assert!(default_enabled());
    assert_eq!(normalize_notes(&Some("  note ".to_string())), Some("note".to_string()));
    assert_eq!(normalize_notes(&Some("   ".to_string())), None);
    assert!(margin_profile_id(1).starts_with("mp_"));
}

#[test]
fn issuance_arithmetic_and_numbering() {
    assert_eq!(percent_to_basis_points(27), 2700);
    assert_eq!(percent_to_basis_points(655), 65500);
    assert_eq!(percent_to_basis_points(656), u16::MAX);
    assert_eq!(format_invoice_number("INV-default", 13), "INV-default/00013");
    assert_eq!(format_invoice_number("S", 123456), "S/123456");
    assert_eq!(invoice_gross_total(&vec![Some(100), Some(-30)]), Ok(70));
    assert_eq!(invoice_gross_total(&vec![]), Ok(0));
    assert_eq!(
        invoice_gross_total(&vec![Some(1), None, Some(i64::MAX)]),
        Err(GrossTotalError::LineOverflow)
    );
    assert_eq!(
        invoice_gross_total(&vec![Some(i64::MAX), Some(1), None]),
        Err(GrossTotalError::TotalOverflow)
    );
}

#[test]
fn rate_walkback_tries_each_day_of_the_window_once() {
    let mut offset = 0;
    let mut fetches = 0;
    loop {
        fetches += 1;
        match walkback_next(offset, MnbFetchOutcome::NoRateForCurrency) {
            WalkbackAction::TryOffset(next) => {
                assert_eq!(next, offset + 1);
                offset = next;
            }
            WalkbackAction::FailExhausted => break,
            other => panic!("unexpected {other:?}"),
        }
    }
    assert_eq!(fetches, MNB_WALKBACK_DAYS_CAP + 1);
    assert_eq!(walkback_next(3, MnbFetchOutcome::Rate), WalkbackAction::Finalize);
    assert_eq!(walkback_next(0, MnbFetchOutcome::OtherError), WalkbackAction::FailFetch);
}

#[test]
fn supplier_tax_number_guard() {
    let mut supplier = SupplierJson {
        tax_number: "12345678-2-42".to_string(),
        name: "Supplier Kft.".to_string(),
        address: AddressJson {
            country_code: "HU".to_string(),
            postal_code: "1051".to_string(),
            city: "Budapest".to_string(),
            street: "Fő utca 1.".to_string(),
        },
    };
    assert_eq!(validate_supplier_tax_number(&supplier), Ok(()));
    supplier.tax_number = "1234".to_string();
    let err = validate_supplier_tax_number(&supplier).unwrap_err();
    assert!(err.starts_with("supplier_config_invalid: "), "{err}");
    assert_eq!(
        supplier_config_error_message(&SupplierConfigError::MissingTaxNumber),
        "supplier_config_invalid: supplier tax number is missing"
    );
}

#[test]
fn debouncer_coalesces_a_burst_into_one_checkpoint() {
    let mut state = DebounceState::Idle;
    let mut started = 0;
    let events = [
        DebounceEvent::Triggered,
        DebounceEvent::Triggered,
        DebounceEvent::Triggered,
        DebounceEvent::WindowElapsed,
        DebounceEvent::CheckpointFinished,
    ];
    let mut last = DebounceAction::AwaitTrigger;
    for e in events {
        let (s, a) = debounce_step(state, e);
        if a == DebounceAction::RunCheckpoint {
            started += 1;
        }
        state = s;
        last = a;
    }
    assert_eq!(started, 1);
    assert_eq!(state, DebounceState::Idle);
    assert_eq!(last, DebounceAction::AwaitTrigger);
}

#[test]
fn debouncer_stops_on_shutdown_while_waiting_only() {
    assert_eq!(
        debounce_step(DebounceState::Idle, DebounceEvent::Cancelled).1,
        DebounceAction::Stop
    );
    assert_eq!(
        debounce_step(DebounceState::Coalescing, DebounceEvent::Cancelled).1,
        DebounceAction::Stop
    );
    assert_eq!(
        debounce_step(DebounceState::Checkpointing, DebounceEvent::Cancelled),
        (DebounceState::Checkpointing, DebounceAction::AwaitCheckpoint)
    );
    assert_eq!(
        debounce_step(DebounceState::Coalescing, DebounceEvent::WindowElapsed),
        (DebounceState::Checkpointing, DebounceAction::RunCheckpoint)
    );
}

#[test]
fn unknown_customer_type_is_quoted_with_escapes() {
    let errs = validate_profile_fields("P", "a\"b\\c\n", false, true, true).unwrap_err();
    assert_eq!(errs.len(), 1);
    assert_eq!(
        errs[0].message,
        "Ismeretlen vevőtípus: \"a\\\"b\\\\c\\n\". / Unknown customer type."
    );
}

#[test]
fn debounce_override_parses_like_std() {
    assert_eq!(debounce_secs(Some("+15")), 15);
    assert_eq!(debounce_secs(Some("007")), 7);
    assert_eq!(debounce_secs(Some("18446744073709551615")), u64::MAX);
    assert_eq!(debounce_secs(Some("18446744073709551616")), 60);
    assert_eq!(debounce_secs(Some("+")), 60);
    assert_eq!(debounce_secs(Some("")), 60);
    assert_eq!(debounce_secs(Some("1_0")), 60);
}

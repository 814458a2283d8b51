use aberp::issue_modification::{
    check_base_is_modifiable, modification_refusal_message,
    next_modification_index_for_modification,
};
use aberp::issue_storno::{
    check_base_is_finalized, find_base_nav_xml_path_for_chain, nav_xml_path_error_message,
    next_modification_index, saved_prior_modifications_for_chain, storno_refusal_message,
    ChainEvent, ChainRefusal, NavXmlPathError,
};

fn s(x: &str) -> String {
    x.to_string()
}

fn ack(id: &str, status: &str) -> ChainEvent {
    ChainEvent::AckStatus { invoice_id: s(id), ack_status: s(status) }
}

fn submitted(id: &str) -> ChainEvent {
    ChainEvent::SubmissionResponse { invoice_id: s(id) }
}

fn storno(own: &str, base: &str, idx: u32) -> ChainEvent {
    ChainEvent::StornoIssued {
        base_invoice_id: s(base),
        storno_invoice_id: s(own),
        modification_index: idx,
    }
}

fn modification(own: &str, base: &str, idx: u32) -> ChainEvent {
    ChainEvent::ModificationIssued {
        base_invoice_id: s(base),
        modification_invoice_id: s(own),
        modification_index: idx,
    }
}

fn draft(id: &str, path: Option<&str>) -> ChainEvent {
    ChainEvent::DraftCreated { invoice_id: s(id), nav_xml_path: path.map(s) }
}

/// Storno entries `(base, index, own ack)`, each followed by the storno's
/// own NAV ack.
fn storno_chain(entries: &[(&str, u32, &str)]) -> Vec<ChainEvent> {
    let mut out = Vec::new();
    for (i, (base, idx, status)) in entries.iter().enumerate() {
        let own = format!("inv_storno_{i}");
        out.push(storno(&own, base, *idx));
        out.push(ack(&own, status));
    }
    out
}

/// Mixed chain `(kind, base, index)`; every member's own ack is SAVED.
fn mixed_chain(entries: &[(&str, &str, u32)]) -> Vec<ChainEvent> {
    let mut out = Vec::new();
    for (i, (kind, base, idx)) in entries.iter().enumerate() {
        let own = match *kind {
            "S" => {
                let own = format!("inv_storno_{i}");
                out.push(storno(&own, base, *idx));
                own
            }
            "M" => {
                let own = format!("inv_modif_{i}");
                out.push(modification(&own, base, *idx));
                own
            }
            other => panic!("unknown kind_label {other}"),
        };
        out.push(ack(&own, "SAVED"));
    }
    out
}

// ── storno walker ────────────────────────────────────────────────────

#[test]
fn issue_storno_next_modification_index_starts_at_1_when_chain_is_empty() {
    assert_eq!(next_modification_index(&storno_chain(&[]), "inv_BASE"), 1);
}

#[test]
fn next_modification_index_increments_past_max_against_same_base() {
    let trail = storno_chain(&[("inv_BASE", 1, "SAVED"), ("inv_BASE", 2, "SAVED")]);
    assert_eq!(next_modification_index(&trail, "inv_BASE"), 3);
}

#[test]
fn next_modification_index_ignores_aborted_prior_storno() {
    let trail = storno_chain(&[("inv_BASE", 1, "ABORTED")]);
    assert_eq!(next_modification_index(&trail, "inv_BASE"), 1);
}

#[test]
fn next_modification_index_counts_saved_skips_aborted_mix() {
    let trail = storno_chain(&[("inv_BASE", 1, "SAVED"), ("inv_BASE", 2, "ABORTED")]);
    assert_eq!(next_modification_index(&trail, "inv_BASE"), 2);
}

#[test]
fn issue_storno_next_modification_index_ignores_unrelated_base() {
    let trail = storno_chain(&[
        ("inv_OTHER", 1, "SAVED"),
        ("inv_OTHER", 2, "SAVED"),
        ("inv_OTHER", 3, "SAVED"),
    ]);
    assert_eq!(next_modification_index(&trail, "inv_BASE"), 1);
}

#[test]
fn next_modification_index_skips_gaps_uses_max_plus_one() {
    let trail = storno_chain(&[("inv_BASE", 1, "SAVED"), ("inv_BASE", 3, "SAVED")]);
    assert_eq!(next_modification_index(&trail, "inv_BASE"), 4);
}

#[test]
fn next_modification_index_for_storno_sees_prior_modify_entries() {
    let trail = vec![modification("inv_modif_0", "inv_BASE", 1), ack("inv_modif_0", "SAVED")];
    assert_eq!(next_modification_index(&trail, "inv_BASE"), 2);
}

#[test]
fn next_modification_index_saturates_at_the_top_of_the_range() {
    let trail = storno_chain(&[("inv_BASE", u32::MAX, "SAVED")]);
    assert_eq!(next_modification_index(&trail, "inv_BASE"), u32::MAX);
}

#[test]
fn check_base_is_finalized_accepts_saved_ack() {
    let trail = vec![submitted("inv_A"), ack("inv_A", "SAVED")];
    check_base_is_finalized(&trail, "inv_A").expect("SAVED base must be accepted");
}

#[test]
fn check_base_is_finalized_rejects_never_submitted() {
    let err = check_base_is_finalized(&Vec::new(), "inv_A").unwrap_err();
    let msg = storno_refusal_message("inv_A", &err);
    assert!(msg.contains("no NAV submission response"), "got {msg}");
}

#[test]
fn check_base_is_finalized_rejects_aborted() {
    let trail = vec![submitted("inv_A"), ack("inv_A", "ABORTED")];
    let err = check_base_is_finalized(&trail, "inv_A").unwrap_err();
    let msg = storno_refusal_message("inv_A", &err);
    assert!(msg.contains("REJECTED"), "got {msg}");
}

#[test]
fn check_base_is_finalized_rejects_abandoned_even_after_saved() {
    let trail = vec![
        submitted("inv_A"),
        ack("inv_A", "SAVED"),
        ChainEvent::MarkedAbandoned { invoice_id: s("inv_A") },
    ];
    let err = check_base_is_finalized(&trail, "inv_A").unwrap_err();
    let msg = storno_refusal_message("inv_A", &err);
    assert!(msg.contains("ABANDONED"), "got {msg}");
}

#[test]
fn check_base_is_finalized_does_not_cross_invoice_ids() {
    let trail = vec![submitted("inv_B"), ack("inv_B", "SAVED")];
    let err = check_base_is_finalized(&trail, "inv_A").unwrap_err();
    let msg = storno_refusal_message("inv_A", &err);
    assert!(msg.contains("no NAV submission response"), "got {msg}");
}

#[test]
fn check_base_is_finalized_reports_stuck_and_awaiting_ack() {
    let stuck = vec![submitted("inv_A"), ack("inv_A", "PROCESSING")];
    let err = check_base_is_finalized(&stuck, "inv_A").unwrap_err();
    assert_eq!(err, ChainRefusal::Stuck { last_ack: s("PROCESSING") });
    assert!(storno_refusal_message("inv_A", &err).contains("STUCK (last ack: PROCESSING)"));
    let waiting = vec![submitted("inv_A")];
    assert_eq!(check_base_is_finalized(&waiting, "inv_A"), Err(ChainRefusal::AwaitingAck));
    // The newest ack wins.
    let recovered = vec![submitted("inv_A"), ack("inv_A", "PROCESSING"), ack("inv_A", "SAVED")];
    assert_eq!(check_base_is_finalized(&recovered, "inv_A"), Ok(()));
}

#[test]
fn find_base_nav_xml_path_for_chain_returns_recorded_path() {
    let base_path = "/Users/aben/.aberp/test/issued/base42.xml";
    let trail = vec![
        draft("inv_other", Some("/decoy/should/not/match.xml")),
        draft("inv_A", Some(base_path)),
    ];
    let resolved = find_base_nav_xml_path_for_chain(&trail, "inv_A")
        .expect("base id with InvoiceDraftCreated must resolve");
    assert_eq!(resolved, base_path);
}

#[test]
fn find_base_nav_xml_path_for_chain_loud_fails_when_no_draft() {
    let err = find_base_nav_xml_path_for_chain(&Vec::new(), "inv_missing")
        .expect_err("missing draft MUST loud-fail");
    let msg = nav_xml_path_error_message("inv_missing", err);
    assert!(
        msg.contains("InvoiceDraftCreated") && msg.contains("inv_missing"),
        "error must name the missing draft + the id: {msg}"
    );
}

#[test]
fn find_base_nav_xml_path_prefers_newest_draft_and_reports_pathless_draft() {
    let trail = vec![draft("inv_A", Some("/old.xml")), draft("inv_A", None)];
    assert_eq!(
        find_base_nav_xml_path_for_chain(&trail, "inv_A"),
        Err(NavXmlPathError::DraftWithoutPath)
    );
    let trail = vec![draft("inv_A", None), draft("inv_A", Some("/new.xml"))];
    assert_eq!(find_base_nav_xml_path_for_chain(&trail, "inv_A"), Ok(s("/new.xml")));
}

#[test]
fn saved_prior_modification_lines_folds_saved_excludes_aborted() {
    let trail = vec![
        draft("inv_mod_saved", Some("/scratch/mod_saved.xml")),
        draft("inv_mod_aborted", Some("/scratch/mod_aborted.xml")),
        modification("inv_mod_saved", "inv_BASE", 1),
        modification("inv_mod_aborted", "inv_BASE", 2),
        ack("inv_mod_saved", "SAVED"),
        ack("inv_mod_aborted", "ABORTED"),
    ];
    let folded = saved_prior_modifications_for_chain(&trail, "inv_BASE");
    assert_eq!(folded.len(), 1, "only the SAVED modification is folded, got {folded:?}");
    assert_eq!(folded[0].invoice_id, "inv_mod_saved");
    assert_eq!(folded[0].modification_index, 1);
    assert!(folded.iter().all(|m| m.invoice_id != "inv_mod_aborted"));
}

#[test]
fn saved_prior_modification_lines_empty_when_no_saved_modifications() {
    assert!(saved_prior_modifications_for_chain(&Vec::new(), "inv_BASE").is_empty());
}

#[test]
fn saved_prior_modifications_come_in_index_order_with_stable_ties() {
    let trail = vec![
        modification("inv_m3", "inv_BASE", 3),
        modification("inv_m1", "inv_BASE", 1),
        modification("inv_m2a", "inv_BASE", 2),
        modification("inv_other", "inv_OTHER", 1),
        modification("inv_m2b", "inv_BASE", 2),
        ack("inv_m3", "SAVED"),
        ack("inv_m1", "SAVED"),
        ack("inv_m2a", "SAVED"),
        ack("inv_m2b", "SAVED"),
        ack("inv_other", "SAVED"),
    ];
    let ids: Vec<String> = saved_prior_modifications_for_chain(&trail, "inv_BASE")
        .into_iter()
        .map(|m| m.invoice_id)
        .collect();
    assert_eq!(ids, vec!["inv_m1", "inv_m2a", "inv_m2b", "inv_m3"]);
}

// ── modification walker ──────────────────────────────────────────────

#[test]
fn issue_modification_next_modification_index_starts_at_1_when_chain_is_empty() {
    assert_eq!(next_modification_index_for_modification(&mixed_chain(&[]), "inv_BASE"), 1);
}

#[test]
fn next_modification_index_increments_past_modify_only_chain() {
    let trail = mixed_chain(&[("M", "inv_BASE", 1)]);
    assert_eq!(next_modification_index_for_modification(&trail, "inv_BASE"), 2);
}

#[test]
fn next_modification_index_unions_storno_and_modify_against_same_base() {
    let trail = mixed_chain(&[("S", "inv_BASE", 1), ("M", "inv_BASE", 2)]);
    assert_eq!(next_modification_index_for_modification(&trail, "inv_BASE"), 3);
}

#[test]
fn issue_modification_next_modification_index_ignores_unrelated_base() {
    let trail = mixed_chain(&[("S", "inv_OTHER", 1), ("M", "inv_OTHER", 2), ("M", "inv_OTHER", 3)]);
    assert_eq!(next_modification_index_for_modification(&trail, "inv_BASE"), 1);
}

#[test]
fn next_modification_index_ignores_aborted_prior_modify() {
    let trail = vec![
        modification("inv_modif_aborted", "inv_BASE", 1),
        ack("inv_modif_aborted", "ABORTED"),
    ];
    assert_eq!(next_modification_index_for_modification(&trail, "inv_BASE"), 1);
}

#[test]
fn check_base_is_modifiable_accepts_saved_ack() {
    let trail = vec![submitted("inv_A"), ack("inv_A", "SAVED")];
    check_base_is_modifiable(&trail, "inv_A").expect("Finalized base must be modifiable");
}

#[test]
fn check_base_is_modifiable_accepts_already_amended_base() {
    let trail = vec![
        submitted("inv_A"),
        ack("inv_A", "SAVED"),
        modification("inv_M1", "inv_A", 1),
    ];
    check_base_is_modifiable(&trail, "inv_A")
        .expect("Amended base (prior MODIFY) must remain modifiable");
}

#[test]
fn amended_base_without_ack_is_modifiable() {
    let trail = vec![submitted("inv_A"), modification("inv_M1", "inv_A", 1)];
    assert_eq!(check_base_is_modifiable(&trail, "inv_A"), Ok(()));
    let no_mod = vec![submitted("inv_A")];
    let err = check_base_is_modifiable(&no_mod, "inv_A").unwrap_err();
    assert!(modification_refusal_message("inv_A", &err).contains("no prior modification"));
}

#[test]
fn check_base_is_modifiable_rejects_stornoed_base() {
    let trail = vec![
        submitted("inv_A"),
        ack("inv_A", "SAVED"),
        storno("inv_S1", "inv_A", 1),
    ];
    let err = check_base_is_modifiable(&trail, "inv_A").unwrap_err();
    let msg = modification_refusal_message("inv_A", &err);
    assert!(msg.contains("legally cancelled by a storno"), "got {msg}");
}

#[test]
fn check_base_is_modifiable_rejects_never_submitted() {
    let err = check_base_is_modifiable(&Vec::new(), "inv_A").unwrap_err();
    let msg = modification_refusal_message("inv_A", &err);
    assert!(msg.contains("no NAV submission response"), "got {msg}");
}

#[test]
fn check_base_is_modifiable_rejects_aborted() {
    let trail = vec![submitted("inv_A"), ack("inv_A", "ABORTED")];
    let err = check_base_is_modifiable(&trail, "inv_A").unwrap_err();
    let msg = modification_refusal_message("inv_A", &err);
    assert!(msg.contains("REJECTED"), "got {msg}");
}

#[test]
fn check_base_is_modifiable_rejects_abandoned() {
    let trail = vec![submitted("inv_A"), ChainEvent::MarkedAbandoned { invoice_id: s("inv_A") }];
    let err = check_base_is_modifiable(&trail, "inv_A").unwrap_err();
    let msg = modification_refusal_message("inv_A", &err);
    assert!(msg.contains("ABANDONED"), "got {msg}");
}

#[test]
fn check_base_is_modifiable_does_not_cross_invoice_ids() {
    let trail = vec![submitted("inv_B"), ack("inv_B", "SAVED")];
    let err = check_base_is_modifiable(&trail, "inv_A").unwrap_err();
    let msg = modification_refusal_message("inv_A", &err);
    assert!(msg.contains("no NAV submission response"), "got {msg}");
}

#[test]
fn refusal_messages_are_exact() {
    assert_eq!(
        storno_refusal_message("inv_A", &ChainRefusal::Rejected),
        "base invoice inv_A was REJECTED by NAV (last ack: ABORTED) — a storno is only valid against a SAVED (finalized) invoice; issue a corrective new invoice instead"
    );
    assert_eq!(
        modification_refusal_message("inv_A", &ChainRefusal::Stornoed),
        "base invoice inv_A has been legally cancelled by a storno — a modification against a stornoed base is malformed; issue a fresh corrective new invoice instead (ADR-0024 §6)"
    );
}

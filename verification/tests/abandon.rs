use aberp::issue_storno::ChainEvent;
use aberp::mark_abandoned::{
    abandon_summary, latest_check_outcome, no_operator_message, operator_user, StuckStage,
};

#[test]
fn operator_user_prefers_user_then_logname() {
    assert_eq!(operator_user(Some("anna"), Some("bela")), Some("anna".to_string()));
    assert_eq!(operator_user(None, Some("bela")), Some("bela".to_string()));
    assert_eq!(operator_user(None, None), None);
    // A set-but-empty USER is not skipped in favour of LOGNAME: it is refused.
    assert_eq!(operator_user(Some(""), Some("bela")), None);
    assert_eq!(operator_user(None, Some("")), None);
}

#[test]
fn no_operator_message_is_exact() {
    assert_eq!(
        no_operator_message(),
        "neither USER nor LOGNAME is set in the environment — cannot derive an Actor.user_id \
         for the audit ledger; mark-abandoned writes a terminal operator decision and must \
         record who made it"
    );
}

#[test]
fn abandon_summary_with_prior_transaction() {
    assert_eq!(
        abandon_summary(StuckStage::AwaitingAck, "inv_01HX", 42, Some("TX9"), None, 17),
        "mark-abandoned OK (state-3 AwaitingAck): invoice inv_01HX (seq 42) marked ABANDONED \
         (prior txid TX9, prior last ack <none>) — sequence not reused; audit chain verified \
         across 17 entries; issue a corrective new invoice if the business transaction still \
         needs reporting"
    );
    assert_eq!(
        abandon_summary(StuckStage::AwaitingAck, "inv_01HX", 7, Some("TX9"), Some("PROCESSING"), 3),
        "mark-abandoned OK (state-3 AwaitingAck): invoice inv_01HX (seq 7) marked ABANDONED \
         (prior txid TX9, prior last ack PROCESSING) — sequence not reused; audit chain verified \
         across 3 entries; issue a corrective new invoice if the business transaction still \
         needs reporting"
    );
}

#[test]
fn abandon_summary_without_prior_transaction() {
    assert_eq!(
        abandon_summary(StuckStage::Pending, "inv_01HY", 5, None, None, 9),
        "mark-abandoned OK (state-2 Pending): invoice inv_01HY (seq 5) marked ABANDONED \
         (no prior NAV transactionId — state-2 Pending) — sequence not reused; audit chain \
         verified across 9 entries; NOTE the prior Attempt's submission may or may not have \
         reached NAV (Layer-2 queryInvoiceCheck per ADR-0009 §5 / ADR-0032 §\"Open questions\" \
         F44 is named-deferred — until it lands, the NAV-side fate is unknown)"
    );
}

#[test]
fn latest_check_outcome_reads_the_newest_check_of_the_invoice() {
    let check = |id: &str, outcome: &str| ChainEvent::CheckPerformed {
        invoice_id: id.to_string(),
        outcome: outcome.to_string(),
    };
    let trail = vec![
        check("inv_A", "exists"),
        check("inv_B", "missing"),
        ChainEvent::Other,
        check("inv_A", "missing"),
        ChainEvent::SubmissionResponse { invoice_id: "inv_A".to_string() },
    ];
    assert_eq!(latest_check_outcome(&trail, "inv_A"), Some("missing".to_string()));
    assert_eq!(latest_check_outcome(&trail, "inv_B"), Some("missing".to_string()));
    assert_eq!(latest_check_outcome(&trail, "inv_C"), None);
    assert_eq!(latest_check_outcome(&vec![], "inv_A"), None);
}

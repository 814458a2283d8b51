//! Operator decision to abandon a stuck invoice: the reason rule, the
//! guard against abandoning what NAV already holds, and the audit reason
//! text.

use vstd::prelude::*;
use crate::issue_storno::{facts, lemma_facts_prefix, opt_view, ChainEvent, ChainFact};
use crate::text::{
    is_blank, is_blank_spec, nat_to_decimal, str_eq, trim, trim_to_string, u64_to_decimal,
};

verus! {

/// Marker appended to the audit reason when the NAV-side guard was
/// overridden.
pub const FORCED_MARKER: &'static str = "[forced-despite-nav-side-exists]";

pub open spec fn effective_reason_spec(reason: Seq<char>, forced: bool) -> Seq<char> {
    if forced {
        reason + " "@ + FORCED_MARKER@
    } else {
        reason
    }
}

/// The audit-payload reason: the operator's reason verbatim, followed by
/// ` [forced-despite-nav-side-exists]` when the guard was overridden.
pub fn effective_reason_for_audit(reason: &str, forced_marker_active: bool) -> (r: String)
    ensures
        r@ == effective_reason_spec(reason@, forced_marker_active),
{
    let mut s = String::from_str(reason);
    if forced_marker_active {
        s.append(" ");
        s.append(FORCED_MARKER);
    }
    s
}

pub open spec fn reason_required_text() -> Seq<char> {
    "--reason is required for mark-abandoned per ADR-0009 §5 (terminal operator decision must carry a human-readable justification)"@
}

/// The trimmed reason; a blank reason is refused (abandonment is a
/// terminal decision that must carry a justification).
pub fn abandon_reason(reason: &str) -> (r: Result<String, String>)
    ensures
        is_blank_spec(reason@) ==> (r matches Err(m) && m@ == reason_required_text()),
        !is_blank_spec(reason@) ==> (r matches Ok(t) && t@ == trim(reason@)),
{
    if is_blank(reason) {
        Err(String::from_str(
            "--reason is required for mark-abandoned per ADR-0009 §5 (terminal operator decision must carry a human-readable justification)",
        ))
    } else {
        Ok(trim_to_string(reason))
    }
}

pub open spec fn nav_exists_refusal_text(id: Seq<char>) -> Seq<char> {
    "F49 guard: mark-abandoned REFUSED for invoice "@ + id
        + ": the most-recent InvoiceCheckPerformed audit entry has outcome=\"exists\" — NAV already has the invoice (Layer-2 queryInvoiceCheck per ADR-0033 §1). Abandoning locally would silently diverge ABERP's terminal-abandoned state from NAV's accepted-submission state. Run `aberp recover-from-nav --invoice-id "@
        + id
        + " --tax-number ... --endpoint {test|production}` (PR-21 / ADR-0034) to reconstruct the local InvoiceSubmissionResponse from NAV's queryInvoiceData, then `aberp poll-ack` to drive the terminal state via queryTransactionStatus. If the divergence is intentional (e.g., the NAV-side record will be technically annulled separately and the operator wants to terminate the local chain now), re-run with --force-despite-nav-exists — the resulting audit entry's reason field will carry a [forced-despite-nav-side-exists] marker."@
}

/// The NAV-side guard: when the newest recorded NAV existence check says
/// `exists`, abandonment is refused unless forced. On success, tells
/// whether the forced marker must be appended to the audit reason.
pub fn nav_exists_guard(invoice_id: &str, latest_check_outcome: Option<&str>, force: bool) -> (r: Result<bool, String>)
    ensures
        ({
            let exists = latest_check_outcome matches Some(o) && o@ == "exists"@;
            if exists && !force {
                r matches Err(m) && m@ == nav_exists_refusal_text(invoice_id@)
            } else {
                r == Ok::<bool, String>(exists && force)
            }
        }),
{
    let exists = match latest_check_outcome {
        Some(o) => str_eq(o, "exists"),
        None => false,
    };
    if exists && !force {
        let mut m = String::from_str("F49 guard: mark-abandoned REFUSED for invoice ");
        m.append(invoice_id);
        m.append(
            ": the most-recent InvoiceCheckPerformed audit entry has outcome=\"exists\" — NAV already has the invoice (Layer-2 queryInvoiceCheck per ADR-0033 §1). Abandoning locally would silently diverge ABERP's terminal-abandoned state from NAV's accepted-submission state. Run `aberp recover-from-nav --invoice-id ",
        );
        m.append(invoice_id);
        m.append(
            " --tax-number ... --endpoint {test|production}` (PR-21 / ADR-0034) to reconstruct the local InvoiceSubmissionResponse from NAV's queryInvoiceData, then `aberp poll-ack` to drive the terminal state via queryTransactionStatus. If the divergence is intentional (e.g., the NAV-side record will be technically annulled separately and the operator wants to terminate the local chain now), re-run with --force-despite-nav-exists — the resulting audit entry's reason field will carry a [forced-despite-nav-side-exists] marker.",
        );
        return Err(m);
    }
    Ok(exists && force)
}

/// Outcome of the newest NAV existence check recorded for `id`, if any.
pub open spec fn latest_check_spec(f: Seq<ChainFact>, id: Seq<char>) -> Option<Seq<char>>
    decreases f.len(),
{
    if f.len() == 0 {
        None
    } else {
        match f.last() {
            ChainFact::CheckPerformed { invoice_id, outcome } => if invoice_id == id {
                Some(outcome)
            } else {
                latest_check_spec(f.drop_last(), id)
            },
            _ => latest_check_spec(f.drop_last(), id),
        }
    }
}

/// The outcome of the newest `InvoiceCheckPerformed` entry for the invoice
/// in the audit trail (oldest entry first), walking newest to oldest.
pub fn latest_check_outcome(entries: &Vec<ChainEvent>, invoice_id: &str) -> (r: Option<String>)
    ensures
        opt_view(r) == latest_check_spec(facts(entries@), invoice_id@),
{
    let mut j: usize = entries.len();
    assert(entries@.subrange(0, j as int) =~= entries@);
    while j > 0
        invariant
            j <= entries.len(),
            latest_check_spec(facts(entries@), invoice_id@) == latest_check_spec(
                facts(entries@.subrange(0, j as int)),
                invoice_id@,
            ),
        decreases j,
    {
        proof {
            lemma_facts_prefix(entries@, (j - 1) as int);
        }
        if let ChainEvent::CheckPerformed { invoice_id: id, outcome } = &entries[j - 1] {
            if str_eq(id.as_str(), invoice_id) {
                return Some(outcome.clone());
            }
        }
        j = j - 1;
    }
    proof {
        assert(facts(entries@.subrange(0, 0)).len() == 0);
    }
    None
}

/// Who runs the command, from the `USER` and `LOGNAME` variables (each
/// `None` when unset): `USER` when it is set, else `LOGNAME`; an empty
/// name is refused, since the audit entry must record who decided.
pub fn operator_user(user: Option<&str>, logname: Option<&str>) -> (r: Option<String>)
    ensures
        ({
            let chosen = match user {
                Some(u) => Some(u@),
                None => match logname {
                    Some(l) => Some(l@),
                    None => None::<Seq<char>>,
                },
            };
            match chosen {
                Some(c) => if c.len() > 0 {
                    r matches Some(n) && n@ == c
                } else {
                    r is None
                },
                None => r is None,
            }
        }),
{
    let chosen = match user {
        Some(u) => Some(u),
        None => logname,
    };
    match chosen {
        Some(c) => if c.unicode_len() > 0 {
            Some(String::from_str(c))
        } else {
            None
        },
        None => None,
    }
}

pub open spec fn no_operator_text() -> Seq<char> {
    "neither USER nor LOGNAME is set in the environment — cannot derive an Actor.user_id for the audit ledger; mark-abandoned writes a terminal operator decision and must record who made it"@
}

/// The loud-fail text when no operator name can be derived.
pub fn no_operator_message() -> (r: String)
    ensures
        r@ == no_operator_text(),
{
    String::from_str(
        "neither USER nor LOGNAME is set in the environment — cannot derive an Actor.user_id for the audit ledger; mark-abandoned writes a terminal operator decision and must record who made it",
    )
}

/// Where in the submission pipeline the invoice got stuck.
#[derive(Clone, Copy, Debug, PartialEq, Eq, Structural)]
pub enum StuckStage {
    /// No NAV transaction id was recorded: the attempt broke before NAV
    /// answered.
    Pending,
    /// NAV answered with a transaction id; no terminal ack followed.
    AwaitingAck,
}

pub open spec fn stage_label(stage: StuckStage) -> Seq<char> {
    match stage {
        StuckStage::Pending => "state-2 Pending"@,
        StuckStage::AwaitingAck => "state-3 AwaitingAck"@,
    }
}

pub open spec fn abandon_summary_text(
    stage: StuckStage,
    invoice_id: Seq<char>,
    seq: nat,
    prior_txid: Option<Seq<char>>,
    prior_last_ack: Option<Seq<char>>,
    verified: nat,
) -> Seq<char> {
    let head = "mark-abandoned OK ("@ + stage_label(stage) + "): invoice "@ + invoice_id
        + " (seq "@ + nat_to_decimal(seq) + ") marked ABANDONED "@;
    match prior_txid {
        Some(txid) => head + "(prior txid "@ + txid + ", prior last ack "@ + (match prior_last_ack {
            Some(a) => a,
            None => "<none>"@,
        }) + ") — sequence not reused; audit chain verified across "@ + nat_to_decimal(verified)
            + " entries; issue a corrective new invoice if the business transaction still needs reporting"@,
        None => head
            + "(no prior NAV transactionId — state-2 Pending) — sequence not reused; audit chain verified across "@
            + nat_to_decimal(verified)
            + " entries; NOTE the prior Attempt's submission may or may not have reached NAV (Layer-2 queryInvoiceCheck per ADR-0009 §5 / ADR-0032 §\"Open questions\" F44 is named-deferred — until it lands, the NAV-side fate is unknown)"@,
    }
}

/// The operator-facing success line of an abandonment: with the prior NAV
/// transaction id and last ack when NAV answered, or the state-2 note that
/// NAV's side of the attempt is unknown.
pub fn abandon_summary(
    stage: StuckStage,
    invoice_id: &str,
    seq: u64,
    prior_txid: Option<&str>,
    prior_last_ack: Option<&str>,
    verified: u64,
) -> (r: String)
    ensures
        r@ == abandon_summary_text(
            stage,
            invoice_id@,
            seq as nat,
            match prior_txid {
                Some(t) => Some(t@),
                None => None,
            },
            match prior_last_ack {
                Some(a) => Some(a@),
                None => None,
            },
            verified as nat,
        ),
{
    let mut s = String::from_str("mark-abandoned OK (");
    match stage {
        StuckStage::Pending => s.append("state-2 Pending"),
        StuckStage::AwaitingAck => s.append("state-3 AwaitingAck"),
    }
    s.append("): invoice ");
    s.append(invoice_id);
    s.append(" (seq ");
    let seq_text = u64_to_decimal(seq);
    s.append(seq_text.as_str());
    s.append(") marked ABANDONED ");
    let verified_text = u64_to_decimal(verified);
    match prior_txid {
        Some(txid) => {
            s.append("(prior txid ");
            s.append(txid);
            s.append(", prior last ack ");
            match prior_last_ack {
                Some(a) => s.append(a),
                None => s.append("<none>"),
            }
            s.append(") — sequence not reused; audit chain verified across ");
            s.append(verified_text.as_str());
            s.append(
                " entries; issue a corrective new invoice if the business transaction still needs reporting",
            );
        },
        None => {
            s.append(
                "(no prior NAV transactionId — state-2 Pending) — sequence not reused; audit chain verified across ",
            );
            s.append(verified_text.as_str());
            s.append(
                " entries; NOTE the prior Attempt's submission may or may not have reached NAV (Layer-2 queryInvoiceCheck per ADR-0009 §5 / ADR-0032 §\"Open questions\" F44 is named-deferred — until it lands, the NAV-side fate is unknown)",
            );
        },
    }
    s
}

/// The marker is appended exactly when the guard was overridden, and the
/// operator's reason always survives as a prefix.
pub proof fn lemma_reason_preserved(reason: Seq<char>, forced: bool)
    ensures
        effective_reason_spec(reason, forced).subrange(0, reason.len() as int) == reason,
        !forced ==> effective_reason_spec(reason, forced) == reason,
        forced ==> effective_reason_spec(reason, forced).len() > reason.len(),
{
    reveal_strlit(" ");
    assert(effective_reason_spec(reason, forced).subrange(0, reason.len() as int) =~= reason);
}

} // verus!

//! Invoice drafts staged from a dispatch or a quote pickup: the input
//! rules, the draft row and its audit payloads.

use vstd::prelude::*;
use crate::incoming_invoices::{prefixed_ulid_string, ulid_text};
use crate::text::{is_blank, is_blank_spec};

verus! {

/// One stored draft.
#[derive(Clone, Debug, PartialEq, Eq)]
pub struct InvoiceDraft {
    pub drf_id: String,
    pub tenant_id: String,
    pub partner_id: String,
    pub source_dispatch_id: Option<String>,
    pub source_wo_id: Option<String>,
    pub source_quote_id: Option<String>,
    pub product_id: String,
    pub qty: String,
    pub notes: Option<String>,
    pub created_at: String,
}

/// Audit payload of a staged draft.
#[derive(Clone, Debug, PartialEq, Eq)]
pub struct InvoiceStagedPayload {
    pub draft_id: String,
    pub tenant_id: String,
    pub partner_id: String,
    pub source_dispatch_id: Option<String>,
    pub source_wo_id: Option<String>,
    pub source_quote_id: Option<String>,
    pub product_id: String,
    pub qty: String,
    pub actor: String,
    pub idempotency_key: String,
}

/// Audit payload of a deleted draft.
#[derive(Clone, Debug, PartialEq, Eq)]
pub struct InvoiceDraftDeletedPayload {
    pub draft_id: String,
    pub tenant_id: String,
    pub partner_id: String,
    pub source_dispatch_id: Option<String>,
    pub source_wo_id: Option<String>,
    pub source_quote_id: Option<String>,
    pub actor: String,
    pub idempotency_key: String,
    pub deleted_at: String,
}

/// Inputs of a draft creation.
#[derive(Debug)]
pub struct CreateDraftInputs {
    pub tenant: String,
    pub partner_id: String,
    pub source_dispatch_id: Option<String>,
    pub source_wo_id: Option<String>,
    pub source_quote_id: Option<String>,
    pub product_id: String,
    pub qty: rust_decimal::Decimal,
    pub notes: Option<String>,
    pub actor: String,
    pub idempotency_key: String,
}

/// Inputs of a draft deletion.
#[derive(Clone, Debug, PartialEq, Eq)]
pub struct DeleteDraftInputs {
    pub tenant: String,
    pub drf_id: String,
    pub actor: String,
}

/// Outcome of a draft deletion.
#[derive(Clone, Copy, Debug, PartialEq, Eq, Structural)]
pub struct DeleteDraftOutcome {
    pub deleted: bool,
    pub dispatch_pointers_cleared: usize,
}

/// The draft row that a deletion removes, as read before the delete.
#[derive(Clone, Debug, PartialEq, Eq)]
pub struct DraftSources {
    pub partner_id: String,
    pub source_dispatch_id: Option<String>,
    pub source_wo_id: Option<String>,
    pub source_quote_id: Option<String>,
}

/// The text `Decimal`'s `Display` renders for a value under the default
/// formatter (no precision requested).
pub uninterp spec fn decimal_display(d: rust_decimal::Decimal) -> Seq<char>;

/// `rust_decimal::Decimal::to_string`, a function of the value alone.
#[verifier::external_body]
fn decimal_text(d: &rust_decimal::Decimal) -> (r: String)
    ensures
        r@ == decimal_display(*d),
{
    d.to_string()
}

pub open spec fn create_problem(idempotency_key: Seq<char>, partner_id: Seq<char>, product_id: Seq<char>) -> Option<Seq<char>> {
    if is_blank_spec(idempotency_key) {
        Some("idempotency_key must be non-empty"@)
    } else if is_blank_spec(partner_id) {
        Some("partner_id must be non-empty"@)
    } else if is_blank_spec(product_id) {
        Some("product_id must be non-empty"@)
    } else {
        None
    }
}

/// `drf_<ULID>`.
pub fn draft_id(v: u128) -> (r: String)
    ensures
        r@ == "drf_"@ + ulid_text(v),
{
    prefixed_ulid_string("drf_", v)
}

pub open spec fn opt_eq(a: Option<String>, b: Option<String>) -> bool {
    match (a, b) {
        (Some(x), Some(y)) => x@ == y@,
        (None, None) => true,
        _ => false,
    }
}

fn clone_opt(o: &Option<String>) -> (r: Option<String>)
    ensures
        opt_eq(r, *o),
{
    match o {
        Some(s) => Some(s.clone()),
        None => None,
    }
}

/// Stage a draft: refuse blank idempotency key, partner or product (in that
/// order); otherwise the draft row and its audit payload, both carrying the
/// request's fields, the given id / timestamp, and the same quantity text.
pub fn stage_draft(inputs: &CreateDraftInputs, drf_id: &str, created_at: &str) -> (r: Result<(InvoiceDraft, InvoiceStagedPayload), String>)
    ensures
        match create_problem(inputs.idempotency_key@, inputs.partner_id@, inputs.product_id@) {
            Some(m) => r matches Err(e) && e@ == m,
            None => r matches Ok((d, p)) && {
                &&& d.drf_id@ == drf_id@ && p.draft_id@ == drf_id@
                &&& d.tenant_id@ == inputs.tenant@ && p.tenant_id@ == inputs.tenant@
                &&& d.partner_id@ == inputs.partner_id@ && p.partner_id@ == inputs.partner_id@
                &&& opt_eq(d.source_dispatch_id, inputs.source_dispatch_id)
                &&& opt_eq(p.source_dispatch_id, inputs.source_dispatch_id)
                &&& opt_eq(d.source_wo_id, inputs.source_wo_id) && opt_eq(p.source_wo_id, inputs.source_wo_id)
                &&& opt_eq(d.source_quote_id, inputs.source_quote_id)
                &&& opt_eq(p.source_quote_id, inputs.source_quote_id)
                &&& d.product_id@ == inputs.product_id@ && p.product_id@ == inputs.product_id@
                &&& d.qty@ == decimal_display(inputs.qty) && p.qty@ == decimal_display(inputs.qty)
                &&& opt_eq(d.notes, inputs.notes)
                &&& d.created_at@ == created_at@
                &&& p.actor@ == inputs.actor@
                &&& p.idempotency_key@ == inputs.idempotency_key@
            },
        },
{
    if is_blank(inputs.idempotency_key.as_str()) {
        return Err(String::from_str("idempotency_key must be non-empty"));
    }
    if is_blank(inputs.partner_id.as_str()) {
        return Err(String::from_str("partner_id must be non-empty"));
    }
    if is_blank(inputs.product_id.as_str()) {
        return Err(String::from_str("product_id must be non-empty"));
    }
    let qty = decimal_text(&inputs.qty);
    let payload = InvoiceStagedPayload {
        draft_id: String::from_str(drf_id),
        tenant_id: inputs.tenant.clone(),
        partner_id: inputs.partner_id.clone(),
        source_dispatch_id: clone_opt(&inputs.source_dispatch_id),
        source_wo_id: clone_opt(&inputs.source_wo_id),
        source_quote_id: clone_opt(&inputs.source_quote_id),
        product_id: inputs.product_id.clone(),
        qty: qty.clone(),
        actor: inputs.actor.clone(),
        idempotency_key: inputs.idempotency_key.clone(),
    };
    let draft = InvoiceDraft {
        drf_id: String::from_str(drf_id),
        tenant_id: inputs.tenant.clone(),
        partner_id: inputs.partner_id.clone(),
        source_dispatch_id: clone_opt(&inputs.source_dispatch_id),
        source_wo_id: clone_opt(&inputs.source_wo_id),
        source_quote_id: clone_opt(&inputs.source_quote_id),
        product_id: inputs.product_id.clone(),
        qty,
        notes: clone_opt(&inputs.notes),
        created_at: String::from_str(created_at),
    };
    Ok((draft, payload))
}

pub open spec fn delete_problem(drf_id: Seq<char>, tenant: Seq<char>) -> Option<Seq<char>> {
    if is_blank_spec(drf_id) {
        Some("drf_id must be non-empty"@)
    } else if is_blank_spec(tenant) {
        Some("tenant must be non-empty"@)
    } else {
        None
    }
}

/// A deletion needs a draft id and a tenant.
pub fn validate_delete_draft_inputs(inputs: &DeleteDraftInputs) -> (r: Result<(), String>)
    ensures
        match delete_problem(inputs.drf_id@, inputs.tenant@) {
            Some(m) => r matches Err(e) && e@ == m,
            None => r is Ok,
        },
{
    if is_blank(inputs.drf_id.as_str()) {
        return Err(String::from_str("drf_id must be non-empty"));
    }
    if is_blank(inputs.tenant.as_str()) {
        return Err(String::from_str("tenant must be non-empty"));
    }
    Ok(())
}

/// Idempotency key of a draft deletion: `draft_delete:<drf_id>`, so a
/// repeated delete of the same draft carries the same key.
pub fn draft_delete_idempotency_key(drf_id: &str) -> (r: String)
    ensures
        r@ == "draft_delete:"@ + drf_id@,
{
    let mut s = String::from_str("draft_delete:");
    s.append(drf_id);
    s
}

/// Audit payload of a deletion, carrying the removed row's sources.
pub fn draft_deleted_payload(inputs: &DeleteDraftInputs, prior: &DraftSources, deleted_at: &str) -> (r: InvoiceDraftDeletedPayload)
    ensures
        r.draft_id@ == inputs.drf_id@,
        r.tenant_id@ == inputs.tenant@,
        r.partner_id@ == prior.partner_id@,
        opt_eq(r.source_dispatch_id, prior.source_dispatch_id),
        opt_eq(r.source_wo_id, prior.source_wo_id),
        opt_eq(r.source_quote_id, prior.source_quote_id),
        r.actor@ == inputs.actor@,
        r.idempotency_key@ == "draft_delete:"@ + inputs.drf_id@,
        r.deleted_at@ == deleted_at@,
{
    InvoiceDraftDeletedPayload {
        draft_id: inputs.drf_id.clone(),
        tenant_id: inputs.tenant.clone(),
        partner_id: prior.partner_id.clone(),
        source_dispatch_id: clone_opt(&prior.source_dispatch_id),
        source_wo_id: clone_opt(&prior.source_wo_id),
        source_quote_id: clone_opt(&prior.source_quote_id),
        actor: inputs.actor.clone(),
        idempotency_key: draft_delete_idempotency_key(inputs.drf_id.as_str()),
        deleted_at: String::from_str(deleted_at),
    }
}

/// Outcome of a deletion: nothing happens to an absent draft.
pub fn delete_outcome(found: bool, dispatch_pointers_cleared: usize) -> (r: DeleteDraftOutcome)
    ensures
        r.deleted == found,
        r.dispatch_pointers_cleared == (if found { dispatch_pointers_cleared } else { 0 }),
{
    if found {
        DeleteDraftOutcome { deleted: true, dispatch_pointers_cleared }
    } else {
        DeleteDraftOutcome { deleted: false, dispatch_pointers_cleared: 0 }
    }
}

} // verus!

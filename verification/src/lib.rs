//! Verified core of the ABERP invoicing / accounts-payable backend.

pub mod billing;
pub mod incoming_invoices;
pub mod invoice_bank_snapshot;
pub mod invoice_currency_metadata;
pub mod invoice_draft;
pub mod invoice_provenance;
pub mod issue_invoice;
pub mod issue_modification;
pub mod issue_preflight;
pub mod issue_storno;
pub mod live_checkpoint;
pub mod margin_profiles;
pub mod mark_abandoned;
pub mod mark_invoice_paid;
pub mod material_inventory;
pub mod material_traceability;
pub mod mes_boot;
pub mod nav_xml;
pub mod text;

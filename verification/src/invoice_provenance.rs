//! Shipment provenance of an issued invoice: which draft, dispatch and work
//! order it came from.

use vstd::prelude::*;

verus! {

#[derive(Clone, Debug, PartialEq, Eq)]
pub struct InvoiceShipmentProvenance {
    pub invoice_id: String,
    pub source_draft_id: String,
    pub source_dispatch_id: Option<String>,
    pub source_wo_id: Option<String>,
    pub recorded_at_utc: String,
}

} // verus!

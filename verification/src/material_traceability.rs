//! Chain-of-custody report vocabulary for a material lot.

use vstd::prelude::*;

verus! {

/// How the operator addressed the lot.
#[derive(Clone, Copy, Debug, PartialEq, Eq, Structural, Hash)]
pub enum TraceQueryKind {
    MaterialId,
    HeatLot,
}

pub open spec fn trace_kind_text(k: TraceQueryKind) -> Seq<char> {
    match k {
        TraceQueryKind::MaterialId => "material_id"@,
        TraceQueryKind::HeatLot => "heat_lot"@,
    }
}

impl TraceQueryKind {
    pub fn as_str(&self) -> (r: &'static str)
        ensures
            r@ == trace_kind_text(*self),
    {
        match self {
            TraceQueryKind::MaterialId => "material_id",
            TraceQueryKind::HeatLot => "heat_lot",
        }
    }
}

/// One quote that priced the traced grade.
#[derive(Clone, Debug, PartialEq, Eq)]
pub struct QuoteRef {
    pub quote_id: String,
    pub state: String,
}

/// One work order whose originating quote priced the traced grade.
#[derive(Clone, Debug, PartialEq, Eq)]
pub struct WorkOrderRef {
    pub wo_id: String,
    pub wo_number: String,
    pub state: String,
    pub source_quote_id: String,
}

/// Placeholder naming downstream invoice traceability as not recorded.
pub const NOT_TRACKED: &'static str = "(not tracked yet)";

/// The lookup value as the report echoes it: surrounding whitespace
/// removed.
pub fn normalize_query_value(value: &str) -> (r: String)
    ensures
        r@ == crate::text::trim(value@),
{
    crate::text::trim_to_string(value)
}

} // verus!

//! Currency and exchange-rate metadata stored on an issued invoice, and the
//! rules a chain child (storno / modification) inherits them by.

use vstd::prelude::*;
use crate::billing::{Currency, currency_iso};
use crate::incoming_invoices::{is_canonical_iso_date, ymd_date_accepted};
use crate::issue_invoice::{decimal_mantissa_value, decimal_scale_value};
use crate::text::str_eq;

verus! {

/// Stored currency columns of an invoice row.
#[derive(Clone, Debug, PartialEq, Eq)]
pub struct InvoiceCurrencyMetadata {
    pub currency: Currency,
    pub exchange_rate: Option<String>,
    pub exchange_rate_source: Option<String>,
    pub exchange_rate_date: Option<String>,
    pub huf_equivalent_total: Option<i64>,
}

/// Rate data a chain child inherits from a non-HUF base.
#[derive(Debug)]
pub struct InheritedRate {
    pub rate: rust_decimal::Decimal,
    pub source: String,
    pub date: String,
}

/// Whether `rust_decimal::Decimal::from_str` accepts a text.
pub uninterp spec fn decimal_text_accepted(s: Seq<char>) -> bool;

/// The (mantissa, scale) of the decimal `rust_decimal::Decimal::from_str`
/// reads from an accepted text.
pub uninterp spec fn decimal_text_value(s: Seq<char>) -> (i128, u32);

/// `rust_decimal::Decimal::from_str`, a function of the text alone: whether
/// it is accepted, and the mantissa and scale of the value it denotes.
#[verifier::external_body]
pub(crate) fn parse_decimal(s: &str) -> (r: Option<rust_decimal::Decimal>)
    ensures
        r is Some == decimal_text_accepted(s@),
        r is Some ==> (decimal_mantissa_value(r->0), decimal_scale_value(r->0))
            == decimal_text_value(s@),
{
    match <rust_decimal::Decimal as core::str::FromStr>::from_str(s) {
        Ok(d) => Some(d),
        Err(_) => None,
    }
}

pub open spec fn decode_currency_spec(id: Seq<char>, value: Option<Seq<char>>) -> Result<Currency, Seq<char>> {
    match value {
        None => Ok(Currency::Huf),
        Some(v) => if v == "HUF"@ {
            Ok(Currency::Huf)
        } else if v == "EUR"@ {
            Ok(Currency::Eur)
        } else {
            Err("invoice.currency column for "@ + id + " has unknown value \""@ + v
                + "\" — DB tampering or schema drift (ADR-0037 §3)"@)
        },
    }
}

/// Decode the stored `currency` column: absent means HUF (the migration
/// backfill), `HUF` / `EUR` decode, anything else is refused.
pub fn decode_currency_column(invoice_id: &str, value: Option<&str>) -> (r: Result<Currency, String>)
    ensures
        ({
            let spec = decode_currency_spec(
                invoice_id@,
                match value {
                    Some(v) => Some(v@),
                    None => None,
                },
            );
            match r {
                Ok(c) => spec == Ok::<Currency, Seq<char>>(c),
                Err(m) => spec == Err::<Currency, Seq<char>>(m@),
            }
        }),
{
    match value {
        None => Ok(Currency::Huf),
        Some(v) => {
            if str_eq(v, "HUF") {
                Ok(Currency::Huf)
            } else if str_eq(v, "EUR") {
                Ok(Currency::Eur)
            } else {
                let mut m = String::from_str("invoice.currency column for ");
                m.append(invoice_id);
                m.append(" has unknown value \"");
                m.append(v);
                m.append("\" — DB tampering or schema drift (ADR-0037 §3)");
                Err(m)
            }
        },
    }
}

pub open spec fn mismatch_text(base: Currency, child: Currency, id: Seq<char>) -> Seq<char> {
    "ChainCurrencyMismatch: chain-child invoice currency "@ + currency_iso(child)
        + " does not match base invoice "@ + id + " currency "@ + currency_iso(base)
        + " (ADR-0037 §4 invariant C6 — cross-currency chain children are not regulatorily permitted)"@
}

/// Chain children must be denominated in their base's currency.
pub fn require_chain_currency_match(base_currency: Currency, child_currency: Currency, base_invoice_id: &str) -> (r: Result<(), String>)
    ensures
        base_currency == child_currency ==> r is Ok,
        base_currency != child_currency ==> (r matches Err(m) && m@ == mismatch_text(
            base_currency,
            child_currency,
            base_invoice_id@,
        )),
{
    if base_currency == child_currency {
        Ok(())
    } else {
        let mut m = String::from_str("ChainCurrencyMismatch: chain-child invoice currency ");
        m.append(child_currency.iso_code());
        m.append(" does not match base invoice ");
        m.append(base_invoice_id);
        m.append(" currency ");
        m.append(base_currency.iso_code());
        m.append(
            " (ADR-0037 §4 invariant C6 — cross-currency chain children are not regulatorily permitted)",
        );
        Err(m)
    }
}

pub open spec fn missing_column_text(c: Currency, column: Seq<char>) -> Seq<char> {
    "base invoice has non-HUF currency "@ + currency_iso(c) + " but missing "@ + column
        + " column — DB row corrupt (ADR-0037 §4 invariant C1, read-side counterpart)"@
}

/// Outcome of inheriting the base's rate metadata, as texts: `Ok(None)`
/// for a HUF base, `Ok(Some((source, date)))` when every column is present
/// and well-formed, else the refusal.
pub open spec fn inherit_spec(base: InvoiceCurrencyMetadata) -> Result<Option<(Seq<char>, Seq<char>)>, Seq<char>> {
    if base.currency == Currency::Huf {
        Ok(None)
    } else if base.exchange_rate is None {
        Err(missing_column_text(base.currency, "exchange_rate"@))
    } else if base.exchange_rate_source is None {
        Err(missing_column_text(base.currency, "exchange_rate_source"@))
    } else if base.exchange_rate_date is None {
        Err(missing_column_text(base.currency, "exchange_rate_date"@))
    } else if !decimal_text_accepted(base.exchange_rate->0@) {
        Err("base invoice exchange_rate value `"@ + base.exchange_rate->0@
            + "` is not a parseable decimal — DB row corrupt or schema-drifted"@)
    } else if !ymd_date_accepted(base.exchange_rate_date->0@) {
        Err("base invoice exchange_rate_date `"@ + base.exchange_rate_date->0@
            + "` does not parse as YYYY-MM-DD — DB row corrupt or schema-drifted"@)
    } else {
        Ok(Some((base.exchange_rate_source->0@, base.exchange_rate_date->0@)))
    }
}

fn missing_column(c: Currency, column: &str) -> (r: String)
    ensures
        r@ == missing_column_text(c, column@),
{
    let mut m = String::from_str("base invoice has non-HUF currency ");
    m.append(c.iso_code());
    m.append(" but missing ");
    m.append(column);
    m.append(" column — DB row corrupt (ADR-0037 §4 invariant C1, read-side counterpart)");
    m
}

/// The rate, source and date a chain child inherits from its base: frozen
/// at the base's values. A HUF base passes nothing on; a non-HUF base with
/// a missing or malformed column is refused.
pub fn inherit_rate_inputs_for_chain(base: &InvoiceCurrencyMetadata) -> (r: Result<Option<InheritedRate>, String>)
    ensures
        match r {
            Ok(None) => inherit_spec(*base) == Ok::<Option<(Seq<char>, Seq<char>)>, Seq<char>>(None),
            Ok(Some(i)) => inherit_spec(*base) == Ok::<Option<(Seq<char>, Seq<char>)>, Seq<char>>(
                Some((i.source@, i.date@)),
            ) && (decimal_mantissa_value(i.rate), decimal_scale_value(i.rate)) == decimal_text_value(
                base.exchange_rate->0@,
            ),
            Err(m) => inherit_spec(*base) == Err::<Option<(Seq<char>, Seq<char>)>, Seq<char>>(m@),
        },
{
    if base.currency == Currency::Huf {
        return Ok(None);
    }
    let rate_text = match &base.exchange_rate {
        Some(s) => s,
        None => {
            return Err(missing_column(base.currency, "exchange_rate"));
        },
    };
    let source = match &base.exchange_rate_source {
        Some(s) => s,
        None => {
            return Err(missing_column(base.currency, "exchange_rate_source"));
        },
    };
    let date = match &base.exchange_rate_date {
        Some(s) => s,
        None => {
            return Err(missing_column(base.currency, "exchange_rate_date"));
        },
    };
    let rate = match parse_decimal(rate_text.as_str()) {
        Some(d) => d,
        None => {
            let mut m = String::from_str("base invoice exchange_rate value `");
            m.append(rate_text.as_str());
            m.append("` is not a parseable decimal — DB row corrupt or schema-drifted");
            return Err(m);
        },
    };
    if !is_canonical_iso_date(date.as_str()) {
        let mut m = String::from_str("base invoice exchange_rate_date `");
        m.append(date.as_str());
        m.append("` does not parse as YYYY-MM-DD — DB row corrupt or schema-drifted");
        return Err(m);
    }
    Ok(Some(InheritedRate { rate, source: source.clone(), date: date.clone() }))
}

} // verus!

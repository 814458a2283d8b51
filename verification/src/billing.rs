//! Billing vocabulary shared by issuance, chain and preflight code: the
//! invoice currency and the per-line VAT-rate kind.

use vstd::prelude::*;
use crate::text::str_eq;

verus! {

/// Invoice currency (closed vocabulary).
#[derive(Clone, Copy, Debug, PartialEq, Eq, Structural, Hash)]
pub enum Currency {
    Huf,
    Eur,
}

/// ISO-4217 code of a currency.
pub open spec fn currency_iso(c: Currency) -> Seq<char> {
    match c {
        Currency::Huf => "HUF"@,
        Currency::Eur => "EUR"@,
    }
}

/// Decoding of an ISO-4217 code back to a currency.
pub open spec fn currency_from_iso(s: Seq<char>) -> Option<Currency> {
    if s == "HUF"@ {
        Some(Currency::Huf)
    } else if s == "EUR"@ {
        Some(Currency::Eur)
    } else {
        None
    }
}

impl Currency {
    pub fn iso_code(self) -> (r: &'static str)
        ensures
            r@ == currency_iso(self),
    {
        match self {
            Currency::Huf => "HUF",
            Currency::Eur => "EUR",
        }
    }

    pub fn from_iso_code(s: &str) -> (r: Option<Currency>)
        ensures
            r == currency_from_iso(s@),
    {
        if str_eq(s, "HUF") {
            Some(Currency::Huf)
        } else if str_eq(s, "EUR") {
            Some(Currency::Eur)
        } else {
            None
        }
    }
}

/// Decoding an ISO code gives back the currency it was rendered from.
pub proof fn lemma_currency_iso_round_trip(c: Currency)
    ensures
        currency_from_iso(currency_iso(c)) == Some(c),
{
    reveal_strlit("HUF");
    reveal_strlit("EUR");
    assert("HUF"@ != "EUR"@) by {
        assert("HUF"@[0] != "EUR"@[0]);
    }
}

/// VAT-rate kind of an invoice line. Only `Percent` lines carry a numeric
/// rate; every other kind is an exemption / reverse-charge category.
#[derive(Clone, Copy, Debug, PartialEq, Eq, Structural, Hash)]
pub enum VatRateKind {
    Percent,
    AamExempt,
    DomesticReverseCharge,
    IntraCommunityGoods,
    IntraCommunityServiceReverse,
    TamExempt,
    ExportGoods,
    OtherInternational,
    NewTransportIntraCommunity,
    OutOfScopeThirdCountry,
    MarginScheme,
    NoVatCharge,
    VatContent,
}

/// The variant name, verbatim.
pub open spec fn vat_rate_kind_name(k: VatRateKind) -> Seq<char> {
    match k {
        VatRateKind::Percent => "Percent"@,
        VatRateKind::AamExempt => "AamExempt"@,
        VatRateKind::DomesticReverseCharge => "DomesticReverseCharge"@,
        VatRateKind::IntraCommunityGoods => "IntraCommunityGoods"@,
        VatRateKind::IntraCommunityServiceReverse => "IntraCommunityServiceReverse"@,
        VatRateKind::TamExempt => "TamExempt"@,
        VatRateKind::ExportGoods => "ExportGoods"@,
        VatRateKind::OtherInternational => "OtherInternational"@,
        VatRateKind::NewTransportIntraCommunity => "NewTransportIntraCommunity"@,
        VatRateKind::OutOfScopeThirdCountry => "OutOfScopeThirdCountry"@,
        VatRateKind::MarginScheme => "MarginScheme"@,
        VatRateKind::NoVatCharge => "NoVatCharge"@,
        VatRateKind::VatContent => "VatContent"@,
    }
}

impl VatRateKind {
    pub fn as_str(self) -> (r: &'static str)
        ensures
            r@ == vat_rate_kind_name(self),
    {
        match self {
            VatRateKind::Percent => "Percent",
            VatRateKind::AamExempt => "AamExempt",
            VatRateKind::DomesticReverseCharge => "DomesticReverseCharge",
            VatRateKind::IntraCommunityGoods => "IntraCommunityGoods",
            VatRateKind::IntraCommunityServiceReverse => "IntraCommunityServiceReverse",
            VatRateKind::TamExempt => "TamExempt",
            VatRateKind::ExportGoods => "ExportGoods",
            VatRateKind::OtherInternational => "OtherInternational",
            VatRateKind::NewTransportIntraCommunity => "NewTransportIntraCommunity",
            VatRateKind::OutOfScopeThirdCountry => "OutOfScopeThirdCountry",
            VatRateKind::MarginScheme => "MarginScheme",
            VatRateKind::NoVatCharge => "NoVatCharge",
            VatRateKind::VatContent => "VatContent",
        }
    }

    pub fn is_percent(self) -> (r: bool)
        ensures
            r == (self == VatRateKind::Percent),
    {
        match self {
            VatRateKind::Percent => true,
            _ => false,
        }
    }
}

} // verus!

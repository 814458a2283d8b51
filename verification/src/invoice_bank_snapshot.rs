//! Bank-account snapshot stored on an issued invoice row, and its typed
//! form inherited by chain children.

use vstd::prelude::*;

verus! {

/// The five stored snapshot columns, each possibly absent.
#[derive(Clone, Debug, PartialEq, Eq)]
pub struct InvoiceBankSnapshot {
    pub bank_account_id: Option<String>,
    pub bank_account_currency: Option<String>,
    pub bank_account_number: Option<String>,
    pub bank_account_bank_name: Option<String>,
    pub bank_account_swift_bic: Option<String>,
}

/// A complete snapshot.
#[derive(Clone, Debug, PartialEq, Eq)]
pub struct BankAccountSnapshot {
    pub id: String,
    pub currency: String,
    pub account_number: String,
    pub bank_name: String,
    pub swift_bic: String,
}

impl InvoiceBankSnapshot {
    pub open spec fn complete(&self) -> bool {
        &&& self.bank_account_id is Some
        &&& self.bank_account_currency is Some
        &&& self.bank_account_number is Some
        &&& self.bank_account_bank_name is Some
        &&& self.bank_account_swift_bic is Some
    }

    /// True iff all five fields are populated.
    pub fn present(&self) -> (r: bool)
        ensures
            r == self.complete(),
    {
        self.bank_account_id.is_some() && self.bank_account_currency.is_some()
            && self.bank_account_number.is_some() && self.bank_account_bank_name.is_some()
            && self.bank_account_swift_bic.is_some()
    }

    /// The typed snapshot, exactly when all five fields are present; the
    /// fields move over unchanged.
    pub fn into_typed(self) -> (r: Option<BankAccountSnapshot>)
        ensures
            r is Some <==> self.complete(),
            r matches Some(t) ==> t.id == self.bank_account_id->0 && t.currency
                == self.bank_account_currency->0 && t.account_number == self.bank_account_number->0
                && t.bank_name == self.bank_account_bank_name->0 && t.swift_bic
                == self.bank_account_swift_bic->0,
    {
        match (
            self.bank_account_id,
            self.bank_account_currency,
            self.bank_account_number,
            self.bank_account_bank_name,
            self.bank_account_swift_bic,
        ) {
            (Some(id), Some(currency), Some(account_number), Some(bank_name), Some(swift_bic)) => {
                Some(BankAccountSnapshot { id, currency, account_number, bank_name, swift_bic })
            },
            _ => None,
        }
    }
}

} // verus!

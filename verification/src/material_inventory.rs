//! Material-side inventory vocabulary: the closed reservation-state set and
//! its storage strings.

use vstd::prelude::*;
use crate::text::str_eq;

verus! {

/// Unit of measure of material balances.
pub const DEFAULT_UOM: &'static str = "kg";

/// Closed-vocab reservation state.
#[derive(Clone, Copy, Debug, PartialEq, Eq, Structural, Hash)]
pub enum ReservationState {
    Reserved,
    Committed,
    Consumed,
    Released,
}

pub open spec fn reservation_text(s: ReservationState) -> Seq<char> {
    match s {
        ReservationState::Reserved => "reserved"@,
        ReservationState::Committed => "committed"@,
        ReservationState::Consumed => "consumed"@,
        ReservationState::Released => "released"@,
    }
}

pub open spec fn reservation_from_text(s: Seq<char>) -> Option<ReservationState> {
    if s == "reserved"@ {
        Some(ReservationState::Reserved)
    } else if s == "committed"@ {
        Some(ReservationState::Committed)
    } else if s == "consumed"@ {
        Some(ReservationState::Consumed)
    } else if s == "released"@ {
        Some(ReservationState::Released)
    } else {
        None
    }
}

impl ReservationState {
    /// Every state, in declaration order.
    pub const ALL: [ReservationState; 4] = [
        ReservationState::Reserved,
        ReservationState::Committed,
        ReservationState::Consumed,
        ReservationState::Released,
    ];

    pub fn as_db_str(&self) -> (r: &'static str)
        ensures
            r@ == reservation_text(*self),
    {
        match self {
            ReservationState::Reserved => "reserved",
            ReservationState::Committed => "committed",
            ReservationState::Consumed => "consumed",
            ReservationState::Released => "released",
        }
    }

    pub fn from_db_str(s: &str) -> (r: Option<ReservationState>)
        ensures
            r == reservation_from_text(s@),
    {
        if str_eq(s, "reserved") {
            Some(ReservationState::Reserved)
        } else if str_eq(s, "committed") {
            Some(ReservationState::Committed)
        } else if str_eq(s, "consumed") {
            Some(ReservationState::Consumed)
        } else if str_eq(s, "released") {
            Some(ReservationState::Released)
        } else {
            None
        }
    }
}

/// Parsing the storage string of a state gives the state back.
pub proof fn lemma_reservation_round_trip(s: ReservationState)
    ensures
        reservation_from_text(reservation_text(s)) == Some(s),
{
    reveal_strlit("reserved");
    reveal_strlit("committed");
    reveal_strlit("consumed");
    reveal_strlit("released");
    assert("reserved"@.len() != "committed"@.len());
    assert("reserved"@[0] != "consumed"@[0]);
    assert("reserved"@[2] != "released"@[2]);
    assert("committed"@.len() != "consumed"@.len());
    assert("committed"@.len() != "released"@.len());
    assert("consumed"@[0] != "released"@[0]);
}

} // verus!

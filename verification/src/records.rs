//! The three persistent records of the sale and their mathematical views.

use crate::amount::Amount;
use crate::bytes::copy_bytes;
use vstd::prelude::*;

verus! {

/// The event on sale: its display name, its capacity, and how many tickets
/// have been sold so far.
#[derive(Debug, PartialEq, Eq)]
pub struct EventInfo {
    pub name: Vec<u8>,
    pub total_tickets: u64,
    pub sold_tickets: u64,
}

/// An [`EventInfo`] as a mathematical value.
pub struct EventInfoView {
    pub name: Seq<u8>,
    pub total_tickets: u64,
    pub sold_tickets: u64,
}

impl EventInfoView {
    /// What a reader sees where no event has been recorded.
    pub open spec fn empty() -> EventInfoView {
        EventInfoView { name: Seq::empty(), total_tickets: 0, sold_tickets: 0 }
    }
}

impl View for EventInfo {
    type V = EventInfoView;

    open spec fn view(&self) -> EventInfoView {
        EventInfoView {
            name: self.name@,
            total_tickets: self.total_tickets,
            sold_tickets: self.sold_tickets,
        }
    }
}

impl EventInfo {
    /// The empty form: no name, no capacity, nothing sold.
    pub fn empty() -> (info: EventInfo)
        ensures
            info@ == EventInfoView::empty(),
    {
        EventInfo { name: Vec::new(), total_tickets: 0, sold_tickets: 0 }
    }
}

impl Clone for EventInfo {
    fn clone(&self) -> (copy: EventInfo)
        ensures
            copy@ == self@,
    {
        EventInfo {
            name: copy_bytes(&self.name),
            total_tickets: self.total_tickets,
            sold_tickets: self.sold_tickets,
        }
    }
}

/// The identifier of a token class, as the host assigned it. The library
/// never looks inside.
#[derive(Debug, PartialEq, Eq)]
pub struct TokenIdentifier {
    bytes: Vec<u8>,
}

impl View for TokenIdentifier {
    type V = Seq<u8>;

    closed spec fn view(&self) -> Seq<u8> {
        self.bytes@
    }
}

impl TokenIdentifier {
    /// The identifier made of `bytes`.
    pub fn from_bytes(bytes: &[u8]) -> (token: TokenIdentifier)
        ensures
            token@ == bytes@,
    {
        let mut copy: Vec<u8> = Vec::new();
        crate::bytes::append_bytes(&mut copy, bytes);
        TokenIdentifier { bytes: copy }
    }

    /// The identifier without any byte, which a reader sees where no token
    /// has been recorded.
    pub fn empty() -> (token: TokenIdentifier)
        ensures
            token@ == Seq::<u8>::empty(),
    {
        TokenIdentifier { bytes: Vec::new() }
    }

    /// The bytes of the identifier.
    pub fn to_bytes(&self) -> (bytes: Vec<u8>)
        ensures
            bytes@ == self@,
    {
        copy_bytes(&self.bytes)
    }
}

impl Clone for TokenIdentifier {
    fn clone(&self) -> (copy: TokenIdentifier)
        ensures
            copy@ == self@,
    {
        TokenIdentifier { bytes: copy_bytes(&self.bytes) }
    }
}

/// The contents of the ledger as a mathematical value: each record is either
/// absent or holds a value, and an absent record is not the same as one that
/// holds zero or the empty string.
pub struct Records {
    pub event_info: Option<EventInfoView>,
    pub ticket_price: Option<nat>,
    pub token: Option<Seq<u8>>,
}

/// Where the sale stands in its life.
#[derive(Clone, Copy, Debug, PartialEq, Eq, Structural)]
pub enum Phase {
    /// Nothing has been registered.
    Uninitialized,
    /// The terms are registered and the token issuance is under way.
    IssuancePending,
    /// The token is issued and tickets are left.
    OnSale,
    /// The token is issued and every ticket is sold.
    SoldOut,
}

impl Records {
    /// The ledger before any setup: every record absent.
    pub open spec fn empty() -> Records {
        Records { event_info: None, ticket_price: None, token: None }
    }

    /// The recorded event, or the empty form where none is recorded.
    pub open spec fn event_or_empty(self) -> EventInfoView {
        match self.event_info {
            Some(info) => info,
            None => EventInfoView::empty(),
        }
    }

    /// The recorded price, or zero where none is recorded.
    pub open spec fn price_or_zero(self) -> nat {
        match self.ticket_price {
            Some(price) => price,
            None => 0,
        }
    }

    /// The recorded token identifier, or the empty one where none is
    /// recorded.
    pub open spec fn token_or_empty(self) -> Seq<u8> {
        match self.token {
            Some(token) => token,
            None => Seq::empty(),
        }
    }

    /// The invariant of the ledger: the event and the price are recorded
    /// together, a token only beside them, the price and the capacity are
    /// positive, no more tickets are sold than exist, and none is sold before
    /// the token is there.
    pub open spec fn wf(self) -> bool {
        &&& self.event_info is Some <==> self.ticket_price is Some
        &&& self.token is Some ==> self.event_info is Some
        &&& self.ticket_price is Some ==> self.price_or_zero() > 0
        &&& self.event_info is Some ==> {
            &&& 0 < self.event_or_empty().total_tickets
            &&& self.event_or_empty().sold_tickets <= self.event_or_empty().total_tickets
            &&& self.token is None ==> self.event_or_empty().sold_tickets == 0
        }
    }

    /// The phase of a well-formed ledger.
    pub open spec fn phase(self) -> Phase {
        if self.event_info is None {
            Phase::Uninitialized
        } else if self.token is None {
            Phase::IssuancePending
        } else if self.event_or_empty().sold_tickets < self.event_or_empty().total_tickets {
            Phase::OnSale
        } else {
            Phase::SoldOut
        }
    }
}

} // verus!

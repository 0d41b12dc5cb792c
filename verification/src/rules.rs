//! The rules of the sale as mathematics: for every operation, when it is
//! turned down and with which error, and otherwise what the ledger holds
//! afterwards and what is asked of the host.

use crate::decimal::decimal_text;
use crate::error::{Argument, SaleError};
use crate::records::{EventInfoView, Records};
use crate::requests::{
    attributes_prefix, refunds, ticket_separator, ticket_uri, token_ticker, IssueOutcomeView,
    IssueRequestView, MintRequestView, NativeTransferView, Recipient, TokenProperties,
    TokenTransferView, AMOUNT_TO_MINT, ROYALTIES,
};
use vstd::prelude::*;

verus! {

/// Why a setup is turned down, if it is: the first of the four conditions
/// that fails, in this order.
pub open spec fn setup_rejection(
    records: Records,
    caller_is_owner: bool,
    price: nat,
    total_tickets: u64,
) -> Option<SaleError> {
    if !caller_is_owner {
        Some(SaleError::Unauthorized)
    } else if records.token is Some {
        Some(SaleError::AlreadyInitialized)
    } else if price == 0 {
        Some(SaleError::InvalidArgument(Argument::Price))
    } else if total_tickets == 0 {
        Some(SaleError::InvalidArgument(Argument::TotalTickets))
    } else {
        None
    }
}

/// The ledger after an accepted setup: the price and the event are recorded,
/// nothing is sold, and the token record is left as it was.
pub open spec fn after_setup(
    records: Records,
    event_name: Seq<u8>,
    price: nat,
    total_tickets: u64,
) -> Records {
    Records {
        event_info: Some(
            EventInfoView { name: event_name, total_tickets: total_tickets, sold_tickets: 0 },
        ),
        ticket_price: Some(price),
        token: records.token,
    }
}

/// The ledger after a call of the setup operation, accepted or not.
pub open spec fn setup_step(
    records: Records,
    caller_is_owner: bool,
    event_name: Seq<u8>,
    price: nat,
    total_tickets: u64,
) -> Records {
    if setup_rejection(records, caller_is_owner, price, total_tickets) is Some {
        records
    } else {
        after_setup(records, event_name, price, total_tickets)
    }
}

/// The issuance that an accepted setup asks for: the whole attached value as
/// the fee, the fixed ticker as ticker and as display name, and the
/// properties of the ticket class.
pub open spec fn issue_request(issue_cost: nat) -> IssueRequestView {
    IssueRequestView {
        issue_cost: issue_cost,
        token_display_name: token_ticker(),
        token_ticker: token_ticker(),
        properties: TokenProperties::ticket_class(),
    }
}

/// The ledger after the issuance has succeeded with `token`: the token is
/// recorded, the other two records are untouched.
pub open spec fn after_issue_success(records: Records, token: Seq<u8>) -> Records {
    Records { token: Some(token), ..records }
}

/// The ledger after the issuance has failed: the price and the event are
/// cleared, the token record is untouched.
pub open spec fn after_issue_failure(records: Records) -> Records {
    Records { event_info: None, ticket_price: None, token: records.token }
}

/// The ledger after the continuation of the issuance has run, accepted or
/// not: a caller other than the owner changes nothing.
pub open spec fn issue_step(records: Records, caller_is_owner: bool, result: IssueOutcomeView) -> Records {
    if !caller_is_owner {
        records
    } else {
        match result {
            IssueOutcomeView::Issued(token) => after_issue_success(records, token),
            IssueOutcomeView::Failed(_) => after_issue_failure(records),
        }
    }
}

/// The transfers that the continuation asks for when the owner calls it:
/// none after a success, and after a failure one refund to the owner for each
/// payment that came back, in the same order.
pub open spec fn issue_refunds(result: IssueOutcomeView) -> Seq<TokenTransferView> {
    match result {
        IssueOutcomeView::Issued(_) => Seq::empty(),
        IssueOutcomeView::Failed(returned) => refunds(returned),
    }
}

/// Why a purchase is turned down, if it is: the first of the three
/// conditions that fails, in this order. An absent price counts as zero and an
/// absent event as one without tickets.
pub open spec fn purchase_rejection(records: Records, payment: nat) -> Option<SaleError> {
    if records.token is None {
        Some(SaleError::NotReady)
    } else if payment != records.price_or_zero() {
        Some(SaleError::PaymentMismatch)
    } else if records.event_or_empty().sold_tickets >= records.event_or_empty().total_tickets {
        Some(SaleError::SoldOut)
    } else {
        None
    }
}

/// The number of the next ticket: one more than the tickets sold so far.
pub open spec fn next_ticket_number(records: Records) -> nat {
    (records.event_or_empty().sold_tickets + 1) as nat
}

/// The ledger after an accepted purchase: one more ticket is sold, nothing
/// else changes.
pub open spec fn after_purchase(records: Records) -> Records {
    Records {
        event_info: Some(
            EventInfoView {
                sold_tickets: next_ticket_number(records) as u64,
                ..records.event_or_empty()
            },
        ),
        ..records
    }
}

/// The ledger after a call of the purchase operation, accepted or not.
pub open spec fn purchase_step(records: Records, payment: nat) -> Records {
    if purchase_rejection(records, payment) is Some {
        records
    } else {
        after_purchase(records)
    }
}

/// The display name of ticket `number` of the event `event_name`: the event
/// name, the separator, and the number in decimal.
pub open spec fn ticket_name(event_name: Seq<u8>, number: nat) -> Seq<u8> {
    event_name + ticket_separator() + decimal_text(number)
}

/// The attributes of every ticket of the event `event_name`.
pub open spec fn ticket_attributes(event_name: Seq<u8>) -> Seq<u8> {
    attributes_prefix() + event_name
}

/// The mint that an accepted purchase asks for: one unit of the ticket
/// class, named after the event and the number of the ticket, without
/// royalties or hash, with the one metadata address.
pub open spec fn mint_request(records: Records) -> MintRequestView {
    MintRequestView {
        token_identifier: records.token_or_empty(),
        amount: AMOUNT_TO_MINT as nat,
        name: ticket_name(records.event_or_empty().name, next_ticket_number(records)),
        royalties: ROYALTIES as nat,
        hash: Seq::empty(),
        attributes: ticket_attributes(records.event_or_empty().name),
        uris: seq![ticket_uri()],
    }
}

/// Why a withdrawal is turned down, if it is.
pub open spec fn withdraw_rejection(caller_is_owner: bool, balance: nat) -> Option<SaleError> {
    if !caller_is_owner {
        Some(SaleError::Unauthorized)
    } else if balance == 0 {
        Some(SaleError::NothingToWithdraw)
    } else {
        None
    }
}

/// The transfer that an accepted withdrawal asks for: the whole balance, to
/// the owner.
pub open spec fn withdrawal(balance: nat) -> NativeTransferView {
    NativeTransferView { to: Recipient::Owner, amount: balance }
}

/// The balance that the contract holds after a call of the withdrawal, given
/// the balance before: the host takes the transfer of an accepted call out of
/// it, and a rejected call moves nothing.
pub open spec fn balance_after_withdraw(caller_is_owner: bool, balance: nat) -> nat {
    if withdraw_rejection(caller_is_owner, balance) is Some {
        balance
    } else {
        (balance - withdrawal(balance).amount) as nat
    }
}

} // verus!

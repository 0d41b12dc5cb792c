//! The ticket sale: its ledger of three records and the operations on it.
//!
//! An operation never talks to the host. It takes what the host reports
//! about the call (whether the caller is the owner, the attached payment, the
//! balance, the result of the issuance), changes the records, and returns the
//! request that the host is to carry out next. A rejected operation changes
//! nothing.

use crate::amount::Amount;
use crate::bytes::{append_bytes, copy_bytes};
use crate::decimal::decimal_digits;
use crate::error::{Argument, SaleError};
use crate::records::{EventInfo, Phase, Records, TokenIdentifier};
use crate::requests::{
    refund_all, ticket_uri, transfer_views, IssueOutcome, IssueRequest, MintRequest,
    NativeTransfer, Recipient, TokenProperties, TokenTransfer, AMOUNT_TO_MINT,
    ATTRIBUTES_PREFIX, ROYALTIES, TICKET_SEPARATOR, TICKET_URI, TOKEN_TICKER,
};
use crate::rules::{
    issue_refunds, issue_request, issue_step, mint_request, purchase_rejection, purchase_step,
    setup_rejection, setup_step, withdraw_rejection, withdrawal,
};
use vstd::prelude::*;

verus! {

/// The views of three records that may be absent.
pub open spec fn records_view(
    event_info: Option<EventInfo>,
    ticket_price: Option<Amount>,
    nft_token_identifier: Option<TokenIdentifier>,
) -> Records {
    Records {
        event_info: match event_info {
            Some(info) => Some(info@),
            None => None,
        },
        ticket_price: match ticket_price {
            Some(price) => Some(price@),
            None => None,
        },
        token: match nft_token_identifier {
            Some(token) => Some(token@),
            None => None,
        },
    }
}

/// The sale of the tickets of one event. It owns the three records: the
/// event, the ticket price and the identifier of the ticket-class token.
#[derive(Debug, PartialEq, Eq)]
pub struct TicketSaleContract {
    event_info: Option<EventInfo>,
    ticket_price: Option<Amount>,
    nft_token_identifier: Option<TokenIdentifier>,
}

impl View for TicketSaleContract {
    type V = Records;

    closed spec fn view(&self) -> Records {
        records_view(self.event_info, self.ticket_price, self.nft_token_identifier)
    }
}

impl TicketSaleContract {
    /// A sale on which nothing has been registered: every record is absent.
    pub fn init() -> (contract: TicketSaleContract)
        ensures
            contract@ == Records::empty(),
            contract@.wf(),
    {
        TicketSaleContract { event_info: None, ticket_price: None, nft_token_identifier: None }
    }

    /// The sale whose ledger holds the given records, as the host has kept
    /// them since the last call.
    pub fn from_records(
        event_info: Option<EventInfo>,
        ticket_price: Option<Amount>,
        nft_token_identifier: Option<TokenIdentifier>,
    ) -> (contract: TicketSaleContract)
        ensures
            contract@ == records_view(event_info, ticket_price, nft_token_identifier),
    {
        TicketSaleContract { event_info, ticket_price, nft_token_identifier }
    }

    /// The event record, or `None` where it is absent.
    pub fn event_info(&self) -> (record: Option<&EventInfo>)
        ensures
            (match record {
                Some(info) => self@.event_info == Some(info@),
                None => self@.event_info is None,
            }),
    {
        self.event_info.as_ref()
    }

    /// The price record, or `None` where it is absent.
    pub fn ticket_price(&self) -> (record: Option<&Amount>)
        ensures
            (match record {
                Some(price) => self@.ticket_price == Some(price@),
                None => self@.ticket_price is None,
            }),
    {
        self.ticket_price.as_ref()
    }

    /// The token record, or `None` where it is absent.
    pub fn nft_token_identifier(&self) -> (record: Option<&TokenIdentifier>)
        ensures
            (match record {
                Some(token) => self@.token == Some(token@),
                None => self@.token is None,
            }),
    {
        self.nft_token_identifier.as_ref()
    }

    /// Where the sale stands: nothing registered, waiting for the token, on
    /// sale, or sold out.
    pub fn phase(&self) -> (phase: Phase)
        ensures
            phase == self@.phase(),
    {
        match &self.event_info {
            None => Phase::Uninitialized,
            Some(info) => {
                if self.nft_token_identifier.is_none() {
                    Phase::IssuancePending
                } else if info.sold_tickets < info.total_tickets {
                    Phase::OnSale
                } else {
                    Phase::SoldOut
                }
            },
        }
    }

    /// Registers the terms of the sale and asks for the issuance of the
    /// ticket-class token, to which the whole attached value `issue_cost`
    /// goes as the fee.
    ///
    /// The call is turned down, in this order, if the caller is not the
    /// owner, if the token has been issued already, if the price is zero, if
    /// there are no tickets. Otherwise the price and the event are recorded
    /// with no ticket sold, and the token record stays absent until
    /// [`TicketSaleContract::issue_callback`] reports the issuance.
    pub fn setup_event(
        &mut self,
        caller_is_owner: bool,
        event_name: Vec<u8>,
        price: Amount,
        total_tickets: u64,
        issue_cost: Amount,
    ) -> (outcome: Result<IssueRequest, SaleError>)
        ensures
            final(self)@ == setup_step(
                old(self)@,
                caller_is_owner,
                event_name@,
                price@,
                total_tickets,
            ),
            (match setup_rejection(old(self)@, caller_is_owner, price@, total_tickets) {
                Some(error) => outcome == Err::<IssueRequest, SaleError>(error),
                None => outcome is Ok && outcome->Ok_0@ == issue_request(issue_cost@),
            }),
            old(self)@.wf() ==> final(self)@.wf(),
    {
        if !caller_is_owner {
            return Err(SaleError::Unauthorized);
        }
        if self.nft_token_identifier.is_some() {
            return Err(SaleError::AlreadyInitialized);
        }
        if price.is_zero() {
            return Err(SaleError::InvalidArgument(Argument::Price));
        }
        if total_tickets == 0 {
            return Err(SaleError::InvalidArgument(Argument::TotalTickets));
        }
        self.ticket_price = Some(price);
        self.event_info = Some(EventInfo { name: event_name, total_tickets, sold_tickets: 0 });

        let mut token_display_name: Vec<u8> = Vec::new();
        append_bytes(&mut token_display_name, TOKEN_TICKER.as_bytes());
        let token_ticker = copy_bytes(&token_display_name);
        Ok(
            IssueRequest {
                issue_cost,
                token_display_name,
                token_ticker,
                properties: TokenProperties::for_ticket_class(),
            },
        )
    }

    /// Takes the result of the issuance that
    /// [`TicketSaleContract::setup_event`] asked for.
    ///
    /// The call is turned down if the caller is not the owner. If the token
    /// was issued, its identifier is recorded and the sale is open; nothing
    /// is to be sent. If the issuance failed, the price and the event are
    /// cleared, and the result lists one transfer to the owner for each
    /// payment that the host sent back, in the same order.
    pub fn issue_callback(&mut self, caller_is_owner: bool, result: IssueOutcome) -> (outcome:
        Result<Vec<TokenTransfer>, SaleError>)
        ensures
            final(self)@ == issue_step(old(self)@, caller_is_owner, result@),
            (if caller_is_owner {
                outcome is Ok && transfer_views(outcome->Ok_0@) == issue_refunds(result@)
            } else {
                outcome == Err::<Vec<TokenTransfer>, SaleError>(SaleError::Unauthorized)
            }),
            old(self)@.wf() && old(self)@.phase() == Phase::IssuancePending ==> final(self)@.wf(),
    {
        if !caller_is_owner {
            return Err(SaleError::Unauthorized);
        }
        match result {
            IssueOutcome::Issued(token) => {
                self.nft_token_identifier = Some(token);
                let nothing: Vec<TokenTransfer> = Vec::new();
                assert(transfer_views(nothing@) =~= Seq::empty());
                Ok(nothing)
            },
            IssueOutcome::Failed(returned) => {
                let transfers = refund_all(&returned);
                self.ticket_price = None;
                self.event_info = None;
                Ok(transfers)
            },
        }
    }

    /// Pays out the native balance `sc_balance` that the contract holds.
    ///
    /// The call is turned down if the caller is not the owner, and then if
    /// the balance is zero. Otherwise the whole balance goes to the owner.
    pub fn withdraw(&self, caller_is_owner: bool, sc_balance: Amount) -> (outcome: Result<
        NativeTransfer,
        SaleError,
    >)
        ensures
            (match withdraw_rejection(caller_is_owner, sc_balance@) {
                Some(error) => outcome == Err::<NativeTransfer, SaleError>(error),
                None => outcome is Ok && outcome->Ok_0@ == withdrawal(sc_balance@),
            }),
    {
        if !caller_is_owner {
            return Err(SaleError::Unauthorized);
        }
        if sc_balance.is_zero() {
            return Err(SaleError::NothingToWithdraw);
        }
        Ok(NativeTransfer { to: Recipient::Owner, amount: sc_balance })
    }

    /// Sells the next ticket against the attached native `payment`.
    ///
    /// The call is turned down, in this order, if the token has not been
    /// issued, if the payment is not exactly the ticket price, if no ticket
    /// is left. Otherwise the count of sold tickets goes up by one, and the
    /// result asks for the mint of one unit, named after the event and the
    /// new count. The host mints it and then sends it to the caller: see
    /// [`MintRequest::delivery`].
    pub fn buy_ticket(&mut self, payment: &Amount) -> (outcome: Result<MintRequest, SaleError>)
        ensures
            final(self)@ == purchase_step(old(self)@, payment@),
            (match purchase_rejection(old(self)@, payment@) {
                Some(error) => outcome == Err::<MintRequest, SaleError>(error),
                None => outcome is Ok && outcome->Ok_0@ == mint_request(old(self)@),
            }),
            old(self)@.wf() ==> final(self)@.wf(),
    {
        let token_identifier = match &self.nft_token_identifier {
            Some(token) => token.clone(),
            None => {
                return Err(SaleError::NotReady);
            },
        };
        let exact = match &self.ticket_price {
            Some(price) => payment.equals(price),
            None => payment.is_zero(),
        };
        if !exact {
            return Err(SaleError::PaymentMismatch);
        }
        let mut event_data = match &self.event_info {
            Some(info) => info.clone(),
            None => EventInfo::empty(),
        };
        if event_data.sold_tickets >= event_data.total_tickets {
            return Err(SaleError::SoldOut);
        }
        event_data.sold_tickets += 1;

        let mut name = copy_bytes(&event_data.name);
        append_bytes(&mut name, TICKET_SEPARATOR.as_bytes());
        let number = decimal_digits(event_data.sold_tickets);
        append_bytes(&mut name, number.as_slice());

        let mut attributes: Vec<u8> = Vec::new();
        append_bytes(&mut attributes, ATTRIBUTES_PREFIX.as_bytes());
        append_bytes(&mut attributes, event_data.name.as_slice());

        let mut uri: Vec<u8> = Vec::new();
        append_bytes(&mut uri, TICKET_URI.as_bytes());
        let mut uris: Vec<Vec<u8>> = Vec::new();
        uris.push(uri);
        assert(uris@.map_values(|uri: Vec<u8>| uri@) =~= seq![ticket_uri()]);

        self.event_info = Some(event_data);
        Ok(
            MintRequest {
                token_identifier,
                amount: Amount::from_u64(AMOUNT_TO_MINT),
                name,
                royalties: Amount::from_u64(ROYALTIES as u64),
                hash: Vec::new(),
                attributes,
                uris,
            },
        )
    }

    /// The event, or the empty form where none is recorded.
    pub fn get_event_info(&self) -> (info: EventInfo)
        ensures
            info@ == self@.event_or_empty(),
    {
        match &self.event_info {
            Some(info) => info.clone(),
            None => EventInfo::empty(),
        }
    }

    /// The ticket price, or zero where none is recorded.
    pub fn get_ticket_price(&self) -> (price: Amount)
        ensures
            price@ == self@.price_or_zero(),
    {
        match &self.ticket_price {
            Some(price) => price.clone(),
            None => Amount::zero(),
        }
    }

    /// The identifier of the ticket-class token, or the empty identifier
    /// where none is recorded.
    pub fn get_nft_token_identifier(&self) -> (token: TokenIdentifier)
        ensures
            token@ == self@.token_or_empty(),
    {
        match &self.nft_token_identifier {
            Some(token) => token.clone(),
            None => TokenIdentifier::empty(),
        }
    }
}

} // verus!

//! What holds of the sale whatever the inputs are, proved from the rules that
//! the operations are verified against.

use crate::decimal::{decimal_text, law_decimal_injective};
use crate::error::SaleError;
use crate::records::{EventInfoView, Phase, Records};
use crate::requests::{ticket_separator, IssueOutcomeView, Recipient, TokenPaymentView};
use crate::rules::{
    balance_after_withdraw, issue_refunds, issue_step, mint_request, purchase_rejection,
    purchase_step, setup_rejection, setup_step, ticket_name, withdraw_rejection, withdrawal,
};
use vstd::prelude::*;

verus! {

/// An accepted setup records exactly the terms it was given: the price, the
/// event under its name with its capacity and no ticket sold. The token stays
/// absent, so the sale is well formed and waits for the issuance.
pub proof fn law_setup_records_terms(
    records: Records,
    event_name: Seq<u8>,
    price: nat,
    total_tickets: u64,
)
    requires
        setup_rejection(records, true, price, total_tickets) is None,
    ensures
        price > 0 && total_tickets > 0 && records.token is None,
        ({
            let next = setup_step(records, true, event_name, price, total_tickets);
            &&& next.ticket_price == Some(price)
            &&& next.event_info == Some(
                EventInfoView { name: event_name, total_tickets: total_tickets, sold_tickets: 0 },
            )
            &&& next.token is None
            &&& next.wf()
            &&& next.phase() == Phase::IssuancePending
        }),
{
}

/// The setup is accepted exactly when the owner calls it before the token is
/// issued, with a positive price and at least one ticket.
pub proof fn law_setup_acceptance(
    records: Records,
    caller_is_owner: bool,
    price: nat,
    total_tickets: u64,
)
    ensures
        setup_rejection(records, caller_is_owner, price, total_tickets) is None <==> (
        caller_is_owner && records.token is None && price > 0 && total_tickets > 0),
{
}

/// Once the token is there, no setup is accepted and none changes a record:
/// the owner is told that the sale is initialized already, anyone else that
/// the call is not theirs to make.
pub proof fn law_setup_happens_once(
    records: Records,
    caller_is_owner: bool,
    event_name: Seq<u8>,
    price: nat,
    total_tickets: u64,
)
    requires
        records.token is Some,
    ensures
        setup_rejection(records, caller_is_owner, price, total_tickets) == Some(
            if caller_is_owner {
                SaleError::AlreadyInitialized
            } else {
                SaleError::Unauthorized
            },
        ),
        setup_step(records, caller_is_owner, event_name, price, total_tickets) == records,
{
}

/// When the owner's continuation reports the token, the token is recorded
/// and the event and the price are what they were. From a well-formed sale
/// that waited for the issuance this opens the sale.
pub proof fn law_issuance_success(records: Records, token: Seq<u8>)
    ensures
        ({
            let next = issue_step(records, true, IssueOutcomeView::Issued(token));
            &&& next.token == Some(token)
            &&& next.event_info == records.event_info
            &&& next.ticket_price == records.ticket_price
            &&& records.wf() && records.phase() == Phase::IssuancePending ==> next.wf()
                && next.phase() == Phase::OnSale
        }),
        issue_refunds(IssueOutcomeView::Issued(token)).len() == 0,
{
}

/// When the owner's continuation reports a failure, the event and the price
/// are cleared and the token record is not touched: a sale that waited for
/// the issuance is back where it was before the setup, with every record
/// absent. Whatever came back, be it nothing at all, is refunded: one transfer
/// to the owner for each payment, of the same token, serial number and
/// quantity, in the same order.
pub proof fn law_issuance_failure(records: Records, returned: Seq<TokenPaymentView>)
    ensures
        ({
            let next = issue_step(records, true, IssueOutcomeView::Failed(returned));
            &&& next.event_info is None
            &&& next.ticket_price is None
            &&& next.token == records.token
            &&& records.token is None ==> next == Records::empty() && next.wf() && next.phase()
                == Phase::Uninitialized
        }),
        ({
            let transfers = issue_refunds(IssueOutcomeView::Failed(returned));
            &&& transfers.len() == returned.len()
            &&& forall|i: int|
                0 <= i < returned.len() ==> {
                    &&& (#[trigger] transfers[i]).to == Recipient::Owner
                    &&& transfers[i].token_identifier == returned[i].token_identifier
                    &&& transfers[i].token_nonce == returned[i].token_nonce
                    &&& transfers[i].amount == returned[i].amount
                }
        }),
{
}

/// A continuation that anyone but the owner calls changes nothing.
pub proof fn law_issuance_owner_only(records: Records, result: IssueOutcomeView)
    ensures
        issue_step(records, false, result) == records,
{
}

/// A purchase is accepted exactly when the token is there, the payment is the
/// price, and a ticket is left.
pub proof fn law_purchase_acceptance(records: Records, payment: nat)
    ensures
        purchase_rejection(records, payment) is None <==> ({
            &&& records.token is Some
            &&& payment == records.price_or_zero()
            &&& records.event_or_empty().sold_tickets < records.event_or_empty().total_tickets
        }),
{
}

/// Before the token is recorded nothing can be bought, whatever is paid.
pub proof fn law_no_sale_before_issuance(records: Records, payment: nat)
    requires
        records.token is None,
    ensures
        purchase_rejection(records, payment) == Some(SaleError::NotReady),
        purchase_step(records, payment) == records,
{
}

/// On an issued sale, any payment other than the price is refused as a
/// mismatch, and no ticket is counted as sold.
pub proof fn law_payment_must_match(records: Records, payment: nat)
    requires
        records.token is Some,
        payment != records.price_or_zero(),
    ensures
        purchase_rejection(records, payment) == Some(SaleError::PaymentMismatch),
        purchase_step(records, payment) == records,
{
}

/// When as many tickets are sold as exist, the next purchase at the right
/// price is refused as sold out, and the count stays at the capacity.
pub proof fn law_sold_out(records: Records)
    requires
        records.token is Some,
        records.event_or_empty().sold_tickets == records.event_or_empty().total_tickets,
    ensures
        purchase_rejection(records, records.price_or_zero()) == Some(SaleError::SoldOut),
        purchase_step(records, records.price_or_zero()) == records,
        purchase_step(records, records.price_or_zero()).event_or_empty().sold_tickets
            == records.event_or_empty().total_tickets,
{
}

/// An accepted purchase sells exactly one ticket: the count goes up by one
/// and stays within the capacity, one unit is minted, and its name carries the
/// new count. Nothing else in the ledger changes, and a well-formed sale stays
/// well formed.
pub proof fn law_purchase_sells_one(records: Records, payment: nat)
    requires
        purchase_rejection(records, payment) is None,
    ensures
        payment == records.price_or_zero(),
        ({
            let before = records.event_or_empty();
            let next = purchase_step(records, payment);
            &&& next.event_or_empty().sold_tickets == before.sold_tickets + 1
            &&& next.event_or_empty().sold_tickets <= before.total_tickets
            &&& next.event_or_empty().name == before.name
            &&& next.event_or_empty().total_tickets == before.total_tickets
            &&& next.ticket_price == records.ticket_price
            &&& next.token == records.token
            &&& mint_request(records).amount == 1
            &&& mint_request(records).name == ticket_name(
                before.name,
                next.event_or_empty().sold_tickets as nat,
            )
            &&& records.wf() ==> next.wf()
        }),
{
}

/// Tickets are sold only while the sale is on. An accepted purchase finds a
/// well-formed sale on sale and leaves it on sale, or sold out where the
/// ticket was the last one. A sale that is sold out stays as it is, whatever
/// purchase or setup is tried on it.
pub proof fn law_purchase_phases(
    records: Records,
    payment: nat,
    caller_is_owner: bool,
    event_name: Seq<u8>,
    price: nat,
    total_tickets: u64,
)
    requires
        records.wf(),
    ensures
        purchase_rejection(records, payment) is None ==> ({
            &&& records.phase() == Phase::OnSale
            &&& purchase_step(records, payment).phase() == (if records.event_or_empty().sold_tickets
                + 1 == records.event_or_empty().total_tickets {
                Phase::SoldOut
            } else {
                Phase::OnSale
            })
        }),
        records.phase() == Phase::OnSale ==> (purchase_rejection(records, payment) is None <==> payment
            == records.price_or_zero()),
        records.phase() == Phase::SoldOut ==> ({
            &&& purchase_step(records, payment) == records
            &&& setup_step(records, caller_is_owner, event_name, price, total_tickets) == records
        }),
{
}

/// The ledger after purchases with the given payments, made one after the
/// other. A purchase that is turned down changes nothing.
pub open spec fn after_purchases(records: Records, payments: Seq<nat>) -> Records
    decreases payments.len(),
{
    if payments.len() == 0 {
        records
    } else {
        purchase_step(after_purchases(records, payments.drop_last()), payments.last())
    }
}

/// What the purchases with the given payments bring in: the payment of each
/// one that is accepted. A purchase that is turned down is undone by the host
/// together with its payment.
pub open spec fn proceeds(records: Records, payments: Seq<nat>) -> nat
    decreases payments.len(),
{
    if payments.len() == 0 {
        0
    } else {
        let before = after_purchases(records, payments.drop_last());
        let earlier = proceeds(records, payments.drop_last());
        if purchase_rejection(before, payments.last()) is None {
            earlier + payments.last()
        } else {
            earlier
        }
    }
}

/// Every purchase of the sequence is accepted.
pub open spec fn all_accepted(records: Records, payments: Seq<nat>) -> bool {
    forall|i: int|
        0 <= i < payments.len() ==> purchase_rejection(
            #[trigger] after_purchases(records, payments.take(i)),
            payments[i],
        ) is None
}

/// Whatever purchases are tried, in whatever order and at whatever payment,
/// the name, the capacity, the price and the token never change, the count of
/// sold tickets never goes down, and what the purchases brought in is the
/// price times the number of tickets that they sold.
pub proof fn law_proceeds_match_sales(records: Records, payments: Seq<nat>)
    ensures
        ({
            let done = after_purchases(records, payments);
            let sold_before = records.event_or_empty().sold_tickets;
            let sold_after = done.event_or_empty().sold_tickets;
            &&& done.ticket_price == records.ticket_price
            &&& done.token == records.token
            &&& done.event_or_empty().name == records.event_or_empty().name
            &&& done.event_or_empty().total_tickets == records.event_or_empty().total_tickets
            &&& sold_before <= sold_after
            &&& sold_after - sold_before <= payments.len()
            &&& proceeds(records, payments) == (sold_after - sold_before)
                * records.price_or_zero()
            &&& records.wf() ==> done.wf()
        }),
    decreases payments.len(),
{
    if payments.len() > 0 {
        let earlier = payments.drop_last();
        law_proceeds_match_sales(records, earlier);
        let before = after_purchases(records, earlier);
        let price = records.price_or_zero();
        let sold_before = records.event_or_empty().sold_tickets;
        let sold_middle = before.event_or_empty().sold_tickets;
        if purchase_rejection(before, payments.last()) is None {
            law_purchase_sells_one(before, payments.last());
            assert((sold_middle + 1 - sold_before) * price == (sold_middle - sold_before) * price
                + price) by (nonlinear_arith);
        }
    }
}

/// A run of `n` purchases that are all accepted sells `n` tickets, which
/// therefore were left: afterwards the count is `n` higher and within the
/// capacity. The purchases
/// mint one unit each, named with the numbers that follow the earlier count
/// without a gap, and bring in `n` times the price. On a sale that has just
/// been opened the count is `n` and the tickets are numbered 1 to `n`.
pub proof fn law_accepted_purchases(records: Records, payments: Seq<nat>)
    requires
        all_accepted(records, payments),
    ensures
        ({
            let n = payments.len();
            let event = records.event_or_empty();
            let done = after_purchases(records, payments);
            &&& done.event_or_empty().sold_tickets == event.sold_tickets + n
            &&& n > 0 ==> event.sold_tickets + n <= event.total_tickets
            &&& proceeds(records, payments) == n * records.price_or_zero()
            &&& forall|i: int|
                0 <= i < n ==> {
                    let request = mint_request(#[trigger] after_purchases(records, payments.take(i)));
                    &&& payments[i] == records.price_or_zero()
                    &&& request.amount == 1
                    &&& request.name == ticket_name(event.name, (event.sold_tickets + i + 1) as nat)
                }
        }),
    decreases payments.len(),
{
    let n = payments.len();
    if n > 0 {
        let earlier = payments.drop_last();
        assert forall|i: int| 0 <= i < earlier.len() implies purchase_rejection(
            #[trigger] after_purchases(records, earlier.take(i)),
            earlier[i],
        ) is None by {
            assert(earlier.take(i) =~= payments.take(i));
        }
        law_accepted_purchases(records, earlier);
        law_proceeds_match_sales(records, earlier);
        let before = after_purchases(records, earlier);
        assert(payments.take(n - 1) =~= earlier);
        assert(purchase_rejection(before, payments.last()) is None);
        law_purchase_sells_one(before, payments.last());
        let price = records.price_or_zero();
        assert(n * price == (n - 1) * price + price) by (nonlinear_arith);
        let event = records.event_or_empty();
        assert forall|i: int| 0 <= i < n implies ({
            let request = mint_request(#[trigger] after_purchases(records, payments.take(i)));
            &&& payments[i] == price
            &&& request.amount == 1
            &&& request.name == ticket_name(event.name, (event.sold_tickets + i + 1) as nat)
        }) by {
            if i < n - 1 {
                assert(earlier.take(i) =~= payments.take(i));
            }
        }
    }
}

/// On a sale that has just been opened, `n` purchases that are all accepted
/// leave the count at `n`, which is within the capacity, number the tickets
/// from 1 to `n` in the order of the purchases, and bring in `n` times the
/// price.
pub proof fn law_first_tickets_are_one_to_n(records: Records, payments: Seq<nat>)
    requires
        records.event_or_empty().sold_tickets == 0,
        all_accepted(records, payments),
    ensures
        ({
            let n = payments.len();
            let event = records.event_or_empty();
            &&& after_purchases(records, payments).event_or_empty().sold_tickets == n
            &&& n <= event.total_tickets
            &&& proceeds(records, payments) == n * records.price_or_zero()
            &&& forall|i: int|
                0 <= i < n ==> mint_request(
                    #[trigger] after_purchases(records, payments.take(i)),
                ).name == ticket_name(event.name, (i + 1) as nat)
        }),
{
    law_accepted_purchases(records, payments);
}

/// Two tickets of one event have the same name only if they have the same
/// number.
pub proof fn law_ticket_names_differ(event_name: Seq<u8>, first: nat, second: nat)
    requires
        ticket_name(event_name, first) == ticket_name(event_name, second),
    ensures
        first == second,
{
    let prefix = event_name + ticket_separator();
    let a = prefix + decimal_text(first);
    let b = prefix + decimal_text(second);
    assert(decimal_text(first) =~= a.subrange(prefix.len() as int, a.len() as int));
    assert(decimal_text(second) =~= b.subrange(prefix.len() as int, b.len() as int));
    law_decimal_injective(first, second);
}

/// A withdrawal by anyone but the owner is refused and moves nothing. The
/// owner is refused when the balance is zero. Otherwise the owner is sent the
/// whole balance, and none is left in the contract.
pub proof fn law_withdraw(caller_is_owner: bool, balance: nat)
    ensures
        !caller_is_owner ==> withdraw_rejection(caller_is_owner, balance) == Some(
            SaleError::Unauthorized,
        ) && balance_after_withdraw(caller_is_owner, balance) == balance,
        caller_is_owner && balance == 0 ==> withdraw_rejection(caller_is_owner, balance) == Some(
            SaleError::NothingToWithdraw,
        ) && balance_after_withdraw(caller_is_owner, balance) == 0,
        caller_is_owner && balance > 0 ==> ({
            &&& withdraw_rejection(caller_is_owner, balance) is None
            &&& withdrawal(balance).amount == balance
            &&& withdrawal(balance).to == Recipient::Owner
            &&& balance_after_withdraw(caller_is_owner, balance) == 0
        }),
{
}

} // verus!

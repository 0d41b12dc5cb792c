use ticketr::amount::Amount;
use ticketr::contract::TicketSaleContract;
use ticketr::error::SaleError;
use ticketr::records::{EventInfo, TokenIdentifier};
use ticketr::requests::{IssueOutcome, Recipient, TokenTransfer};

const URI: &[u8] =
    b"https://drive.google.com/file/d/1d5RbY7tUg3MT8ryb1pgKtSoi1LjUlyCa/view?usp=sharing";

fn open_sale(name: &[u8], price: u64, total_tickets: u64) -> TicketSaleContract {
    let mut sale = TicketSaleContract::init();
    sale.setup_event(true, name.to_vec(), Amount::from_u64(price), total_tickets, Amount::zero())
        .unwrap();
    sale.issue_callback(true, IssueOutcome::Issued(TokenIdentifier::from_bytes(b"TICKET-ABCD")))
        .unwrap();
    sale
}

fn sale_with(sold_tickets: u64, total_tickets: u64) -> TicketSaleContract {
    TicketSaleContract::from_records(
        Some(EventInfo { name: b"Summer Fest".to_vec(), total_tickets, sold_tickets }),
        Some(Amount::from_u64(100)),
        Some(TokenIdentifier::from_bytes(b"TICKET-ABCD")),
    )
}

#[test]
fn nothing_is_sold_before_the_setup() {
    let mut sale = TicketSaleContract::init();
    assert_eq!(sale.buy_ticket(&Amount::from_u64(100)), Err(SaleError::NotReady));
    assert_eq!(sale.buy_ticket(&Amount::zero()), Err(SaleError::NotReady));
    assert_eq!(sale, TicketSaleContract::init());
}

#[test]
fn nothing_is_sold_while_the_issuance_is_pending() {
    let mut sale = TicketSaleContract::init();
    sale.setup_event(true, b"Fest".to_vec(), Amount::from_u64(100), 2, Amount::zero()).unwrap();
    assert_eq!(sale.buy_ticket(&Amount::from_u64(100)), Err(SaleError::NotReady));
    assert_eq!(sale.get_event_info().sold_tickets, 0);
}

#[test]
fn a_purchase_counts_one_ticket_and_asks_for_one_unit() {
    let mut sale = open_sale(b"Fest", 100, 2);
    let request = sale.buy_ticket(&Amount::from_u64(100)).unwrap();
    assert_eq!(sale.get_event_info().sold_tickets, 1);
    assert_eq!(request.token_identifier, TokenIdentifier::from_bytes(b"TICKET-ABCD"));
    assert_eq!(request.amount, Amount::from_u64(1));
    assert_eq!(request.name, b"Fest Ticket #1".to_vec());
    assert_eq!(request.royalties, Amount::zero());
    assert_eq!(request.hash, Vec::<u8>::new());
    assert_eq!(request.attributes, b"type:ticket;event:Fest".to_vec());
    assert_eq!(request.uris, vec![URI.to_vec()]);
}

#[test]
fn a_purchase_changes_nothing_but_the_count() {
    let mut sale = open_sale(b"Fest", 100, 2);
    sale.buy_ticket(&Amount::from_u64(100)).unwrap();
    assert_eq!(
        sale,
        TicketSaleContract::from_records(
            Some(EventInfo { name: b"Fest".to_vec(), total_tickets: 2, sold_tickets: 1 }),
            Some(Amount::from_u64(100)),
            Some(TokenIdentifier::from_bytes(b"TICKET-ABCD")),
        )
    );
}

#[test]
fn the_ticket_is_named_with_the_count_after_the_sale() {
    let mut sale = sale_with(36, 50);
    let request = sale.buy_ticket(&Amount::from_u64(100)).unwrap();
    assert_eq!(request.name, b"Summer Fest Ticket #37".to_vec());
    assert_eq!(request.attributes, b"type:ticket;event:Summer Fest".to_vec());
    assert_eq!(sale.get_event_info().sold_tickets, 37);
}

#[test]
fn the_number_in_the_name_has_no_leading_zeros() {
    let mut sale = sale_with(99, 1000);
    assert_eq!(
        sale.buy_ticket(&Amount::from_u64(100)).unwrap().name,
        b"Summer Fest Ticket #100".to_vec()
    );
    let mut sale = sale_with(u64::MAX - 1, u64::MAX);
    assert_eq!(
        sale.buy_ticket(&Amount::from_u64(100)).unwrap().name,
        b"Summer Fest Ticket #18446744073709551615".to_vec()
    );
    assert_eq!(sale.get_event_info().sold_tickets, u64::MAX);
}

#[test]
fn an_event_without_a_name_still_numbers_its_tickets() {
    let mut sale = open_sale(b"", 1, 1);
    let request = sale.buy_ticket(&Amount::from_u64(1)).unwrap();
    assert_eq!(request.name, b" Ticket #1".to_vec());
    assert_eq!(request.attributes, b"type:ticket;event:".to_vec());
}

#[test]
fn n_purchases_sell_tickets_one_to_n() {
    let total: u64 = 25;
    let mut sale = open_sale(b"Fest", 100, total);
    let mut balance: u64 = 0;
    let mut minted: u64 = 0;
    for number in 1..=total {
        let request = sale.buy_ticket(&Amount::from_u64(100)).unwrap();
        balance += 100;
        minted += 1;
        assert_eq!(request.amount, Amount::from_u64(1));
        assert_eq!(request.name, format!("Fest Ticket #{}", number).into_bytes());
        assert_eq!(sale.get_event_info().sold_tickets, number);
        assert_eq!(balance, number * 100);
        assert_eq!(minted, sale.get_event_info().sold_tickets);
    }
    assert_eq!(sale.get_event_info().sold_tickets, total);
    assert_eq!(sale.buy_ticket(&Amount::from_u64(100)), Err(SaleError::SoldOut));
}

#[test]
fn an_underpayment_is_a_mismatch() {
    let mut sale = open_sale(b"Fest", 100, 2);
    assert_eq!(sale.buy_ticket(&Amount::from_u64(99)), Err(SaleError::PaymentMismatch));
    assert_eq!(sale.buy_ticket(&Amount::zero()), Err(SaleError::PaymentMismatch));
    assert_eq!(sale.get_event_info().sold_tickets, 0);
}

#[test]
fn an_overpayment_is_a_mismatch() {
    let mut sale = open_sale(b"Fest", 100, 2);
    assert_eq!(sale.buy_ticket(&Amount::from_u64(101)), Err(SaleError::PaymentMismatch));
    assert_eq!(sale.buy_ticket(&Amount::from_u64(200)), Err(SaleError::PaymentMismatch));
    assert_eq!(
        sale.buy_ticket(&Amount::from_be_bytes(&[1, 0, 0, 0, 0, 0, 0, 0, 100])),
        Err(SaleError::PaymentMismatch)
    );
    assert_eq!(sale.get_event_info().sold_tickets, 0);
    assert_eq!(sale, open_sale(b"Fest", 100, 2));
}

#[test]
fn a_huge_price_must_be_paid_to_the_last_unit() {
    let mut bytes = [0xabu8; 20];
    let price = Amount::from_be_bytes(&bytes);
    let mut sale = TicketSaleContract::from_records(
        Some(EventInfo { name: b"Fest".to_vec(), total_tickets: 3, sold_tickets: 0 }),
        Some(price.clone()),
        Some(TokenIdentifier::from_bytes(b"TICKET-ABCD")),
    );
    bytes[19] = 0xac;
    assert_eq!(sale.buy_ticket(&Amount::from_be_bytes(&bytes)), Err(SaleError::PaymentMismatch));
    assert!(sale.buy_ticket(&price).is_ok());
}

#[test]
fn a_mismatch_is_reported_before_sold_out() {
    let mut sale = sale_with(5, 5);
    assert_eq!(sale.buy_ticket(&Amount::from_u64(1)), Err(SaleError::PaymentMismatch));
    assert_eq!(sale.buy_ticket(&Amount::from_u64(100)), Err(SaleError::SoldOut));
    assert_eq!(sale, sale_with(5, 5));
}

#[test]
fn the_last_ticket_is_sold_and_the_next_purchase_is_refused() {
    let mut sale = sale_with(4, 5);
    assert_eq!(
        sale.buy_ticket(&Amount::from_u64(100)).unwrap().name,
        b"Summer Fest Ticket #5".to_vec()
    );
    assert_eq!(sale.buy_ticket(&Amount::from_u64(100)), Err(SaleError::SoldOut));
    assert_eq!(sale.buy_ticket(&Amount::from_u64(100)), Err(SaleError::SoldOut));
    assert_eq!(sale.get_event_info().sold_tickets, 5);
}

#[test]
fn an_absent_price_counts_as_zero_and_an_absent_event_as_sold_out() {
    let token = TokenIdentifier::from_bytes(b"TICKET-ABCD");
    let mut sale = TicketSaleContract::from_records(None, None, Some(token.clone()));
    assert_eq!(sale.buy_ticket(&Amount::from_u64(1)), Err(SaleError::PaymentMismatch));
    assert_eq!(sale.buy_ticket(&Amount::zero()), Err(SaleError::SoldOut));
    assert_eq!(sale, TicketSaleContract::from_records(None, None, Some(token)));
}

#[test]
fn the_minted_unit_goes_to_the_caller_under_the_serial_number_of_the_mint() {
    let mut sale = sale_with(36, 50);
    let request = sale.buy_ticket(&Amount::from_u64(100)).unwrap();
    assert_eq!(
        request.delivery(4),
        TokenTransfer {
            to: Recipient::Caller,
            token_identifier: TokenIdentifier::from_bytes(b"TICKET-ABCD"),
            token_nonce: 4,
            amount: Amount::from_u64(1),
        }
    );
    assert_eq!(request.delivery(u64::MAX).token_nonce, u64::MAX);
}

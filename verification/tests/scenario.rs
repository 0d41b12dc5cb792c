use ticketr::amount::Amount;
use ticketr::contract::TicketSaleContract;
use ticketr::error::SaleError;
use ticketr::records::{Phase, TokenIdentifier};
use ticketr::requests::{IssueOutcome, MintRequest, Recipient, TokenTransfer};

/// One unit series that the stand-in ledger has minted.
struct Minted {
    nonce: u64,
    name: Vec<u8>,
    holder: &'static str,
    quantity: Amount,
}

/// A stand-in for the ledger: it keeps the contract's native balance, mints
/// under serial numbers of its own, and carries out transfers.
struct Ledger {
    sale: TicketSaleContract,
    balance: u64,
    next_nonce: u64,
    minted: Vec<Minted>,
    paid_out: Vec<(&'static str, u64)>,
}

const OWNER: &str = "owner";

impl Ledger {
    fn new() -> Ledger {
        Ledger {
            sale: TicketSaleContract::init(),
            balance: 0,
            next_nonce: 11,
            minted: Vec::new(),
            paid_out: Vec::new(),
        }
    }

    fn mint(&mut self, request: &MintRequest) -> u64 {
        let nonce = self.next_nonce;
        self.next_nonce += 3;
        self.minted.push(Minted {
            nonce,
            name: request.name.clone(),
            holder: "contract",
            quantity: request.amount.clone(),
        });
        nonce
    }

    fn send(&mut self, transfer: &TokenTransfer, caller: &'static str) {
        let unit = self.minted.iter_mut().find(|unit| unit.nonce == transfer.token_nonce).unwrap();
        assert_eq!(unit.quantity, transfer.amount);
        unit.holder = match transfer.to {
            Recipient::Caller => caller,
            Recipient::Owner => OWNER,
        };
    }

    fn buy_ticket(&mut self, caller: &'static str, payment: u64) -> Result<(), SaleError> {
        let request = self.sale.buy_ticket(&Amount::from_u64(payment))?;
        self.balance += payment;
        let nonce = self.mint(&request);
        let transfer = request.delivery(nonce);
        self.send(&transfer, caller);
        Ok(())
    }

    fn withdraw(&mut self, caller: &'static str) -> Result<(), SaleError> {
        let transfer = self.sale.withdraw(caller == OWNER, Amount::from_u64(self.balance))?;
        assert_eq!(transfer.to, Recipient::Owner);
        assert_eq!(transfer.amount, Amount::from_u64(self.balance));
        self.paid_out.push((OWNER, self.balance));
        self.balance = 0;
        Ok(())
    }

    fn held_by(&self, holder: &str) -> Vec<Vec<u8>> {
        self.minted.iter().filter(|unit| unit.holder == holder).map(|unit| unit.name.clone()).collect()
    }
}

#[test]
fn fest_sells_two_tickets_and_then_is_sold_out() {
    let mut ledger = Ledger::new();
    let request = ledger
        .sale
        .setup_event(true, b"Fest".to_vec(), Amount::from_u64(100), 2, Amount::from_u64(50))
        .unwrap();
    assert_eq!(request.issue_cost, Amount::from_u64(50));
    assert!(ledger.sale.nft_token_identifier().is_none());

    let refunds = ledger
        .sale
        .issue_callback(true, IssueOutcome::Issued(TokenIdentifier::from_bytes(b"TICKET-ABCD")))
        .unwrap();
    assert!(refunds.is_empty());
    assert_eq!(ledger.sale.get_nft_token_identifier().to_bytes(), b"TICKET-ABCD".to_vec());

    assert_eq!(ledger.buy_ticket("X", 100), Ok(()));
    assert_eq!(ledger.sale.get_event_info().sold_tickets, 1);
    assert_eq!(ledger.held_by("X"), vec![b"Fest Ticket #1".to_vec()]);
    assert_eq!(ledger.minted[0].quantity, Amount::from_u64(1));

    assert_eq!(ledger.buy_ticket("Y", 100), Ok(()));
    assert_eq!(ledger.sale.get_event_info().sold_tickets, 2);
    assert_eq!(ledger.held_by("Y"), vec![b"Fest Ticket #2".to_vec()]);
    assert_eq!(ledger.held_by("X"), vec![b"Fest Ticket #1".to_vec()]);

    assert_eq!(ledger.buy_ticket("Z", 100), Err(SaleError::SoldOut));
    assert_eq!(ledger.sale.get_event_info().sold_tickets, 2);
    assert!(ledger.held_by("Z").is_empty());
    assert_eq!(ledger.minted.len(), 2);
}

#[test]
fn the_ticket_number_is_not_the_serial_number_of_the_mint() {
    let mut ledger = Ledger::new();
    ledger
        .sale
        .setup_event(true, b"Fest".to_vec(), Amount::from_u64(100), 3, Amount::zero())
        .unwrap();
    ledger
        .sale
        .issue_callback(true, IssueOutcome::Issued(TokenIdentifier::from_bytes(b"TICKET-ABCD")))
        .unwrap();
    ledger.buy_ticket("X", 100).unwrap();
    ledger.buy_ticket("Y", 100).unwrap();
    assert_eq!(ledger.minted[0].nonce, 11);
    assert_eq!(ledger.minted[0].name, b"Fest Ticket #1".to_vec());
    assert_eq!(ledger.minted[1].nonce, 14);
    assert_eq!(ledger.minted[1].name, b"Fest Ticket #2".to_vec());
}

#[test]
fn the_balance_is_the_price_times_the_tickets_sold() {
    let mut ledger = Ledger::new();
    ledger
        .sale
        .setup_event(true, b"Fest".to_vec(), Amount::from_u64(7), 10, Amount::zero())
        .unwrap();
    ledger
        .sale
        .issue_callback(true, IssueOutcome::Issued(TokenIdentifier::from_bytes(b"TICKET-ABCD")))
        .unwrap();
    let payments = [7u64, 6, 7, 8, 0, 7, 7, 70, 7, 7, 7, 7, 7, 7, 7];
    let mut accepted = 0;
    for payment in payments {
        let outcome = ledger.buy_ticket("X", payment);
        if outcome.is_ok() {
            accepted += 1;
        } else if payment != 7 {
            assert_eq!(outcome, Err(SaleError::PaymentMismatch));
        } else {
            assert_eq!(outcome, Err(SaleError::SoldOut));
        }
        let sold = ledger.sale.get_event_info().sold_tickets;
        assert_eq!(sold, accepted);
        assert_eq!(ledger.balance, sold * 7);
        assert_eq!(ledger.minted.len() as u64, sold);
    }
    assert_eq!(accepted, 10);
    assert_eq!(ledger.balance, 70);
}

#[test]
fn the_owner_withdraws_the_proceeds_and_the_balance_is_empty() {
    let mut ledger = Ledger::new();
    ledger
        .sale
        .setup_event(true, b"Fest".to_vec(), Amount::from_u64(100), 2, Amount::zero())
        .unwrap();
    ledger
        .sale
        .issue_callback(true, IssueOutcome::Issued(TokenIdentifier::from_bytes(b"TICKET-ABCD")))
        .unwrap();
    assert_eq!(ledger.withdraw(OWNER), Err(SaleError::NothingToWithdraw));

    ledger.buy_ticket("X", 100).unwrap();
    ledger.buy_ticket("Y", 100).unwrap();
    assert_eq!(ledger.balance, 200);

    assert_eq!(ledger.withdraw("X"), Err(SaleError::Unauthorized));
    assert_eq!(ledger.balance, 200);
    assert!(ledger.paid_out.is_empty());

    assert_eq!(ledger.withdraw(OWNER), Ok(()));
    assert_eq!(ledger.balance, 0);
    assert_eq!(ledger.paid_out, vec![(OWNER, 200)]);

    assert_eq!(ledger.withdraw(OWNER), Err(SaleError::NothingToWithdraw));
    assert_eq!(ledger.balance, 0);
}

#[test]
fn a_rejected_issuance_rolls_the_sale_back_and_a_new_setup_opens_it() {
    let mut ledger = Ledger::new();
    ledger
        .sale
        .setup_event(true, b"Fest".to_vec(), Amount::from_u64(100), 2, Amount::from_u64(50))
        .unwrap();
    assert_eq!(ledger.buy_ticket("X", 100), Err(SaleError::NotReady));
    ledger.sale.issue_callback(true, IssueOutcome::Failed(Vec::new())).unwrap();
    assert_eq!(ledger.sale, TicketSaleContract::init());
    assert_eq!(ledger.buy_ticket("X", 100), Err(SaleError::NotReady));

    ledger
        .sale
        .setup_event(true, b"Fest".to_vec(), Amount::from_u64(100), 2, Amount::from_u64(50))
        .unwrap();
    ledger
        .sale
        .issue_callback(true, IssueOutcome::Issued(TokenIdentifier::from_bytes(b"TICKET-WXYZ")))
        .unwrap();
    assert_eq!(ledger.buy_ticket("X", 100), Ok(()));
    assert_eq!(ledger.held_by("X"), vec![b"Fest Ticket #1".to_vec()]);
}

#[test]
fn the_sale_goes_through_its_phases_in_order() {
    let mut sale = TicketSaleContract::init();
    assert_eq!(sale.phase(), Phase::Uninitialized);

    sale.setup_event(true, b"Fest".to_vec(), Amount::from_u64(100), 2, Amount::zero()).unwrap();
    assert_eq!(sale.phase(), Phase::IssuancePending);

    sale.issue_callback(true, IssueOutcome::Failed(Vec::new())).unwrap();
    assert_eq!(sale.phase(), Phase::Uninitialized);

    sale.setup_event(true, b"Fest".to_vec(), Amount::from_u64(100), 2, Amount::zero()).unwrap();
    sale.issue_callback(true, IssueOutcome::Issued(TokenIdentifier::from_bytes(b"TICKET-ABCD")))
        .unwrap();
    assert_eq!(sale.phase(), Phase::OnSale);

    sale.buy_ticket(&Amount::from_u64(100)).unwrap();
    assert_eq!(sale.phase(), Phase::OnSale);
    assert_eq!(sale.buy_ticket(&Amount::from_u64(99)), Err(SaleError::PaymentMismatch));
    assert_eq!(sale.phase(), Phase::OnSale);

    sale.buy_ticket(&Amount::from_u64(100)).unwrap();
    assert_eq!(sale.phase(), Phase::SoldOut);

    assert_eq!(sale.buy_ticket(&Amount::from_u64(100)), Err(SaleError::SoldOut));
    assert_eq!(
        sale.setup_event(true, b"Gala".to_vec(), Amount::from_u64(1), 1, Amount::zero()),
        Err(SaleError::AlreadyInitialized)
    );
    assert_eq!(sale.phase(), Phase::SoldOut);
}

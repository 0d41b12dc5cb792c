//! What the host hands to an operation beyond the records, and what an
//! operation asks the host to do.

use crate::amount::Amount;
use crate::records::TokenIdentifier;
use vstd::prelude::*;
use vstd::string::StringSliceAdditionalSpecFns;

verus! {

/// The identity that a transfer goes to. The host knows both addresses; the
/// library only says which of them is meant.
#[derive(Clone, Copy, Debug, PartialEq, Eq, Structural)]
pub enum Recipient {
    /// The owner of the contract.
    Owner,
    /// The identity that made the current call.
    Caller,
}

/// Tokens that arrived with a call: a token class, a serial number within
/// it, and a quantity.
#[derive(Debug, PartialEq, Eq)]
pub struct TokenPayment {
    pub token_identifier: TokenIdentifier,
    pub token_nonce: u64,
    pub amount: Amount,
}

/// A [`TokenPayment`] as a mathematical value.
pub struct TokenPaymentView {
    pub token_identifier: Seq<u8>,
    pub token_nonce: u64,
    pub amount: nat,
}

impl View for TokenPayment {
    type V = TokenPaymentView;

    open spec fn view(&self) -> TokenPaymentView {
        TokenPaymentView {
            token_identifier: self.token_identifier@,
            token_nonce: self.token_nonce,
            amount: self.amount@,
        }
    }
}

/// A request to send tokens to `to`.
#[derive(Debug, PartialEq, Eq)]
pub struct TokenTransfer {
    pub to: Recipient,
    pub token_identifier: TokenIdentifier,
    pub token_nonce: u64,
    pub amount: Amount,
}

/// A [`TokenTransfer`] as a mathematical value.
pub struct TokenTransferView {
    pub to: Recipient,
    pub token_identifier: Seq<u8>,
    pub token_nonce: u64,
    pub amount: nat,
}

impl View for TokenTransfer {
    type V = TokenTransferView;

    open spec fn view(&self) -> TokenTransferView {
        TokenTransferView {
            to: self.to,
            token_identifier: self.token_identifier@,
            token_nonce: self.token_nonce,
            amount: self.amount@,
        }
    }
}

/// A request to send native currency to `to`.
#[derive(Debug, PartialEq, Eq)]
pub struct NativeTransfer {
    pub to: Recipient,
    pub amount: Amount,
}

/// A [`NativeTransfer`] as a mathematical value.
pub struct NativeTransferView {
    pub to: Recipient,
    pub amount: nat,
}

impl View for NativeTransfer {
    type V = NativeTransferView;

    open spec fn view(&self) -> NativeTransferView {
        NativeTransferView { to: self.to, amount: self.amount@ }
    }
}

/// What the issuer of a token class allows to be done with it later.
#[derive(Clone, Copy, Debug, PartialEq, Eq, Structural)]
pub struct TokenProperties {
    pub can_freeze: bool,
    pub can_wipe: bool,
    pub can_pause: bool,
    pub can_transfer_create_role: bool,
    pub can_change_owner: bool,
    pub can_upgrade: bool,
    pub can_add_special_roles: bool,
}

/// The properties with which `multiversx_sc` starts a semi-fungible token
/// class: the value of `SemiFungibleTokenProperties::default()`, field by
/// field. The contract holds what that function's source shows: it sets every
/// one of the seven permissions. Verus takes this on trust.
#[verifier::external_body]
fn default_semi_fungible_properties() -> (properties: TokenProperties)
    ensures
        properties.can_freeze,
        properties.can_wipe,
        properties.can_pause,
        properties.can_transfer_create_role,
        properties.can_change_owner,
        properties.can_upgrade,
        properties.can_add_special_roles,
{
    let defaults = multiversx_sc::types::system_proxy::SemiFungibleTokenProperties::default();
    TokenProperties {
        can_freeze: defaults.can_freeze,
        can_wipe: defaults.can_wipe,
        can_pause: defaults.can_pause,
        can_transfer_create_role: defaults.can_transfer_create_role,
        can_change_owner: defaults.can_change_owner,
        can_upgrade: defaults.can_upgrade,
        can_add_special_roles: defaults.can_add_special_roles,
    }
}

impl TokenProperties {
    /// The properties of the ticket class: freezing, wiping and handing on
    /// the creation role are switched on, the others stay as the framework
    /// sets them for a new semi-fungible class.
    pub open spec fn ticket_class() -> TokenProperties {
        TokenProperties {
            can_freeze: true,
            can_wipe: true,
            can_pause: true,
            can_transfer_create_role: true,
            can_change_owner: true,
            can_upgrade: true,
            can_add_special_roles: true,
        }
    }

    /// Computes [`TokenProperties::ticket_class`].
    pub fn for_ticket_class() -> (properties: TokenProperties)
        ensures
            properties == TokenProperties::ticket_class(),
    {
        let mut properties = default_semi_fungible_properties();
        properties.can_freeze = true;
        properties.can_wipe = true;
        properties.can_transfer_create_role = true;
        properties
    }
}

/// The ticker of the ticket class, which is its display name too.
pub const TOKEN_TICKER: &'static str = "EVENTTICKET";

/// What stands between the event name and the ticket number in the name of a
/// ticket.
pub const TICKET_SEPARATOR: &'static str = " Ticket #";

/// What the attributes of a ticket start with; the event name follows.
pub const ATTRIBUTES_PREFIX: &'static str = "type:ticket;event:";

/// The one metadata address that every ticket of every event carries.
pub const TICKET_URI: &'static str =
    "https://drive.google.com/file/d/1d5RbY7tUg3MT8ryb1pgKtSoi1LjUlyCa/view?usp=sharing";

/// The bytes of [`TOKEN_TICKER`].
pub open spec fn token_ticker() -> Seq<u8> {
    TOKEN_TICKER.spec_bytes()
}

/// The bytes of [`TICKET_SEPARATOR`].
pub open spec fn ticket_separator() -> Seq<u8> {
    TICKET_SEPARATOR.spec_bytes()
}

/// The bytes of [`ATTRIBUTES_PREFIX`].
pub open spec fn attributes_prefix() -> Seq<u8> {
    ATTRIBUTES_PREFIX.spec_bytes()
}

/// The bytes of [`TICKET_URI`].
pub open spec fn ticket_uri() -> Seq<u8> {
    TICKET_URI.spec_bytes()
}

/// How many units one purchase mints and delivers.
pub const AMOUNT_TO_MINT: u64 = 1;

/// The royalties of a ticket.
pub const ROYALTIES: u32 = 0;

/// A request to issue a new semi-fungible token class, paying `issue_cost`
/// to the host.
#[derive(Debug, PartialEq, Eq)]
pub struct IssueRequest {
    pub issue_cost: Amount,
    pub token_display_name: Vec<u8>,
    pub token_ticker: Vec<u8>,
    pub properties: TokenProperties,
}

/// An [`IssueRequest`] as a mathematical value.
pub struct IssueRequestView {
    pub issue_cost: nat,
    pub token_display_name: Seq<u8>,
    pub token_ticker: Seq<u8>,
    pub properties: TokenProperties,
}

impl View for IssueRequest {
    type V = IssueRequestView;

    open spec fn view(&self) -> IssueRequestView {
        IssueRequestView {
            issue_cost: self.issue_cost@,
            token_display_name: self.token_display_name@,
            token_ticker: self.token_ticker@,
            properties: self.properties,
        }
    }
}

/// How the issuance of the ticket class ended.
#[derive(Debug, PartialEq, Eq)]
pub enum IssueOutcome {
    /// The class exists under this identifier.
    Issued(TokenIdentifier),
    /// The class was not issued; the host sent these tokens back.
    Failed(Vec<TokenPayment>),
}

/// An [`IssueOutcome`] as a mathematical value.
pub enum IssueOutcomeView {
    Issued(Seq<u8>),
    Failed(Seq<TokenPaymentView>),
}

impl View for IssueOutcome {
    type V = IssueOutcomeView;

    open spec fn view(&self) -> IssueOutcomeView {
        match self {
            IssueOutcome::Issued(token) => IssueOutcomeView::Issued(token@),
            IssueOutcome::Failed(returned) => IssueOutcomeView::Failed(payment_views(returned@)),
        }
    }
}

/// A request to mint units of a token class under a new serial number.
#[derive(Debug, PartialEq, Eq)]
pub struct MintRequest {
    pub token_identifier: TokenIdentifier,
    pub amount: Amount,
    pub name: Vec<u8>,
    pub royalties: Amount,
    pub hash: Vec<u8>,
    pub attributes: Vec<u8>,
    pub uris: Vec<Vec<u8>>,
}

/// A [`MintRequest`] as a mathematical value.
pub struct MintRequestView {
    pub token_identifier: Seq<u8>,
    pub amount: nat,
    pub name: Seq<u8>,
    pub royalties: nat,
    pub hash: Seq<u8>,
    pub attributes: Seq<u8>,
    pub uris: Seq<Seq<u8>>,
}

impl View for MintRequest {
    type V = MintRequestView;

    open spec fn view(&self) -> MintRequestView {
        MintRequestView {
            token_identifier: self.token_identifier@,
            amount: self.amount@,
            name: self.name@,
            royalties: self.royalties@,
            hash: self.hash@,
            attributes: self.attributes@,
            uris: self.uris@.map_values(|uri: Vec<u8>| uri@),
        }
    }
}

impl MintRequestView {
    /// The transfer that hands the minted units to the buyer, once the host
    /// has minted them under `nonce`.
    pub open spec fn delivery(self, nonce: u64) -> TokenTransferView {
        TokenTransferView {
            to: Recipient::Caller,
            token_identifier: self.token_identifier,
            token_nonce: nonce,
            amount: AMOUNT_TO_MINT as nat,
        }
    }
}

impl MintRequest {
    /// The transfer that follows the mint: one unit of the ticket class,
    /// under the serial number `nonce` that the host assigned, to the caller.
    pub fn delivery(&self, nonce: u64) -> (transfer: TokenTransfer)
        ensures
            transfer@ == self@.delivery(nonce),
    {
        TokenTransfer {
            to: Recipient::Caller,
            token_identifier: self.token_identifier.clone(),
            token_nonce: nonce,
            amount: Amount::from_u64(AMOUNT_TO_MINT),
        }
    }
}

/// The views of a list of payments, in order.
pub open spec fn payment_views(payments: Seq<TokenPayment>) -> Seq<TokenPaymentView> {
    payments.map_values(|payment: TokenPayment| payment@)
}

/// The views of a list of transfers, in order.
pub open spec fn transfer_views(transfers: Seq<TokenTransfer>) -> Seq<TokenTransferView> {
    transfers.map_values(|transfer: TokenTransfer| transfer@)
}

/// The transfer that sends a payment back to the owner.
pub open spec fn refund(payment: TokenPaymentView) -> TokenTransferView {
    TokenTransferView {
        to: Recipient::Owner,
        token_identifier: payment.token_identifier,
        token_nonce: payment.token_nonce,
        amount: payment.amount,
    }
}

/// One refund for each payment, in the same order.
pub open spec fn refunds(payments: Seq<TokenPaymentView>) -> Seq<TokenTransferView> {
    payments.map_values(|payment: TokenPaymentView| refund(payment))
}

/// The refunds that send every payment of `payments` back to the owner.
pub fn refund_all(payments: &Vec<TokenPayment>) -> (transfers: Vec<TokenTransfer>)
    ensures
        transfer_views(transfers@) == refunds(payment_views(payments@)),
{
    let mut transfers: Vec<TokenTransfer> = Vec::new();
    let mut i: usize = 0;
    while i < payments.len()
        invariant
            i <= payments.len(),
            transfers@.len() == i,
            forall|k: int| 0 <= k < i ==> (#[trigger] transfers@[k])@ == refund(payments@[k]@),
        decreases payments.len() - i,
    {
        let payment = &payments[i];
        transfers.push(
            TokenTransfer {
                to: Recipient::Owner,
                token_identifier: payment.token_identifier.clone(),
                token_nonce: payment.token_nonce,
                amount: payment.amount.clone(),
            },
        );
        i += 1;
    }
    assert(transfer_views(transfers@) =~= refunds(payment_views(payments@)));
    transfers
}

} // verus!

//! Lightning gateway core: the typed request payloads the webserver
//! feeds into the main loop, and the decision logic of the outgoing
//! payment and incoming HTLC flows as explicit state machines.
//!
//! The machines are pure: each step consumes the outcome of the one
//! outside action just performed (a federation-client call or the
//! Lightning-node RPC) and decides the next state and the next action.
//! The surrounding loop performs the actions; every decision here is
//! verified for every possible outcome.

use vstd::prelude::*;

use crate::modules::OutPoint;

verus! {

/// How many times a Lightning-node connection is attempted before a
/// hard error is surfaced.
pub const MAX_LIGHTNING_RETRIES: u32 = 10;

/// Identifies a federation within a gateway.
#[derive(Debug, Clone, PartialEq, Eq)]
pub struct FederationId(pub String);

/// An HTLC accepted by the Lightning node, reduced to what the gateway
/// reads: the payment hash and the amount.
#[derive(Debug, Clone, PartialEq, Eq)]
pub struct HtlcAccepted {
    /// 32-byte payment hash of the HTLC.
    pub payment_hash: Vec<u8>,
    /// Amount of the HTLC, in millisatoshi.
    pub amount_msat: u64,
}

/// Payload of a receive-invoice request: settle an accepted HTLC by
/// buying its preimage from the federation.
#[derive(Debug, Clone, PartialEq, Eq)]
pub struct ReceiveInvoicePayload {
    /// The accepted HTLC; the relevant federation is derived from it.
    pub htlc_accepted: HtlcAccepted,
}

/// Payload of a pay-invoice request.
#[derive(Debug, Clone, PartialEq, Eq)]
pub struct PayInvoicePayload {
    /// The federation the contract lives in.
    pub federation_id: FederationId,
    /// 32-byte id of the outgoing contract to pay.
    pub contract_id: Vec<u8>,
}

/// Payload of a balance request.
#[derive(Debug, Clone, PartialEq, Eq)]
pub struct BalancePayload {
    /// The federation whose balance is asked for.
    pub federation_id: FederationId,
}

/// Payload of a deposit-address request.
#[derive(Debug, Clone, PartialEq, Eq)]
pub struct DepositAddressPayload {
    /// The federation to deposit into.
    pub federation_id: FederationId,
}

/// Payload of a deposit request.
#[derive(Debug, Clone, PartialEq, Eq)]
pub struct DepositPayload {
    /// The federation to deposit into.
    pub federation_id: FederationId,
    /// Proof that the transaction output is confirmed on chain.
    pub txout_proof: Vec<u8>,
    /// The consensus-encoded bitcoin transaction.
    pub transaction: Vec<u8>,
}

/// Payload of a withdraw request.
#[derive(Debug, Clone, PartialEq, Eq)]
pub struct WithdrawPayload {
    /// The federation to withdraw from.
    pub federation_id: FederationId,
    /// Amount to withdraw, in satoshi.
    pub amount_sat: u64,
    /// The on-chain address to withdraw to.
    pub address: String,
}

/// A request handed from the webserver to the gateway main loop. The
/// loop drains these in FIFO order, interleaved with periodic
/// maintenance, and answers each on its own reply channel.
#[derive(Debug, Clone, PartialEq, Eq)]
pub enum GatewayRequest {
    /// Settle an accepted HTLC.
    ReceiveInvoice(ReceiveInvoicePayload),
    /// Pay an outgoing contract's invoice.
    PayInvoice(PayInvoicePayload),
    /// Report the federation balance.
    Balance(BalancePayload),
    /// Hand out a fresh peg-in address.
    DepositAddress(DepositAddressPayload),
    /// Peg funds into the federation.
    Deposit(DepositPayload),
    /// Peg funds out of the federation.
    Withdraw(WithdrawPayload),
}

/// Gateway-side error kinds.
#[derive(Debug, Clone, PartialEq, Eq)]
pub enum LnGatewayError {
    /// A federation client operation failed.
    ClientError(String),
    /// Our Lightning node could not route the payment.
    CouldNotRoute(String),
    /// A mint client operation failed.
    MintClientE(String),
    /// Any other failure.
    Other(String),
}

/// An outgoing contract account fetched from the federation.
#[derive(Debug, Clone, PartialEq, Eq)]
pub struct ContractAccount {
    /// 32-byte id of the contract.
    pub contract_id: Vec<u8>,
    /// The escrowed amount, in millisatoshi.
    pub amount_msat: u64,
    /// The bolt11 invoice to pay.
    pub invoice: String,
}

/// Payment parameters extracted by validating an outgoing contract.
#[derive(Debug, Clone, PartialEq, Eq)]
pub struct PaymentParameters {
    /// Maximum routing delay to allow.
    pub max_delay: u64,
    /// The invoice amount, in millisatoshi.
    pub invoice_amount: u64,
    /// The most the gateway may spend paying, in millisatoshi.
    pub max_send_amount: u64,
    /// 32-byte payment hash of the invoice.
    pub payment_hash: Vec<u8>,
    /// Whether the receiver might be in the same federation.
    pub maybe_internal: bool,
}

/// State of the internal preimage buy: offer to buy the preimage from
/// the federation, await its threshold decryption, and on decryption
/// failure request a refund before surfacing the error.
#[derive(Debug, Clone, PartialEq, Eq)]
pub enum BuyPreimageState {
    /// Offering to buy the preimage of `payment_hash` for
    /// `amount_msat`.
    Offering {
        /// The payment hash whose preimage is bought.
        payment_hash: Vec<u8>,
        /// The price offered, in millisatoshi.
        amount_msat: u64,
    },
    /// Awaiting the federation's decryption of the bought preimage.
    AwaitingDecryption {
        /// The incoming contract created by the offer.
        incoming_contract_id: Vec<u8>,
    },
    /// Requesting a refund of the incoming contract after a failed
    /// decryption; the original error is kept.
    Refunding {
        /// The decryption error to surface once the refund settles.
        error: LnGatewayError,
    },
    /// The preimage was acquired.
    Acquired {
        /// The decrypted preimage.
        preimage: Vec<u8>,
    },
    /// The buy failed; the refund, if owed, was already requested.
    Failed {
        /// The error surfaced.
        error: LnGatewayError,
    },
}

/// Outcome events the buy machine consumes.
#[derive(Debug, PartialEq, Eq)]
pub enum BuyPreimageEvent {
    /// Result of the buy-preimage offer: the offer outpoint and the
    /// incoming contract id, or the client error.
    Offered(Result<(OutPoint, Vec<u8>), String>),
    /// Result of awaiting the preimage decryption.
    Decrypted(Result<Vec<u8>, String>),
    /// Result of the refund request.
    Refunded(Result<(), String>),
}

/// The next outside action the buy machine asks for.
#[derive(Debug, PartialEq, Eq)]
pub enum BuyPreimageCommand {
    /// Offer to buy the preimage from the federation.
    OfferPreimage {
        /// The payment hash whose preimage is bought.
        payment_hash: Vec<u8>,
        /// The price offered, in millisatoshi.
        amount_msat: u64,
    },
    /// Await decryption of the bought preimage.
    AwaitDecryption {
        /// The outpoint of the accepted offer transaction.
        offer_outpoint: OutPoint,
    },
    /// Request a refund of the incoming contract.
    RefundIncoming {
        /// The incoming contract to refund.
        incoming_contract_id: Vec<u8>,
    },
    /// The machine is finished: hand the result to the caller.
    FinishBuy(Result<Vec<u8>, LnGatewayError>),
}

/// Whether two gateway errors are the same kind with the same message.
pub open spec fn spec_same_gateway_error(a: LnGatewayError, b: LnGatewayError) -> bool {
    match (a, b) {
        (LnGatewayError::ClientError(x), LnGatewayError::ClientError(y)) => x@ == y@,
        (LnGatewayError::CouldNotRoute(x), LnGatewayError::CouldNotRoute(y)) => x@ == y@,
        (LnGatewayError::MintClientE(x), LnGatewayError::MintClientE(y)) => x@ == y@,
        (LnGatewayError::Other(x), LnGatewayError::Other(y)) => x@ == y@,
        _ => false,
    }
}

/// Whether `cmd` is the outside action belonging to the buy state
/// `state`: the event that answers `cmd` is exactly the event the
/// state waits for.
pub open spec fn spec_buy_cmd_matches_state(state: BuyPreimageState, cmd: BuyPreimageCommand) -> bool {
    match cmd {
        BuyPreimageCommand::OfferPreimage { .. } => state is Offering,
        BuyPreimageCommand::AwaitDecryption { .. } => state is AwaitingDecryption,
        BuyPreimageCommand::RefundIncoming { .. } => state is Refunding,
        BuyPreimageCommand::FinishBuy(_) => false,
    }
}

/// Whether the event is the answer the buy state is waiting for.
pub open spec fn spec_buy_event_fits(state: BuyPreimageState, event: BuyPreimageEvent) -> bool {
    match state {
        BuyPreimageState::Offering { .. } => event is Offered,
        BuyPreimageState::AwaitingDecryption { .. } => event is Decrypted,
        BuyPreimageState::Refunding { .. } => event is Refunded,
        BuyPreimageState::Acquired { .. } => false,
        BuyPreimageState::Failed { .. } => false,
    }
}

/// Starts an internal preimage buy for an accepted HTLC: the preimage
/// of the HTLC's payment hash is bought for the HTLC's amount.
pub fn htlc_intercept_start(htlc: &HtlcAccepted) -> (r: (BuyPreimageState, BuyPreimageCommand))
    ensures
        r.0 matches BuyPreimageState::Offering { payment_hash, amount_msat } && payment_hash@
            == htlc.payment_hash@ && amount_msat == htlc.amount_msat,
        r.1 matches BuyPreimageCommand::OfferPreimage { payment_hash, amount_msat }
            && payment_hash@ == htlc.payment_hash@ && amount_msat == htlc.amount_msat,
{
    (
        BuyPreimageState::Offering {
            payment_hash: htlc.payment_hash.clone(),
            amount_msat: htlc.amount_msat,
        },
        BuyPreimageCommand::OfferPreimage {
            payment_hash: htlc.payment_hash.clone(),
            amount_msat: htlc.amount_msat,
        },
    )
}

/// One step of the internal preimage buy. A successful offer waits for
/// decryption; a decrypted preimage finishes successfully; a failed
/// decryption requests a refund first and then surfaces the original
/// error; any client failure surfaces as a client error.
pub fn buy_preimage_step(state: BuyPreimageState, event: BuyPreimageEvent) -> (r: (
    BuyPreimageState,
    BuyPreimageCommand,
))
    requires
        spec_buy_event_fits(state, event),
    ensures
        spec_buy_event_fits(state, event) ==> match (state, event) {
            (BuyPreimageState::Offering { .. }, BuyPreimageEvent::Offered(res)) => match res {
                Ok(p) => (r.0 matches BuyPreimageState::AwaitingDecryption {
                    incoming_contract_id,
                } && incoming_contract_id@ == p.1@) && (r.1 matches
                    BuyPreimageCommand::AwaitDecryption { offer_outpoint } && offer_outpoint.txid@
                    == p.0.txid@ && offer_outpoint.out_idx == p.0.out_idx),
                Err(m) => (r.0 matches BuyPreimageState::Failed { error } && (error matches
                    LnGatewayError::ClientError(t) && t@ == m@)) && (r.1 matches
                    BuyPreimageCommand::FinishBuy(fr) && (fr matches Err(e) && e matches
                    LnGatewayError::ClientError(t2) && t2@ == m@)),
            },
            (
                BuyPreimageState::AwaitingDecryption { incoming_contract_id },
                BuyPreimageEvent::Decrypted(res),
            ) => match res {
                Ok(preimage) => (r.0 matches BuyPreimageState::Acquired { preimage: p } && p@
                    == preimage@) && (r.1 matches BuyPreimageCommand::FinishBuy(fr) && (fr matches
                    Ok(p2) && p2@ == preimage@)),
                Err(m) => (r.0 matches BuyPreimageState::Refunding { error } && (error matches
                    LnGatewayError::ClientError(t) && t@ == m@)) && (r.1 matches
                    BuyPreimageCommand::RefundIncoming { incoming_contract_id: c } && c@
                    == incoming_contract_id@),
            },
            (BuyPreimageState::Refunding { error }, BuyPreimageEvent::Refunded(_)) => (
            r.0 matches BuyPreimageState::Failed { error: e } && spec_same_gateway_error(
                e,
                error,
            )) && (r.1 matches BuyPreimageCommand::FinishBuy(fr) && (fr matches Err(e2)
                && spec_same_gateway_error(e2, error))),
            _ => true,
        },
{
    match (state, event) {
        (BuyPreimageState::Offering { .. }, BuyPreimageEvent::Offered(res)) => match res {
            Ok((offer_outpoint, incoming_contract_id)) => (
                BuyPreimageState::AwaitingDecryption { incoming_contract_id },
                BuyPreimageCommand::AwaitDecryption { offer_outpoint },
            ),
            Err(m) => {
                let msg = m.clone();
                (
                    BuyPreimageState::Failed { error: LnGatewayError::ClientError(msg) },
                    BuyPreimageCommand::FinishBuy(Err(LnGatewayError::ClientError(m))),
                )
            },
        },
        (
            BuyPreimageState::AwaitingDecryption { incoming_contract_id },
            BuyPreimageEvent::Decrypted(res),
        ) => match res {
            Ok(preimage) => {
                let copy = preimage.clone();
                proof {
                    assert(copy@ =~= preimage@);
                }
                (
                    BuyPreimageState::Acquired { preimage: copy },
                    BuyPreimageCommand::FinishBuy(Ok(preimage)),
                )
            },
            Err(m) => {
                let msg = m.clone();
                (
                    BuyPreimageState::Refunding { error: LnGatewayError::ClientError(msg) },
                    BuyPreimageCommand::RefundIncoming { incoming_contract_id },
                )
            },
        },
        (BuyPreimageState::Refunding { error }, BuyPreimageEvent::Refunded(_)) => {
            let copy = clone_gateway_error(&error);
            (
                BuyPreimageState::Failed { error: copy },
                BuyPreimageCommand::FinishBuy(Err(error)),
            )
        },
        (s, _) => {
            proof {
                assert(false);
            }
            (s, BuyPreimageCommand::FinishBuy(Err(LnGatewayError::Other("".to_owned()))))
        },
    }
}

/// Copies a gateway error.
fn clone_gateway_error(e: &LnGatewayError) -> (r: LnGatewayError)
    ensures
        spec_same_gateway_error(r, *e),
{
    match e {
        LnGatewayError::ClientError(m) => LnGatewayError::ClientError(m.clone()),
        LnGatewayError::CouldNotRoute(m) => LnGatewayError::CouldNotRoute(m.clone()),
        LnGatewayError::MintClientE(m) => LnGatewayError::MintClientE(m.clone()),
        LnGatewayError::Other(m) => LnGatewayError::Other(m.clone()),
    }
}

/// State of one outgoing payment: fetch the contract, validate it,
/// save it locally, decide the internal or external route, acquire the
/// preimage, claim the contract; on a failed preimage acquisition abort
/// the contract before surfacing the original error.
#[derive(Debug, PartialEq, Eq)]
pub enum PayState {
    /// Fetching the outgoing contract account.
    Fetching {
        /// The contract being paid.
        contract_id: Vec<u8>,
    },
    /// Validating the fetched account.
    Validating {
        /// The contract being paid.
        contract_id: Vec<u8>,
        /// The fetched account.
        account: ContractAccount,
    },
    /// Persisting the account locally, best effort.
    Saving {
        /// The contract being paid.
        contract_id: Vec<u8>,
        /// The fetched account.
        account: ContractAccount,
        /// The validated payment parameters.
        params: PaymentParameters,
    },
    /// Asking the federation whether it holds an offer for the payment
    /// hash, to decide the internal route.
    CheckingOffer {
        /// The contract being paid.
        contract_id: Vec<u8>,
        /// The invoice to pay on the external route.
        invoice: String,
        /// The validated payment parameters.
        params: PaymentParameters,
    },
    /// Buying the preimage from the own federation.
    BuyingInternal {
        /// The contract being paid.
        contract_id: Vec<u8>,
        /// The embedded preimage-buy machine.
        buy: BuyPreimageState,
    },
    /// Paying the invoice over the Lightning network.
    PayingExternal {
        /// The contract being paid.
        contract_id: Vec<u8>,
    },
    /// Claiming the outgoing contract with the acquired preimage.
    Claiming {
        /// The contract being paid.
        contract_id: Vec<u8>,
        /// The acquired preimage.
        preimage: Vec<u8>,
    },
    /// Aborting the contract after a failed preimage acquisition; the
    /// original error is kept.
    Aborting {
        /// The contract being aborted.
        contract_id: Vec<u8>,
        /// The error to surface once the abort settles.
        error: LnGatewayError,
    },
    /// The contract was claimed.
    Done {
        /// The outpoint of the claim transaction.
        outpoint: OutPoint,
    },
    /// The payment failed.
    Failed {
        /// The error surfaced.
        error: LnGatewayError,
    },
}

/// Outcome events the payment machine consumes.
#[derive(Debug, PartialEq, Eq)]
pub enum PayEvent {
    /// Result of fetching the outgoing contract account.
    ContractFetched(Result<ContractAccount, String>),
    /// Result of validating the account.
    Validated(Result<PaymentParameters, String>),
    /// The local save completed (it is best effort and cannot fail).
    Saved,
    /// Result of the offer lookup; a lookup error counts as no offer.
    OfferChecked(Result<bool, String>),
    /// An outcome of the embedded preimage buy.
    Buy(BuyPreimageEvent),
    /// Result of paying the invoice over the Lightning network.
    ExternalPaid(Result<Vec<u8>, String>),
    /// Result of claiming the outgoing contract.
    Claimed(Result<OutPoint, String>),
    /// Result of aborting the contract.
    Aborted(Result<(), String>),
}

/// The next outside action the payment machine asks for.
#[derive(Debug, PartialEq, Eq)]
pub enum PayCommand {
    /// Fetch the outgoing contract account from the federation.
    FetchContract {
        /// The contract to fetch.
        contract_id: Vec<u8>,
    },
    /// Validate the account and extract the payment parameters.
    ValidateAccount {
        /// The account to validate.
        account: ContractAccount,
    },
    /// Save the account locally, best effort.
    SaveAccount {
        /// The account to save.
        account: ContractAccount,
    },
    /// Ask the federation whether an offer for the hash exists.
    CheckOffer {
        /// The payment hash to look up.
        payment_hash: Vec<u8>,
    },
    /// Drive the embedded preimage buy.
    Buy(BuyPreimageCommand),
    /// Pay the invoice over the Lightning network, within the fee
    /// headroom between the two amounts.
    PayExternal {
        /// The bolt11 invoice to pay.
        invoice: String,
        /// Maximum routing delay to allow.
        max_delay: u64,
        /// The invoice amount, in millisatoshi.
        invoice_amount: u64,
        /// The most the gateway may spend, in millisatoshi.
        max_send_amount: u64,
    },
    /// Claim the outgoing contract with the preimage.
    ClaimContract {
        /// The contract to claim.
        contract_id: Vec<u8>,
        /// The acquired preimage.
        preimage: Vec<u8>,
    },
    /// Abort the outgoing contract.
    AbortContract {
        /// The contract to abort.
        contract_id: Vec<u8>,
    },
    /// The machine is finished: hand the result to the caller.
    FinishPay(Result<OutPoint, LnGatewayError>),
}

/// Whether the event is the answer the payment state is waiting for.
pub open spec fn spec_pay_event_fits(state: PayState, event: PayEvent) -> bool {
    match state {
        PayState::Fetching { .. } => event is ContractFetched,
        PayState::Validating { .. } => event is Validated,
        PayState::Saving { .. } => event is Saved,
        PayState::CheckingOffer { .. } => event is OfferChecked,
        PayState::BuyingInternal { contract_id, buy } => match event {
            PayEvent::Buy(e) => spec_buy_event_fits(buy, e),
            _ => false,
        },
        PayState::PayingExternal { .. } => event is ExternalPaid,
        PayState::Claiming { .. } => event is Claimed,
        PayState::Aborting { .. } => event is Aborted,
        PayState::Done { .. } => false,
        PayState::Failed { .. } => false,
    }
}

/// Copies a contract account.
fn clone_account(a: &ContractAccount) -> (r: ContractAccount)
    ensures
        r.contract_id@ == a.contract_id@,
        r.amount_msat == a.amount_msat,
        r.invoice@ == a.invoice@,
{
    ContractAccount {
        contract_id: a.contract_id.clone(),
        amount_msat: a.amount_msat,
        invoice: a.invoice.clone(),
    }
}

/// Starts paying one outgoing contract.
pub fn pay_invoice_start(contract_id: &Vec<u8>) -> (r: (PayState, PayCommand))
    ensures
        r.0 matches PayState::Fetching { contract_id: c } && c@ == contract_id@,
        r.1 matches PayCommand::FetchContract { contract_id: c } && c@ == contract_id@,
{
    (
        PayState::Fetching { contract_id: contract_id.clone() },
        PayCommand::FetchContract { contract_id: contract_id.clone() },
    )
}

/// One step of the outgoing payment. Fetch and validation failures
/// surface directly; the internal route is taken exactly when the
/// parameters allow it and the federation holds the offer (a lookup
/// error counts as no offer); a failed preimage acquisition aborts the
/// contract and surfaces the original error, and a failed abort
/// surfaces the abort error instead; a claim yields the claim
/// outpoint. The abort is deliberately owed only for failures of the
/// preimage acquisition: before the contract is saved nothing was
/// committed, and a failed claim leaves the acquired preimage to be
/// retried rather than aborting a payable contract.
#[verifier::rlimit(60)]
pub fn pay_invoice_step(state: PayState, event: PayEvent) -> (r: (PayState, PayCommand))
    requires
        spec_pay_event_fits(state, event),
    ensures
        spec_pay_event_fits(state, event) ==> match (state, event) {
            (PayState::Fetching { contract_id }, PayEvent::ContractFetched(res)) => match res {
                Ok(account) => (r.0 matches PayState::Validating { contract_id: c, account: a }
                    && c@ == contract_id@ && a.contract_id@ == account.contract_id@ && a.invoice@
                    == account.invoice@ && a.amount_msat == account.amount_msat) && (r.1 matches
                    PayCommand::ValidateAccount { account: a2 } && a2.contract_id@
                    == account.contract_id@),
                Err(m) => (r.0 matches PayState::Failed { error } && (error matches
                    LnGatewayError::ClientError(t) && t@ == m@)) && (r.1 matches
                    PayCommand::FinishPay(fr) && (fr matches Err(e) && e matches
                    LnGatewayError::ClientError(t2) && t2@ == m@)),
            },
            (PayState::Validating { contract_id, account }, PayEvent::Validated(res)) => match res {
                Ok(params) => (r.0 matches PayState::Saving { contract_id: c, account: a, params: p }
                    && c@ == contract_id@ && p == params && a.invoice@ == account.invoice@) && (
                r.1 matches PayCommand::SaveAccount { account: a2 } && a2.contract_id@
                    == account.contract_id@),
                Err(m) => (r.0 matches PayState::Failed { error } && (error matches
                    LnGatewayError::ClientError(t) && t@ == m@)) && (r.1 matches
                    PayCommand::FinishPay(fr) && fr is Err),
            },
            (PayState::Saving { contract_id, account, params }, PayEvent::Saved) => if params.maybe_internal {
                (r.0 matches PayState::CheckingOffer { contract_id: c, invoice, params: p } && c@
                    == contract_id@ && invoice@ == account.invoice@ && p == params) && (
                r.1 matches PayCommand::CheckOffer { payment_hash } && payment_hash@
                    == params.payment_hash@)
            } else {
                (r.0 matches PayState::PayingExternal { contract_id: c } && c@ == contract_id@)
                    && (r.1 matches PayCommand::PayExternal {
                    invoice,
                    max_delay,
                    invoice_amount,
                    max_send_amount,
                } && invoice@ == account.invoice@ && max_delay == params.max_delay
                    && invoice_amount == params.invoice_amount && max_send_amount
                    == params.max_send_amount)
            },
            (
                PayState::CheckingOffer { contract_id, invoice, params },
                PayEvent::OfferChecked(res),
            ) => if res == Ok::<bool, String>(true) {
                (r.0 matches PayState::BuyingInternal { contract_id: c, buy } && c@
                    == contract_id@ && (buy matches BuyPreimageState::Offering {
                    payment_hash,
                    amount_msat,
                } && payment_hash@ == params.payment_hash@ && amount_msat
                    == params.invoice_amount)) && (r.1 matches PayCommand::Buy(bc) && (bc matches
                    BuyPreimageCommand::OfferPreimage { payment_hash, amount_msat }
                    && payment_hash@ == params.payment_hash@ && amount_msat
                    == params.invoice_amount))
            } else {
                (r.0 matches PayState::PayingExternal { contract_id: c } && c@ == contract_id@)
                    && (r.1 matches PayCommand::PayExternal {
                    invoice: inv,
                    max_delay,
                    invoice_amount,
                    max_send_amount,
                } && inv@ == invoice@ && max_delay == params.max_delay && invoice_amount
                    == params.invoice_amount && max_send_amount == params.max_send_amount)
            },
            (PayState::BuyingInternal { contract_id, buy }, PayEvent::Buy(_)) => {
                &&& (r.0 is Claiming || r.0 is Aborting || r.0 is BuyingInternal)
                &&& (r.0 matches PayState::Claiming { contract_id: c, .. } ==> c@ == contract_id@)
                &&& (r.0 matches PayState::Aborting { contract_id: c, .. } ==> c@ == contract_id@)
                &&& (r.0 is Claiming ==> r.1 is ClaimContract)
                &&& (r.0 matches PayState::Aborting { .. } ==> (r.1 matches
                    PayCommand::AbortContract { contract_id: c } && c@ == contract_id@))
                &&& (r.0 matches PayState::BuyingInternal { contract_id: c, buy: b2 } ==> c@
                    == contract_id@ && (r.1 matches PayCommand::Buy(c2)
                    && spec_buy_cmd_matches_state(b2, c2)))
            },
            (PayState::PayingExternal { contract_id }, PayEvent::ExternalPaid(res)) => match res {
                Ok(preimage) => (r.0 matches PayState::Claiming { contract_id: c, preimage: p }
                    && c@ == contract_id@ && p@ == preimage@) && (r.1 matches
                    PayCommand::ClaimContract { contract_id: c2, preimage: p2 } && c2@
                    == contract_id@ && p2@ == preimage@),
                Err(m) => (r.0 matches PayState::Aborting { contract_id: c, error } && c@
                    == contract_id@ && (error matches LnGatewayError::CouldNotRoute(t) && t@
                    == m@)) && (r.1 matches PayCommand::AbortContract { contract_id: c2 } && c2@
                    == contract_id@),
            },
            (PayState::Claiming { contract_id, preimage }, PayEvent::Claimed(res)) => match res {
                Ok(outpoint) => (r.0 matches PayState::Done { outpoint: o } && o.txid@
                    == outpoint.txid@ && o.out_idx == outpoint.out_idx) && (r.1 matches
                    PayCommand::FinishPay(fr) && (fr matches Ok(o2) && o2.txid@ == outpoint.txid@
                    && o2.out_idx == outpoint.out_idx)),
                Err(m) => (r.0 matches PayState::Failed { error } && (error matches
                    LnGatewayError::ClientError(t) && t@ == m@)) && (r.1 matches
                    PayCommand::FinishPay(fr) && fr is Err),
            },
            (PayState::Aborting { contract_id, error }, PayEvent::Aborted(res)) => match res {
                Ok(_) => (r.0 matches PayState::Failed { error: e } && spec_same_gateway_error(
                    e,
                    error,
                )) && (r.1 matches PayCommand::FinishPay(fr) && (fr matches Err(e2)
                    && spec_same_gateway_error(e2, error))),
                Err(m) => (r.0 matches PayState::Failed { error: e } && (e matches
                    LnGatewayError::ClientError(t) && t@ == m@)) && (r.1 matches
                    PayCommand::FinishPay(fr) && fr is Err),
            },
            _ => true,
        },
{
    match (state, event) {
        (PayState::Fetching { contract_id }, PayEvent::ContractFetched(res)) => match res {
            Ok(account) => {
                let account2 = clone_account(&account);
                (
                    PayState::Validating { contract_id, account },
                    PayCommand::ValidateAccount { account: account2 },
                )
            },
            Err(m) => {
                let msg = m.clone();
                (
                    PayState::Failed { error: LnGatewayError::ClientError(msg) },
                    PayCommand::FinishPay(Err(LnGatewayError::ClientError(m))),
                )
            },
        },
        (PayState::Validating { contract_id, account }, PayEvent::Validated(res)) => match res {
            Ok(params) => {
                let account2 = clone_account(&account);
                (
                    PayState::Saving { contract_id, account, params },
                    PayCommand::SaveAccount { account: account2 },
                )
            },
            Err(m) => {
                let msg = m.clone();
                (
                    PayState::Failed { error: LnGatewayError::ClientError(msg) },
                    PayCommand::FinishPay(Err(LnGatewayError::ClientError(m))),
                )
            },
        },
        (PayState::Saving { contract_id, account, params }, PayEvent::Saved) => {
            if params.maybe_internal {
                let payment_hash = params.payment_hash.clone();
                (
                    PayState::CheckingOffer { contract_id, invoice: account.invoice, params },
                    PayCommand::CheckOffer { payment_hash },
                )
            } else {
                (
                    PayState::PayingExternal { contract_id },
                    PayCommand::PayExternal {
                        invoice: account.invoice,
                        max_delay: params.max_delay,
                        invoice_amount: params.invoice_amount,
                        max_send_amount: params.max_send_amount,
                    },
                )
            }
        },
        (PayState::CheckingOffer { contract_id, invoice, params }, PayEvent::OfferChecked(res)) => {
            let internal = match res {
                Ok(b) => b,
                Err(_) => false,
            };
            if internal {
                let payment_hash = params.payment_hash.clone();
                let hash2 = params.payment_hash.clone();
                (
                    PayState::BuyingInternal {
                        contract_id,
                        buy: BuyPreimageState::Offering {
                            payment_hash,
                            amount_msat: params.invoice_amount,
                        },
                    },
                    PayCommand::Buy(
                        BuyPreimageCommand::OfferPreimage {
                            payment_hash: hash2,
                            amount_msat: params.invoice_amount,
                        },
                    ),
                )
            } else {
                (
                    PayState::PayingExternal { contract_id },
                    PayCommand::PayExternal {
                        invoice,
                        max_delay: params.max_delay,
                        invoice_amount: params.invoice_amount,
                        max_send_amount: params.max_send_amount,
                    },
                )
            }
        },
        (PayState::BuyingInternal { contract_id, buy }, PayEvent::Buy(e)) => {
            let (buy2, cmd) = buy_preimage_step(buy, e);
            match cmd {
                BuyPreimageCommand::FinishBuy(fin) => match fin {
                    Ok(preimage) => {
                        let p2 = preimage.clone();
                        let c2 = contract_id.clone();
                        (
                            PayState::Claiming { contract_id, preimage },
                            PayCommand::ClaimContract { contract_id: c2, preimage: p2 },
                        )
                    },
                    Err(error) => {
                        let c2 = contract_id.clone();
                        (
                            PayState::Aborting { contract_id, error },
                            PayCommand::AbortContract { contract_id: c2 },
                        )
                    },
                },
                other => (PayState::BuyingInternal { contract_id, buy: buy2 }, PayCommand::Buy(
                    other,
                )),
            }
        },
        (PayState::PayingExternal { contract_id }, PayEvent::ExternalPaid(res)) => match res {
            Ok(preimage) => {
                let p2 = preimage.clone();
                let c2 = contract_id.clone();
                (
                    PayState::Claiming { contract_id, preimage },
                    PayCommand::ClaimContract { contract_id: c2, preimage: p2 },
                )
            },
            Err(m) => {
                let msg = m.clone();
                let c2 = contract_id.clone();
                (
                    PayState::Aborting {
                        contract_id,
                        error: LnGatewayError::CouldNotRoute(msg),
                    },
                    PayCommand::AbortContract { contract_id: c2 },
                )
            },
        },
        (PayState::Claiming { contract_id, preimage }, PayEvent::Claimed(res)) => match res {
            Ok(outpoint) => {
                let o2 = OutPoint { txid: outpoint.txid.clone(), out_idx: outpoint.out_idx };
                (PayState::Done { outpoint: o2 }, PayCommand::FinishPay(Ok(outpoint)))
            },
            Err(m) => {
                let msg = m.clone();
                (
                    PayState::Failed { error: LnGatewayError::ClientError(msg) },
                    PayCommand::FinishPay(Err(LnGatewayError::ClientError(m))),
                )
            },
        },
        (PayState::Aborting { contract_id, error }, PayEvent::Aborted(res)) => match res {
            Ok(_) => {
                let copy = clone_gateway_error(&error);
                (PayState::Failed { error: copy }, PayCommand::FinishPay(Err(error)))
            },
            Err(m) => {
                let msg = m.clone();
                (
                    PayState::Failed { error: LnGatewayError::ClientError(msg) },
                    PayCommand::FinishPay(Err(LnGatewayError::ClientError(m))),
                )
            },
        },
        (s, _) => {
            proof {
                assert(false);
            }
            (s, PayCommand::FinishPay(Err(LnGatewayError::Other("".to_owned()))))
        },
    }
}

/// The balance handler's decision: the first failed coin fetch is
/// surfaced as a client error; otherwise the total amount is reported.
pub fn balance_from_fetch(fetch_results: &Vec<Result<(), String>>, total_msat: u64) -> (r: Result<
    u64,
    LnGatewayError,
>)
    ensures
        r is Ok <==> (forall|i: int|
            0 <= i < fetch_results@.len() ==> (#[trigger] fetch_results@[i]) is Ok),
        r matches Ok(v) ==> v == total_msat,
        r matches Err(e) ==> exists|i: int|
            {
                &&& 0 <= i < fetch_results@.len()
                &&& (#[trigger] fetch_results@[i]) is Err
                &&& forall|j: int| 0 <= j < i ==> fetch_results@[j] is Ok
                &&& e matches LnGatewayError::ClientError(m) && m@ == fetch_results@[i]->Err_0@
            },
{
    let mut i: usize = 0;
    while i < fetch_results.len()
        invariant
            i <= fetch_results@.len(),
            forall|j: int| 0 <= j < i ==> (#[trigger] fetch_results@[j]) is Ok,
        decreases fetch_results@.len() - i,
    {
        match &fetch_results[i] {
            Ok(_) => {},
            Err(m) => {
                return Err(LnGatewayError::ClientError(m.clone()));
            },
        }
        i += 1;
    }
    Ok(total_msat)
}

/// Whether another Lightning-node connection attempt is allowed after
/// `retries` failed ones.
pub fn connect_should_retry(retries: u32) -> (r: bool)
    ensures
        r == (retries < MAX_LIGHTNING_RETRIES),
{
    retries < MAX_LIGHTNING_RETRIES
}


} // verus!

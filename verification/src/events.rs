//! What the node does on each event of its channels.

use crate::console::{
    closed_line, closed_text, failed_line, failed_text, forwarded_line, forwarded_text,
    received_line, received_text, sent_line, sent_text, unfunded_line, unfunded_text,
};
use crate::forwarding::{forward_times, forward_window};
use crate::funding::{funding_address, is_witness_script, FundingError};
use crate::network::Network;
use crate::payments::{
    HTLCStatus, MillisatAmount, PaymentHash, PaymentInfo, PaymentInfoStorage, PaymentPreimage,
    PaymentSecret,
};
use vstd::prelude::*;

verus! {

/// The number of blocks within which a funding transaction should confirm.
pub const FUNDING_TARGET_BLOCKS: usize = 2;

/// How soon a transaction should confirm.
#[derive(Clone, Copy, Debug, PartialEq, Eq, Structural)]
pub enum ConfirmationTarget {
    /// Whenever fees are low.
    Background,
    /// Without much delay.
    Normal,
    /// Within the next few blocks.
    HighPriority,
}

/// What a received payment was for.
#[derive(Clone, Copy, Debug, PartialEq, Eq)]
pub enum PaymentPurpose {
    /// It pays an invoice of ours. The preimage is there if the node made it up itself.
    InvoicePayment { payment_preimage: Option<PaymentPreimage>, payment_secret: PaymentSecret },
    /// The payer sent it unasked and picked the preimage.
    SpontaneousPayment(PaymentPreimage),
}

/// An event that the channel manager reports.
#[derive(Debug)]
pub enum Event {
    /// A channel waits for its funding transaction.
    FundingGenerationReady {
        temporary_channel_id: [u8; 32],
        channel_value_satoshis: u64,
        output_script: Vec<u8>,
    },
    /// A payment to us has arrived and can be claimed.
    PaymentReceived { payment_hash: PaymentHash, purpose: PaymentPurpose, amt: u64 },
    /// A payment of ours has reached its recipient.
    PaymentSent { payment_preimage: PaymentPreimage, payment_hash: PaymentHash },
    /// A payment of ours has failed, along one path or altogether.
    PaymentPathFailed {
        payment_hash: PaymentHash,
        rejected_by_dest: bool,
        all_paths_failed: bool,
        short_channel_id: Option<u64>,
    },
    /// A payment of others has passed through us.
    PaymentForwarded { fee_earned_msat: Option<u64>, claim_from_onchain_tx: bool },
    /// Payments of others wait to be passed on, at the earliest after this time.
    PendingHTLCsForwardable { time_forwardable_millis: u128 },
    /// Outputs on the chain have become ours to spend.
    SpendableOutputs,
    /// A channel is being closed. The reason is text for the user.
    ChannelClosed { channel_id: [u8; 32], reason: String },
    /// A funding transaction will not be used.
    DiscardFunding,
}

/// A received payment that is about to be claimed.
#[derive(Clone, Copy, Debug, PartialEq, Eq)]
pub struct Claim {
    pub payment_hash: PaymentHash,
    pub payment_preimage: PaymentPreimage,
    pub payment_secret: Option<PaymentSecret>,
    pub amt: u64,
}

/// What the event handler is told: an event, or how an action of its own went.
#[derive(Debug)]
pub enum Input {
    Event(Event),
    /// The channel manager answered a claim.
    FundsClaimed { claim: Claim, claimed: bool },
    /// The channel manager answered a funding transaction.
    FundingSubmitted { accepted: bool },
}

/// Which of the node's payments an input is about.
#[derive(Clone, Copy, Debug, PartialEq, Eq, Structural)]
pub enum Direction {
    /// The payments to us.
    Inbound,
    /// The payments of ours.
    Outbound,
}

/// The direction that an input is about: the payments of the other direction are neither
/// looked up nor changed, and those of neither direction where there is none.
pub open spec fn direction(input: Input) -> Option<Direction> {
    match input {
        Input::Event(Event::PaymentReceived { .. }) => Some(Direction::Inbound),
        Input::FundsClaimed { .. } => Some(Direction::Inbound),
        Input::Event(Event::PaymentSent { .. }) => Some(Direction::Outbound),
        Input::Event(Event::PaymentPathFailed { .. }) => Some(Direction::Outbound),
        _ => None,
    }
}

impl Input {
    /// Tells which payments have to be at hand when the input is handled.
    pub fn direction(&self) -> (r: Option<Direction>)
        ensures
            r == direction(*self),
    {
        match self {
            Input::Event(Event::PaymentReceived { .. }) => Some(Direction::Inbound),
            Input::FundsClaimed { .. } => Some(Direction::Inbound),
            Input::Event(Event::PaymentSent { .. }) => Some(Direction::Outbound),
            Input::Event(Event::PaymentPathFailed { .. }) => Some(Direction::Outbound),
            _ => None,
        }
    }
}

/// What the event handler asks for.
#[derive(Debug)]
pub enum Action {
    /// Nothing is to be done.
    Nothing,
    /// Write this to the console.
    Print { text: String },
    /// Have the wallet build and sign a transaction that pays the channel's value to the
    /// script, submit it, and report how that went.
    FundChannel {
        temporary_channel_id: [u8; 32],
        output_script: Vec<u8>,
        channel_value_satoshis: u64,
        target_blocks: usize,
    },
    /// Claim the payment with its preimage, and report how that went.
    ClaimFunds { claim: Claim },
    /// Pass the waiting payments on after a random time, from `min_millis` on and before
    /// `max_millis`.
    ForwardHtlcs { min_millis: u64, max_millis: u64 },
    /// Send the spendable outputs of the event to an unused address of the wallet and to
    /// nothing else, for a fee that suits the target.
    SpendOutputs { target: ConfirmationTarget },
}

/// Why an input cannot be handled.
#[derive(Clone, Copy, Debug, PartialEq, Eq, Structural)]
pub enum EventError {
    /// The funding output is unfit.
    Funding(FundingError),
    /// A payment has arrived that the node has no preimage for.
    MissingPreimage,
    /// Between the earliest time to pass payments on and five times that time lies no
    /// number of milliseconds.
    NoForwardWindow,
}

/// An [`Action`] with its texts and bytes as sequences.
pub ghost enum ActionView {
    Nothing,
    Print { text: Seq<char> },
    FundChannel {
        temporary_channel_id: [u8; 32],
        output_script: Seq<u8>,
        channel_value_satoshis: u64,
        target_blocks: usize,
    },
    ClaimFunds { claim: Claim },
    ForwardHtlcs { min_millis: u64, max_millis: u64 },
    SpendOutputs { target: ConfirmationTarget },
}

impl View for Action {
    type V = ActionView;

    open spec fn view(&self) -> ActionView {
        match *self {
            Action::Nothing => ActionView::Nothing,
            Action::Print { text } => ActionView::Print { text: text@ },
            Action::FundChannel {
                temporary_channel_id,
                output_script,
                channel_value_satoshis,
                target_blocks,
            } => ActionView::FundChannel {
                temporary_channel_id,
                output_script: output_script@,
                channel_value_satoshis,
                target_blocks,
            },
            Action::ClaimFunds { claim } => ActionView::ClaimFunds { claim },
            Action::ForwardHtlcs { min_millis, max_millis } => ActionView::ForwardHtlcs {
                min_millis,
                max_millis,
            },
            Action::SpendOutputs { target } => ActionView::SpendOutputs { target },
        }
    }
}

/// The payments of one direction.
pub type Payments = Map<PaymentHash, PaymentInfo>;

/// The preimage and the secret that a purpose carries.
pub open spec fn purpose_keys(purpose: PaymentPurpose) -> (
    Option<PaymentPreimage>,
    Option<PaymentSecret>,
) {
    match purpose {
        PaymentPurpose::InvoicePayment { payment_preimage, payment_secret } => (
            payment_preimage,
            Some(payment_secret),
        ),
        PaymentPurpose::SpontaneousPayment(preimage) => (Some(preimage), None),
    }
}

/// What is known of a received payment once its claim has been answered. An amount that was
/// known before stays.
pub open spec fn received_info(
    known: Option<PaymentInfo>,
    claim: Claim,
    claimed: bool,
) -> PaymentInfo {
    PaymentInfo {
        preimage: Some(claim.payment_preimage),
        secret: claim.payment_secret,
        status: if claimed {
            HTLCStatus::Succeeded
        } else {
            HTLCStatus::Failed
        },
        amt_msat: match known {
            Some(info) => info.amt_msat,
            None => MillisatAmount(Some(claim.amt)),
        },
    }
}

/// The received payments after an input.
pub open spec fn inbound_after(inbound: Payments, input: Input) -> Payments {
    match input {
        Input::FundsClaimed { claim, claimed } => inbound.insert(
            claim.payment_hash,
            received_info(inbound.get(claim.payment_hash), claim, claimed),
        ),
        _ => inbound,
    }
}

/// The sent payments after an input. Only a payment that is known changes.
pub open spec fn outbound_after(outbound: Payments, input: Input) -> Payments {
    match input {
        Input::Event(
            Event::PaymentSent { payment_preimage, payment_hash },
        ) if outbound.contains_key(payment_hash) => outbound.insert(
            payment_hash,
            PaymentInfo {
                preimage: Some(payment_preimage),
                status: HTLCStatus::Succeeded,
                ..outbound[payment_hash]
            },
        ),
        Input::Event(Event::PaymentPathFailed { payment_hash, .. }) if outbound.contains_key(
            payment_hash,
        ) => outbound.insert(
            payment_hash,
            PaymentInfo { status: HTLCStatus::Failed, ..outbound[payment_hash] },
        ),
        _ => outbound,
    }
}

/// The action that an event asks for.
pub open spec fn event_action(outbound: Payments, event: Event) -> Result<ActionView, EventError> {
    match event {
        Event::FundingGenerationReady {
            temporary_channel_id,
            channel_value_satoshis,
            output_script,
        } => if !is_witness_script(output_script@) {
            Err(EventError::Funding(FundingError::NotSegwit))
        } else {
            Ok(
                ActionView::FundChannel {
                    temporary_channel_id,
                    output_script: output_script@,
                    channel_value_satoshis,
                    target_blocks: FUNDING_TARGET_BLOCKS,
                },
            )
        },
        Event::PaymentReceived { payment_hash, purpose, amt } => match purpose_keys(purpose) {
            (Some(payment_preimage), payment_secret) => Ok(
                ActionView::ClaimFunds {
                    claim: Claim { payment_hash, payment_preimage, payment_secret, amt },
                },
            ),
            (None, _) => Err(EventError::MissingPreimage),
        },
        Event::PaymentSent { payment_preimage, payment_hash } => Ok(
            match outbound.get(payment_hash) {
                Some(info) => ActionView::Print {
                    text: sent_text(info.amt_msat, payment_hash, payment_preimage),
                },
                None => ActionView::Nothing,
            },
        ),
        Event::PaymentPathFailed {
            payment_hash,
            rejected_by_dest,
            all_paths_failed,
            short_channel_id,
        } => Ok(
            ActionView::Print {
                text: failed_text(
                    payment_hash,
                    rejected_by_dest,
                    all_paths_failed,
                    short_channel_id,
                ),
            },
        ),
        Event::PaymentForwarded { fee_earned_msat, claim_from_onchain_tx } => Ok(
            ActionView::Print { text: forwarded_text(fee_earned_msat, claim_from_onchain_tx) },
        ),
        Event::PendingHTLCsForwardable { time_forwardable_millis } => match forward_window(
            time_forwardable_millis,
        ) {
            Some((min_millis, max_millis)) => Ok(
                ActionView::ForwardHtlcs { min_millis, max_millis },
            ),
            None => Err(EventError::NoForwardWindow),
        },
        Event::SpendableOutputs => Ok(
            ActionView::SpendOutputs { target: ConfirmationTarget::Normal },
        ),
        Event::ChannelClosed { channel_id, reason } => Ok(
            ActionView::Print { text: closed_text(channel_id@, reason@) },
        ),
        Event::DiscardFunding => Ok(ActionView::Nothing),
    }
}

/// The action that an input asks for.
pub open spec fn input_action(outbound: Payments, input: Input) -> Result<ActionView, EventError> {
    match input {
        Input::Event(event) => event_action(outbound, event),
        Input::FundsClaimed { claim, claimed } => Ok(
            if claimed {
                ActionView::Print { text: received_text(claim.payment_hash, claim.amt) }
            } else {
                ActionView::Nothing
            },
        ),
        Input::FundingSubmitted { accepted } => Ok(
            if accepted {
                ActionView::Nothing
            } else {
                ActionView::Print { text: unfunded_text() }
            },
        ),
    }
}

/// An action, or an error, is the one that is expected.
pub open spec fn is_action(
    r: Result<Action, EventError>,
    expected: Result<ActionView, EventError>,
) -> bool {
    match (r, expected) {
        (Ok(action), Ok(view)) => action@ == view,
        (Err(e), Err(expected_e)) => e == expected_e,
        _ => false,
    }
}

/// Records the answer to a claim.
fn funds_claimed(inbound: &mut PaymentInfoStorage, claim: &Claim, claimed: bool)
    ensures
        final(inbound)@ == inbound_after(
            old(inbound)@,
            (Input::FundsClaimed { claim: *claim, claimed }),
        ),
{
    let amt_msat = match inbound.get(&claim.payment_hash) {
        Some(info) => info.amt_msat,
        None => MillisatAmount(Some(claim.amt)),
    };
    let status = if claimed {
        HTLCStatus::Succeeded
    } else {
        HTLCStatus::Failed
    };
    inbound.insert(
        claim.payment_hash,
        PaymentInfo {
            preimage: Some(claim.payment_preimage),
            secret: claim.payment_secret,
            status,
            amt_msat,
        },
    );
}

/// Handles an event, or the answer to an earlier action.
pub fn handle_ldk_events(
    inbound_payments: &mut PaymentInfoStorage,
    outbound_payments: &mut PaymentInfoStorage,
    network: Network,
    input: Input,
) -> (r: Result<Action, EventError>)
    ensures
        final(inbound_payments)@ == inbound_after(old(inbound_payments)@, input),
        final(outbound_payments)@ == outbound_after(old(outbound_payments)@, input),
        is_action(r, input_action(old(outbound_payments)@, input)),
{
    let event = match input {
        Input::Event(event) => event,
        Input::FundsClaimed { claim, claimed } => {
            funds_claimed(inbound_payments, &claim, claimed);
            return Ok(
                if claimed {
                    Action::Print { text: received_line(&claim.payment_hash, claim.amt) }
                } else {
                    Action::Nothing
                },
            );
        },
        Input::FundingSubmitted { accepted } => {
            return Ok(
                if accepted {
                    Action::Nothing
                } else {
                    Action::Print { text: unfunded_line() }
                },
            );
        },
    };
    match event {
        Event::FundingGenerationReady {
            temporary_channel_id,
            channel_value_satoshis,
            output_script,
        } => match funding_address(&output_script, network) {
            Ok(_) => Ok(
                Action::FundChannel {
                    temporary_channel_id,
                    output_script,
                    channel_value_satoshis,
                    target_blocks: FUNDING_TARGET_BLOCKS,
                },
            ),
            Err(e) => Err(EventError::Funding(e)),
        },
        Event::PaymentReceived { payment_hash, purpose, amt } => {
            let (preimage, payment_secret) = match purpose {
                PaymentPurpose::InvoicePayment { payment_preimage, payment_secret } => (
                    payment_preimage,
                    Some(payment_secret),
                ),
                PaymentPurpose::SpontaneousPayment(preimage) => (Some(preimage), None),
            };
            match preimage {
                Some(payment_preimage) => Ok(
                    Action::ClaimFunds {
                        claim: Claim { payment_hash, payment_preimage, payment_secret, amt },
                    },
                ),
                None => Err(EventError::MissingPreimage),
            }
        },
        Event::PaymentSent { payment_preimage, payment_hash } => match outbound_payments.get(
            &payment_hash,
        ) {
            Some(info) => {
                outbound_payments.insert(
                    payment_hash,
                    PaymentInfo {
                        preimage: Some(payment_preimage),
                        status: HTLCStatus::Succeeded,
                        ..info
                    },
                );
                Ok(
                    Action::Print {
                        text: sent_line(&info.amt_msat, &payment_hash, &payment_preimage),
                    },
                )
            },
            None => Ok(Action::Nothing),
        },
        Event::PaymentPathFailed {
            payment_hash,
            rejected_by_dest,
            all_paths_failed,
            short_channel_id,
        } => {
            if let Some(info) = outbound_payments.get(&payment_hash) {
                outbound_payments.insert(
                    payment_hash,
                    PaymentInfo { status: HTLCStatus::Failed, ..info },
                );
            }
            Ok(
                Action::Print {
                    text: failed_line(
                        &payment_hash,
                        rejected_by_dest,
                        all_paths_failed,
                        short_channel_id,
                    ),
                },
            )
        },
        Event::PaymentForwarded { fee_earned_msat, claim_from_onchain_tx } => Ok(
            Action::Print { text: forwarded_line(fee_earned_msat, claim_from_onchain_tx) },
        ),
        Event::PendingHTLCsForwardable { time_forwardable_millis } => match forward_times(
            time_forwardable_millis,
        ) {
            Some((min_millis, max_millis)) => Ok(Action::ForwardHtlcs { min_millis, max_millis }),
            None => Err(EventError::NoForwardWindow),
        },
        Event::SpendableOutputs => Ok(
            Action::SpendOutputs { target: ConfirmationTarget::Normal },
        ),
        Event::ChannelClosed { channel_id, reason } => Ok(
            Action::Print { text: closed_line(&channel_id, reason.as_str()) },
        ),
        Event::DiscardFunding => Ok(Action::Nothing),
    }
}

/// A channel is funded when its event asks for it, and at no other time: under the event's own
/// temporary id, to the event's script and with the event's value, to confirm within two
/// blocks. Only a script that pays to no witness program is refused.
pub proof fn channels_are_funded_as_asked(
    outbound: Payments,
    input: Input,
    r: Result<Action, EventError>,
)
    requires
        is_action(r, input_action(outbound, input)),
    ensures
        r matches Ok(
            Action::FundChannel {
                temporary_channel_id: id,
                output_script: script,
                channel_value_satoshis: value,
                target_blocks,
            },
        ) ==> {
            &&& input matches Input::Event(
                Event::FundingGenerationReady {
                    temporary_channel_id,
                    channel_value_satoshis,
                    output_script,
                },
            )
            &&& id == temporary_channel_id
            &&& script@ == output_script@
            &&& value == channel_value_satoshis
            &&& target_blocks == 2
        },
        input matches Input::Event(Event::FundingGenerationReady { output_script, .. }) ==> {
            &&& is_witness_script(output_script@) ==> (r matches Ok(Action::FundChannel { .. }))
            &&& !is_witness_script(output_script@) ==> r == Err::<Action, EventError>(
                EventError::Funding(FundingError::NotSegwit),
            )
        },
        r matches Err(EventError::Funding(_)) ==> (input matches Input::Event(
            Event::FundingGenerationReady { .. },
        )),
{
}

/// A payment that has arrived is claimed with the preimage that it came with, under its own
/// hash and amount, and with the secret of the invoice if it pays one. It is refused exactly
/// where an invoice comes without its preimage.
pub proof fn payments_are_claimed_as_they_came(
    outbound: Payments,
    payment_hash: PaymentHash,
    purpose: PaymentPurpose,
    amt: u64,
    r: Result<Action, EventError>,
)
    requires
        is_action(
            r,
            input_action(
                outbound,
                Input::Event(Event::PaymentReceived { payment_hash, purpose, amt }),
            ),
        ),
    ensures
        match purpose {
            PaymentPurpose::InvoicePayment { payment_preimage: Some(p), payment_secret: s } => {
                &&& r matches Ok(Action::ClaimFunds { claim })
                &&& claim.payment_hash == payment_hash
                &&& claim.payment_preimage == p
                &&& claim.payment_secret == Some(s)
                &&& claim.amt == amt
            },
            PaymentPurpose::SpontaneousPayment(p) => {
                &&& r matches Ok(Action::ClaimFunds { claim })
                &&& claim.payment_hash == payment_hash
                &&& claim.payment_preimage == p
                &&& claim.payment_secret is None
                &&& claim.amt == amt
            },
            PaymentPurpose::InvoicePayment { payment_preimage: None, .. } => {
                r == Err::<Action, EventError>(EventError::MissingPreimage)
            },
        },
{
}

/// Nothing but a payment that has arrived is claimed, or refused for want of a preimage.
pub proof fn only_arrived_payments_are_claimed(
    outbound: Payments,
    input: Input,
    r: Result<Action, EventError>,
)
    requires
        is_action(r, input_action(outbound, input)),
    ensures
        (r matches Ok(Action::ClaimFunds { .. })) || (r matches Err(EventError::MissingPreimage))
            <==> (input matches Input::Event(Event::PaymentReceived { .. })),
{
}

/// The answer to a claim is recorded under the claim's hash: the claim's preimage and secret,
/// and that the payment has succeeded if the claim was granted and has failed if not. The
/// amount is the claim's where none was recorded before, and else the recorded one. No other
/// payment to us changes, and a granted claim alone is reported.
pub proof fn answers_to_claims_are_recorded(
    inbound: Payments,
    outbound: Payments,
    claim: Claim,
    claimed: bool,
    other: PaymentHash,
    r: Result<Action, EventError>,
)
    requires
        is_action(r, input_action(outbound, Input::FundsClaimed { claim, claimed })),
    ensures
        ({
            let after = inbound_after(inbound, Input::FundsClaimed { claim, claimed });
            let info = after[claim.payment_hash];
            &&& after.contains_key(claim.payment_hash)
            &&& info.preimage == Some(claim.payment_preimage)
            &&& info.secret == claim.payment_secret
            &&& claimed ==> info.status == HTLCStatus::Succeeded
            &&& !claimed ==> info.status == HTLCStatus::Failed
            &&& inbound.contains_key(claim.payment_hash) ==> info.amt_msat
                == inbound[claim.payment_hash].amt_msat
            &&& !inbound.contains_key(claim.payment_hash) ==> info.amt_msat.0 == Some(claim.amt)
            &&& other != claim.payment_hash ==> after.get(other) == inbound.get(other)
        }),
        outbound_after(outbound, Input::FundsClaimed { claim, claimed }) == outbound,
        claimed ==> (r matches Ok(Action::Print { text }) && text@ == received_text(
            claim.payment_hash,
            claim.amt,
        )),
        !claimed ==> (r matches Ok(Action::Nothing)),
{
}

/// A payment that arrives and is claimed ends up in the records with the preimage that it came
/// with.
pub proof fn arrived_preimages_are_recorded(
    inbound: Payments,
    outbound: Payments,
    payment_hash: PaymentHash,
    purpose: PaymentPurpose,
    amt: u64,
    claim: Claim,
    claimed: bool,
)
    requires
        is_action(
            Ok(Action::ClaimFunds { claim }),
            input_action(
                outbound,
                Input::Event(Event::PaymentReceived { payment_hash, purpose, amt }),
            ),
        ),
    ensures
        ({
            let after = inbound_after(inbound, Input::FundsClaimed { claim, claimed });
            &&& after.contains_key(payment_hash)
            &&& purpose matches PaymentPurpose::InvoicePayment {
                payment_preimage,
                payment_secret,
            } ==> {
                &&& payment_preimage is Some
                &&& after[payment_hash].preimage == payment_preimage
                &&& after[payment_hash].secret == Some(payment_secret)
            }
            &&& purpose matches PaymentPurpose::SpontaneousPayment(preimage) ==> {
                &&& after[payment_hash].preimage == Some(preimage)
                &&& after[payment_hash].secret is None
            }
        }),
{
}

/// Payments to us change by the answers to claims alone.
pub proof fn only_claims_change_received_payments(inbound: Payments, input: Input)
    ensures
        !(input matches Input::FundsClaimed { .. }) ==> inbound_after(inbound, input) == inbound,
{
}

/// A payment of ours that has reached its recipient is known as succeeded, with the preimage
/// that came back, and its secret and amount stay. The line that is written names them. Where
/// the payment is not known, nothing changes and nothing is written.
pub proof fn sent_payments_are_recorded(
    outbound: Payments,
    payment_hash: PaymentHash,
    payment_preimage: PaymentPreimage,
    other: PaymentHash,
    r: Result<Action, EventError>,
)
    requires
        is_action(
            r,
            input_action(
                outbound,
                Input::Event(Event::PaymentSent { payment_preimage, payment_hash }),
            ),
        ),
    ensures
        ({
            let after = outbound_after(
                outbound,
                Input::Event(Event::PaymentSent { payment_preimage, payment_hash }),
            );
            &&& after.dom() == outbound.dom()
            &&& other != payment_hash ==> after.get(other) == outbound.get(other)
            &&& outbound.contains_key(payment_hash) ==> {
                &&& after[payment_hash].status == HTLCStatus::Succeeded
                &&& after[payment_hash].preimage == Some(payment_preimage)
                &&& after[payment_hash].secret == outbound[payment_hash].secret
                &&& after[payment_hash].amt_msat == outbound[payment_hash].amt_msat
                &&& r matches Ok(Action::Print { text })
                &&& text@ == sent_text(
                    outbound[payment_hash].amt_msat,
                    payment_hash,
                    payment_preimage,
                )
            }
            &&& !outbound.contains_key(payment_hash) ==> (r matches Ok(Action::Nothing))
        }),
{
    let after = outbound_after(
        outbound,
        Input::Event(Event::PaymentSent { payment_preimage, payment_hash }),
    );
    assert(after.dom() =~= outbound.dom());
}

/// A payment of ours that has failed, along one path or altogether and for whatever reason, is
/// known as failed, and its preimage, secret and amount stay. What is reported is written out,
/// also of a payment that is not known. No other payment changes.
pub proof fn failed_payments_are_recorded(
    outbound: Payments,
    payment_hash: PaymentHash,
    rejected_by_dest: bool,
    all_paths_failed: bool,
    short_channel_id: Option<u64>,
    other: PaymentHash,
    r: Result<Action, EventError>,
)
    requires
        is_action(
            r,
            input_action(
                outbound,
                Input::Event(
                    Event::PaymentPathFailed {
                        payment_hash,
                        rejected_by_dest,
                        all_paths_failed,
                        short_channel_id,
                    },
                ),
            ),
        ),
    ensures
        ({
            let after = outbound_after(
                outbound,
                Input::Event(
                    Event::PaymentPathFailed {
                        payment_hash,
                        rejected_by_dest,
                        all_paths_failed,
                        short_channel_id,
                    },
                ),
            );
            &&& after.dom() == outbound.dom()
            &&& other != payment_hash ==> after.get(other) == outbound.get(other)
            &&& outbound.contains_key(payment_hash) ==> {
                &&& after[payment_hash].status == HTLCStatus::Failed
                &&& after[payment_hash].preimage == outbound[payment_hash].preimage
                &&& after[payment_hash].secret == outbound[payment_hash].secret
                &&& after[payment_hash].amt_msat == outbound[payment_hash].amt_msat
            }
            &&& r matches Ok(Action::Print { text })
            &&& text@ == failed_text(
                payment_hash,
                rejected_by_dest,
                all_paths_failed,
                short_channel_id,
            )
        }),
{
    let after = outbound_after(
        outbound,
        Input::Event(
            Event::PaymentPathFailed {
                payment_hash,
                rejected_by_dest,
                all_paths_failed,
                short_channel_id,
            },
        ),
    );
    assert(after.dom() =~= outbound.dom());
}

/// Payments of ours change only when they are reported as sent or as failed.
pub proof fn only_reports_change_sent_payments(outbound: Payments, input: Input)
    ensures
        !(input matches Input::Event(Event::PaymentSent { .. })) && !(input matches Input::Event(
            Event::PaymentPathFailed { .. },
        )) ==> outbound_after(outbound, input) == outbound,
{
}

/// Payments that wait to be passed on are passed on from the time that the event names, and
/// before five times that time. They are refused exactly where no such time fits in 64 bits.
pub proof fn waiting_payments_are_passed_on(
    outbound: Payments,
    time: u64,
    r: Result<Action, EventError>,
)
    requires
        is_action(
            r,
            input_action(
                outbound,
                Input::Event(
                    Event::PendingHTLCsForwardable { time_forwardable_millis: time as u128 },
                ),
            ),
        ),
    ensures
        if time == 0 || time > u64::MAX / 5 {
            r == Err::<Action, EventError>(EventError::NoForwardWindow)
        } else {
            &&& r matches Ok(Action::ForwardHtlcs { min_millis, max_millis })
            &&& min_millis == time
            &&& max_millis == time + time + time + time + time
        },
{
}

/// Of the time that an event names only the lower 64 bits count.
pub proof fn high_bits_of_a_time_do_not_count(
    outbound: Payments,
    high: u64,
    low: u64,
)
    ensures
        input_action(
            outbound,
            Input::Event(
                Event::PendingHTLCsForwardable {
                    time_forwardable_millis: (high * 0x1_0000_0000_0000_0000 + low) as u128,
                },
            ),
        ) == input_action(
            outbound,
            Input::Event(Event::PendingHTLCsForwardable { time_forwardable_millis: low as u128 }),
        ),
{
    let time = high * 0x1_0000_0000_0000_0000 + low;
    assert(0 <= time <= u128::MAX);
    assert(time % 0x1_0000_0000_0000_0000 == low as int);
}

/// What only has to be told is told with all that the event says. Spendable outputs are spent
/// without haste, and a funding transaction that will not be used asks for nothing.
pub proof fn other_inputs_are_answered(
    outbound: Payments,
    input: Input,
    r: Result<Action, EventError>,
)
    requires
        is_action(r, input_action(outbound, input)),
    ensures
        input matches Input::Event(
            Event::PaymentForwarded { fee_earned_msat, claim_from_onchain_tx },
        ) ==> (r matches Ok(Action::Print { text }) && text@ == forwarded_text(
            fee_earned_msat,
            claim_from_onchain_tx,
        )),
        input matches Input::Event(Event::ChannelClosed { channel_id, reason }) ==> (r matches Ok(
            Action::Print { text },
        ) && text@ == closed_text(channel_id@, reason@)),
        (input matches Input::Event(Event::SpendableOutputs)) <==> (r matches Ok(
            Action::SpendOutputs { .. },
        )),
        r matches Ok(Action::SpendOutputs { target }) ==> target == ConfirmationTarget::Normal,
        input matches Input::Event(Event::DiscardFunding) ==> (r matches Ok(Action::Nothing)),
        input matches Input::FundingSubmitted { accepted } ==> {
            &&& accepted ==> (r matches Ok(Action::Nothing))
            &&& !accepted ==> (r matches Ok(Action::Print { text }) && text@ == unfunded_text())
        },
        r matches Ok(Action::ForwardHtlcs { .. }) ==> (input matches Input::Event(
            Event::PendingHTLCsForwardable { .. },
        )),
{
}

/// What has arrived and the answers to claims are about the payments to us. What is reported as
/// sent or as failed is about the payments of ours, and all else about none.
pub proof fn inputs_are_about_one_direction(input: Input)
    ensures
        direction(input) == Some(Direction::Inbound) <==> (input matches Input::Event(
            Event::PaymentReceived { .. },
        )) || (input matches Input::FundsClaimed { .. }),
        direction(input) == Some(Direction::Outbound) <==> (input matches Input::Event(
            Event::PaymentSent { .. },
        )) || (input matches Input::Event(Event::PaymentPathFailed { .. })),
{
}

} // verus!

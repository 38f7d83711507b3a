//! What holds of the node's payments over any run of events and answers.

use crate::console::received_text;
use crate::events::{
    direction, event_action, inbound_after, input_action, outbound_after, purpose_keys, ActionView,
    Claim, Direction, Event, Input, Payments,
};
use crate::funding::is_witness_script;
use crate::payments::{HTLCStatus, MillisatAmount, PaymentHash};
use vstd::prelude::*;

verus! {

/// The received payments after a run of inputs.
pub open spec fn inbound_after_all(inbound: Payments, inputs: Seq<Input>) -> Payments
    decreases inputs.len(),
{
    if inputs.len() == 0 {
        inbound
    } else {
        inbound_after(inbound_after_all(inbound, inputs.drop_last()), inputs.last())
    }
}

/// The sent payments after a run of inputs.
pub open spec fn outbound_after_all(outbound: Payments, inputs: Seq<Input>) -> Payments
    decreases inputs.len(),
{
    if inputs.len() == 0 {
        outbound
    } else {
        outbound_after(outbound_after_all(outbound, inputs.drop_last()), inputs.last())
    }
}

/// The payment whose record an input can change.
pub open spec fn payment_of(input: Input) -> Option<PaymentHash> {
    match input {
        Input::Event(Event::PaymentSent { payment_hash, .. }) => Some(payment_hash),
        Input::Event(Event::PaymentPathFailed { payment_hash, .. }) => Some(payment_hash),
        Input::FundsClaimed { claim, .. } => Some(claim.payment_hash),
        _ => None,
    }
}

/// No payment that was known is ever forgotten, and the amount that it was first recorded
/// with never changes.
pub proof fn payments_are_kept(
    inbound: Payments,
    outbound: Payments,
    inputs: Seq<Input>,
    hash: PaymentHash,
)
    ensures
        inbound.contains_key(hash) ==> {
            &&& inbound_after_all(inbound, inputs).contains_key(hash)
            &&& inbound_after_all(inbound, inputs)[hash].amt_msat == inbound[hash].amt_msat
        },
        outbound.contains_key(hash) ==> {
            &&& outbound_after_all(outbound, inputs).contains_key(hash)
            &&& outbound_after_all(outbound, inputs)[hash].amt_msat == outbound[hash].amt_msat
        },
    decreases inputs.len(),
{
    if inputs.len() > 0 {
        payments_are_kept(inbound, outbound, inputs.drop_last(), hash);
    }
}

/// Events never add a payment to those that the node has sent.
pub proof fn events_send_nothing(outbound: Payments, inputs: Seq<Input>)
    ensures
        outbound_after_all(outbound, inputs).dom() == outbound.dom(),
    decreases inputs.len(),
{
    if inputs.len() > 0 {
        events_send_nothing(outbound, inputs.drop_last());
    }
    assert(outbound_after_all(outbound, inputs).dom() =~= outbound.dom());
}

/// A payment that is still pending after any run was pending at its start and has not been
/// touched: what has once been settled is never pending again.
pub proof fn settled_payments_stay_settled(
    inbound: Payments,
    outbound: Payments,
    inputs: Seq<Input>,
    hash: PaymentHash,
)
    ensures
        ({
            let after = inbound_after_all(inbound, inputs);
            after.contains_key(hash) && after[hash].status == HTLCStatus::Pending ==> {
                &&& inbound.contains_key(hash)
                &&& after[hash] == inbound[hash]
            }
        }),
        ({
            let after = outbound_after_all(outbound, inputs);
            after.contains_key(hash) && after[hash].status == HTLCStatus::Pending ==> {
                &&& outbound.contains_key(hash)
                &&& after[hash] == outbound[hash]
            }
        }),
    decreases inputs.len(),
{
    if inputs.len() > 0 {
        settled_payments_stay_settled(inbound, outbound, inputs.drop_last(), hash);
    }
}

/// A payment that no input of a run speaks of is the same after it, in both directions.
pub proof fn other_payments_stay(
    inbound: Payments,
    outbound: Payments,
    inputs: Seq<Input>,
    hash: PaymentHash,
)
    requires
        forall|i: int|
            0 <= i < inputs.len() ==> payment_of(#[trigger] inputs[i]) != Some(hash),
    ensures
        inbound_after_all(inbound, inputs).get(hash) == inbound.get(hash),
        outbound_after_all(outbound, inputs).get(hash) == outbound.get(hash),
    decreases inputs.len(),
{
    if inputs.len() > 0 {
        let earlier = inputs.drop_last();
        assert forall|i: int| 0 <= i < earlier.len() implies payment_of(#[trigger] earlier[i])
            != Some(hash) by {
            assert(earlier[i] == inputs[i]);
        }
        other_payments_stay(inbound, outbound, earlier, hash);
        assert(payment_of(inputs[inputs.len() - 1]) != Some(hash));
    }
}

/// No input changes the payments of both directions. It changes only those of the direction
/// that it is about, and what it asks for rests on no others.
pub proof fn directions_are_apart(
    inbound: Payments,
    outbound: Payments,
    other_outbound: Payments,
    input: Input,
)
    ensures
        inbound_after(inbound, input) == inbound || outbound_after(outbound, input) == outbound,
        direction(input) != Some(Direction::Inbound) ==> inbound_after(inbound, input) == inbound,
        direction(input) != Some(Direction::Outbound) ==> {
            &&& outbound_after(outbound, input) == outbound
            &&& input_action(outbound, input) == input_action(other_outbound, input)
        },
{
}

/// An input that is refused changes nothing.
pub proof fn refused_inputs_change_nothing(
    inbound: Payments,
    outbound: Payments,
    input: Input,
)
    requires
        input_action(outbound, input) is Err,
    ensures
        inbound_after(inbound, input) == inbound,
        outbound_after(outbound, input) == outbound,
{
}

/// An input that is told twice leaves what it left when it was told once.
pub proof fn repeats_change_nothing(inbound: Payments, outbound: Payments, input: Input)
    ensures
        inbound_after(inbound_after(inbound, input), input) == inbound_after(inbound, input),
        outbound_after(outbound_after(outbound, input), input) == outbound_after(outbound, input),
{
    assert(inbound_after(inbound_after(inbound, input), input) =~= inbound_after(inbound, input));
    assert(outbound_after(outbound_after(outbound, input), input) =~= outbound_after(
        outbound,
        input,
    ));
}

/// Inputs that speak of different payments may come in either order.
pub proof fn different_payments_commute(
    inbound: Payments,
    outbound: Payments,
    first: Input,
    second: Input,
)
    requires
        payment_of(first) is None || payment_of(first) != payment_of(second),
    ensures
        inbound_after(inbound_after(inbound, first), second) == inbound_after(
            inbound_after(inbound, second),
            first,
        ),
        outbound_after(outbound_after(outbound, first), second) == outbound_after(
            outbound_after(outbound, second),
            first,
        ),
{
    assert(inbound_after(inbound_after(inbound, first), second) =~= inbound_after(
        inbound_after(inbound, second),
        first,
    ));
    assert(outbound_after(outbound_after(outbound, first), second) =~= outbound_after(
        outbound_after(outbound, second),
        first,
    ));
}

/// A payment that arrives with its preimage is claimed with that preimage. The answer to the
/// claim settles it: it is then known with the preimage and the secret that it came with, as
/// succeeded or failed by the answer, and under the amount that came if none was known. A
/// granted claim is reported with the hash and the amount of the event, a refused one is not
/// reported.
pub proof fn received_payments_are_settled(
    inbound: Payments,
    outbound: Payments,
    event: Event,
    claimed: bool,
)
    requires
        event matches Event::PaymentReceived { purpose, .. } && purpose_keys(purpose).0 is Some,
    ensures
        event matches Event::PaymentReceived { payment_hash, purpose, amt } && {
            &&& event_action(outbound, event) matches Ok(
                ActionView::ClaimFunds { claim },
            ) && {
                let answer = Input::FundsClaimed { claim, claimed };
                let after = inbound_after(inbound, answer);
                &&& Some(claim.payment_preimage) == purpose_keys(purpose).0
                &&& after.contains_key(payment_hash)
                &&& after[payment_hash].preimage == purpose_keys(purpose).0
                &&& after[payment_hash].secret == purpose_keys(purpose).1
                &&& after[payment_hash].status == (if claimed {
                    HTLCStatus::Succeeded
                } else {
                    HTLCStatus::Failed
                })
                &&& !inbound.contains_key(payment_hash) ==> after[payment_hash].amt_msat
                    == MillisatAmount(Some(amt))
                &&& input_action(outbound, answer) == Ok::<
                    ActionView,
                    crate::events::EventError,
                >(
                    if claimed {
                        ActionView::Print { text: received_text(payment_hash, amt) }
                    } else {
                        ActionView::Nothing
                    },
                )
            }
        },
{
}

/// A sent payment that is reported as done is known as succeeded, with its preimage, until
/// another input speaks of it.
pub proof fn sent_payments_stay_done(
    outbound: Payments,
    event: Event,
    inputs: Seq<Input>,
)
    requires
        event matches Event::PaymentSent { payment_hash, .. } && {
            &&& outbound.contains_key(payment_hash)
            &&& forall|i: int|
                0 <= i < inputs.len() ==> payment_of(#[trigger] inputs[i]) != Some(payment_hash)
        },
    ensures
        event matches Event::PaymentSent { payment_hash, payment_preimage } && {
            let after = outbound_after_all(outbound_after(outbound, Input::Event(event)), inputs);
            &&& after.contains_key(payment_hash)
            &&& after[payment_hash].status == HTLCStatus::Succeeded
            &&& after[payment_hash].preimage == Some(payment_preimage)
        },
{
    if let Event::PaymentSent { payment_hash, payment_preimage } = event {
        let done = outbound_after(outbound, Input::Event(event));
        other_payments_stay(done, done, inputs, payment_hash);
        assert(done.contains_key(payment_hash));
        assert(outbound_after_all(done, inputs).get(payment_hash) == done.get(payment_hash));
    }
}

/// A channel is only ever funded by an output to a witness program, with the script and the
/// value that the event names.
pub proof fn funding_outputs_are_segwit(outbound: Payments, input: Input)
    ensures
        input_action(outbound, input) matches Ok(
            ActionView::FundChannel { output_script, channel_value_satoshis, .. },
        ) ==> {
            &&& is_witness_script(output_script)
            &&& input matches Input::Event(
                Event::FundingGenerationReady { output_script: script, channel_value_satoshis: value, .. },
            ) && script@ == output_script && value == channel_value_satoshis
        },
{
}

} // verus!

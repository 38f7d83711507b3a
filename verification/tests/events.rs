use bdk_ldk_sample::events::{
    handle_ldk_events, Action, Claim, ConfirmationTarget, Direction, Event, EventError, Input,
    PaymentPurpose,
};
use bdk_ldk_sample::forwarding::{forward_delay, forward_times};
use bdk_ldk_sample::funding::{funding_address, FundingError};
use bdk_ldk_sample::network::Network;
use bdk_ldk_sample::payments::{
    HTLCStatus, MillisatAmount, PaymentHash, PaymentInfo, PaymentInfoStorage, PaymentPreimage,
    PaymentSecret,
};

const HASH: PaymentHash = PaymentHash([0xab; 32]);
const OTHER: PaymentHash = PaymentHash([0x01; 32]);
const PREIMAGE: PaymentPreimage = PaymentPreimage([0xcd; 32]);
const SECRET: PaymentSecret = PaymentSecret([0xef; 32]);

fn pending(amount: Option<u64>) -> PaymentInfo {
    PaymentInfo {
        preimage: None,
        secret: Some(SECRET),
        status: HTLCStatus::Pending,
        amt_msat: MillisatAmount(amount),
    }
}

fn printed(action: Result<Action, EventError>) -> String {
    match action {
        Ok(Action::Print { text }) => text,
        other => panic!("expected a line, got {:?}", other),
    }
}

fn event(
    outbound: &mut PaymentInfoStorage,
    network: Network,
    event: Event,
) -> Result<Action, EventError> {
    handle_ldk_events(&mut PaymentInfoStorage::new(), outbound, network, Input::Event(event))
}

fn stateless(network: Network, input: Event) -> Result<Action, EventError> {
    event(&mut PaymentInfoStorage::new(), network, input)
}

fn witness_script() -> Vec<u8> {
    let mut script = vec![0x00, 0x20];
    script.extend_from_slice(&[
        0x18, 0x63, 0x14, 0x3c, 0x14, 0xc5, 0x16, 0x68, 0x04, 0xbd, 0x19, 0x20, 0x33, 0x56, 0xda,
        0x13, 0x6c, 0x98, 0x56, 0x78, 0xcd, 0x4d, 0x27, 0xa1, 0xb8, 0xc6, 0x32, 0x96, 0x04, 0x90,
        0x32, 0x62,
    ]);
    script
}

fn funding_event(output_script: Vec<u8>) -> Event {
    Event::FundingGenerationReady {
        temporary_channel_id: [7; 32],
        channel_value_satoshis: 100_000,
        output_script,
    }
}

#[test]
fn channels_are_funded_within_two_blocks() {
    match stateless(Network::Testnet, funding_event(witness_script())) {
        Ok(Action::FundChannel {
            temporary_channel_id,
            output_script,
            channel_value_satoshis,
            target_blocks,
        }) => {
            assert_eq!(temporary_channel_id, [7; 32]);
            assert_eq!(output_script, witness_script());
            assert_eq!(channel_value_satoshis, 100_000);
            assert_eq!(target_blocks, 2);
        }
        other => panic!("{:?}", other),
    }
}

#[test]
fn channels_are_funded_on_every_network() {
    for network in [Network::Bitcoin, Network::Testnet, Network::Regtest, Network::Signet] {
        match stateless(network, funding_event(witness_script())) {
            Ok(Action::FundChannel { output_script, .. }) => {
                assert_eq!(output_script, witness_script());
            }
            other => panic!("{:?}", other),
        }
        let error = stateless(network, funding_event(vec![0x6a])).unwrap_err();
        assert_eq!(error, EventError::Funding(FundingError::NotSegwit));
    }
}

#[test]
fn legacy_outputs_cannot_fund_a_channel() {
    let error = stateless(Network::Regtest, funding_event(vec![0x76, 0xa9, 0x14, 0x00])).unwrap_err();
    assert_eq!(error, EventError::Funding(FundingError::NotSegwit));
}

#[test]
fn a_lost_channel_is_reported() {
    let mut inbound = PaymentInfoStorage::new();
    let mut outbound = PaymentInfoStorage::new();
    let input = Input::FundingSubmitted { accepted: false };
    let text = printed(handle_ldk_events(&mut inbound, &mut outbound, Network::Testnet, input));
    assert_eq!(
        text,
        "\nERROR: Channel went away before we could fund it. The peer disconnected or refused the channel.\n> "
    );
    let input = Input::FundingSubmitted { accepted: true };
    let action = handle_ldk_events(&mut inbound, &mut outbound, Network::Testnet, input);
    assert!(matches!(action, Ok(Action::Nothing)));
}

#[test]
fn witness_scripts_have_addresses() {
    assert_eq!(
        funding_address(&witness_script(), Network::Testnet).unwrap(),
        "tb1qrp33g0q5c5txsp9arysrx4k6zdkfs4nce4xj0gdcccefvpysxf3q0sl5k7"
    );
    assert_eq!(
        funding_address(&witness_script(), Network::Signet).unwrap(),
        "tb1qrp33g0q5c5txsp9arysrx4k6zdkfs4nce4xj0gdcccefvpysxf3q0sl5k7"
    );
    let key_hash = vec![
        0x00, 0x14, 0x9c, 0x6f, 0xa3, 0xd9, 0x5c, 0x78, 0xc7, 0x52, 0xc2, 0xc6, 0x7d, 0x00, 0xef,
        0x33, 0x24, 0x98, 0x53, 0x5f, 0xa4, 0x21,
    ];
    assert_eq!(
        funding_address(&key_hash, Network::Regtest).unwrap(),
        "bcrt1qn3h68k2u0rr49skx05qw7veynpf4lfppd2demt"
    );
    assert_eq!(
        funding_address(&vec![0x60, 0x02, 0x75, 0x1e], Network::Bitcoin).unwrap(),
        "bc1sw50qgdz25j"
    );
}

#[test]
fn scripts_without_a_witness_program_have_no_address() {
    let not_segwit = vec![
        vec![],
        vec![0x00, 0x02, 0x01],
        vec![0x51, 0x03, 0x01, 0x02],
        vec![0x00, 0x02, 0x01, 0x02],
        vec![0x61, 0x02, 0x01, 0x02],
        vec![0x11, 0x02, 0x01, 0x02],
        vec![0x50, 0x02, 0x01, 0x02],
        vec![0x20, 0x02, 0x01, 0x02],
        vec![0x70, 0x02, 0x01, 0x02],
        vec![0xff, 0x02, 0x01, 0x02],
    ];
    for script in not_segwit {
        assert_eq!(funding_address(&script, Network::Testnet), Err(FundingError::NotSegwit));
    }
    let mut long = vec![0x51, 41];
    long.extend_from_slice(&[1; 41]);
    assert_eq!(funding_address(&long, Network::Testnet), Err(FundingError::NotSegwit));
    let mut longest = vec![0x51, 40];
    longest.extend_from_slice(&[1; 40]);
    assert!(funding_address(&longest, Network::Testnet).is_ok());
}

fn claim_of(purpose: PaymentPurpose) -> Claim {
    let received = Event::PaymentReceived { payment_hash: HASH, purpose, amt: 5_000 };
    match stateless(Network::Testnet, received) {
        Ok(Action::ClaimFunds { claim }) => claim,
        other => panic!("{:?}", other),
    }
}

#[test]
fn invoice_payments_are_claimed_with_their_preimage() {
    let claim = claim_of(PaymentPurpose::InvoicePayment {
        payment_preimage: Some(PREIMAGE),
        payment_secret: SECRET,
    });
    assert_eq!(
        claim,
        Claim {
            payment_hash: HASH,
            payment_preimage: PREIMAGE,
            payment_secret: Some(SECRET),
            amt: 5_000
        }
    );
}

#[test]
fn spontaneous_payments_have_no_secret() {
    let claim = claim_of(PaymentPurpose::SpontaneousPayment(PREIMAGE));
    assert_eq!(claim.payment_preimage, PREIMAGE);
    assert_eq!(claim.payment_secret, None);
}

#[test]
fn payments_without_a_preimage_are_refused() {
    let received = Event::PaymentReceived {
        payment_hash: HASH,
        purpose: PaymentPurpose::InvoicePayment { payment_preimage: None, payment_secret: SECRET },
        amt: 1,
    };
    assert_eq!(stateless(Network::Testnet, received).unwrap_err(), EventError::MissingPreimage);
}

#[test]
fn a_granted_claim_is_recorded_and_reported() {
    let mut inbound = PaymentInfoStorage::new();
    let mut outbound = PaymentInfoStorage::new();
    let claim = claim_of(PaymentPurpose::SpontaneousPayment(PREIMAGE));
    let input = Input::FundsClaimed { claim, claimed: true };
    let text = printed(handle_ldk_events(&mut inbound, &mut outbound, Network::Testnet, input));
    assert_eq!(
        text,
        format!(
            "\nEVENT: received payment from payment hash {} of 5000 millisatoshis\n> ",
            "ab".repeat(32)
        )
    );
    assert_eq!(
        inbound.get(&HASH),
        Some(PaymentInfo {
            preimage: Some(PREIMAGE),
            secret: None,
            status: HTLCStatus::Succeeded,
            amt_msat: MillisatAmount(Some(5_000)),
        })
    );
    assert_eq!(outbound.get(&HASH), None);
}

#[test]
fn a_refused_claim_fails_a_known_payment_and_keeps_its_amount() {
    let mut inbound = PaymentInfoStorage::new();
    let mut outbound = PaymentInfoStorage::new();
    inbound.insert(HASH, pending(None));
    let claim = claim_of(PaymentPurpose::SpontaneousPayment(PREIMAGE));
    let input = Input::FundsClaimed { claim, claimed: false };
    let action = handle_ldk_events(&mut inbound, &mut outbound, Network::Testnet, input);
    assert!(matches!(action, Ok(Action::Nothing)));
    assert_eq!(
        inbound.get(&HASH),
        Some(PaymentInfo {
            preimage: Some(PREIMAGE),
            secret: None,
            status: HTLCStatus::Failed,
            amt_msat: MillisatAmount(None),
        })
    );
}

#[test]
fn a_sent_payment_is_recorded_and_reported() {
    let mut outbound = PaymentInfoStorage::new();
    outbound.insert(HASH, pending(Some(42)));
    outbound.insert(OTHER, pending(Some(43)));
    let sent = Event::PaymentSent { payment_preimage: PREIMAGE, payment_hash: HASH };
    assert_eq!(
        printed(event(&mut outbound, Network::Testnet, sent)),
        format!(
            "\nEVENT: successfully sent payment of 42 millisatoshis from payment hash {:?} with preimage {:?}\n> ",
            "ab".repeat(32),
            "cd".repeat(32)
        )
    );
    assert_eq!(
        outbound.get(&HASH),
        Some(PaymentInfo {
            preimage: Some(PREIMAGE),
            secret: Some(SECRET),
            status: HTLCStatus::Succeeded,
            amt_msat: MillisatAmount(Some(42)),
        })
    );
    assert_eq!(outbound.get(&OTHER), Some(pending(Some(43))));
}

#[test]
fn an_unknown_sent_payment_changes_nothing() {
    let mut outbound = PaymentInfoStorage::new();
    outbound.insert(OTHER, pending(None));
    let sent = Event::PaymentSent { payment_preimage: PREIMAGE, payment_hash: HASH };
    assert!(matches!(event(&mut outbound, Network::Testnet, sent), Ok(Action::Nothing)));
    assert_eq!(outbound.get(&HASH), None);
    assert_eq!(outbound.get(&OTHER), Some(pending(None)));
}

#[test]
fn a_failed_payment_is_recorded_and_reported() {
    let mut outbound = PaymentInfoStorage::new();
    outbound.insert(HASH, pending(Some(42)));
    let failed = Event::PaymentPathFailed {
        payment_hash: HASH,
        rejected_by_dest: true,
        all_paths_failed: true,
        short_channel_id: None,
    };
    assert_eq!(
        printed(event(&mut outbound, Network::Testnet, failed)),
        format!(
            "\nEVENT: Failed to send payment to payment hash {:?}: re-attempting the payment will not succeed\n> ",
            "ab".repeat(32)
        )
    );
    assert_eq!(
        outbound.get(&HASH),
        Some(PaymentInfo { status: HTLCStatus::Failed, ..pending(Some(42)) })
    );
}

#[test]
fn a_failed_path_names_the_channel() {
    let mut outbound = PaymentInfoStorage::new();
    let failed = Event::PaymentPathFailed {
        payment_hash: HASH,
        rejected_by_dest: false,
        all_paths_failed: false,
        short_channel_id: Some(774_909_407_114_231_809),
    };
    assert_eq!(
        printed(event(&mut outbound, Network::Testnet, failed)),
        format!(
            "\nEVENT: Failed to send payment along MPP path to payment hash {:?} because of failure at channel 774909407114231809: exhausted payment retry attempts\n> ",
            "ab".repeat(32)
        )
    );
    assert_eq!(outbound.get(&HASH), None);
}

#[test]
fn a_payment_that_succeeds_after_a_failed_path_has_succeeded() {
    let mut outbound = PaymentInfoStorage::new();
    outbound.insert(HASH, pending(Some(42)));
    let failed = Event::PaymentPathFailed {
        payment_hash: HASH,
        rejected_by_dest: false,
        all_paths_failed: false,
        short_channel_id: None,
    };
    let sent = Event::PaymentSent { payment_preimage: PREIMAGE, payment_hash: HASH };
    assert!(event(&mut outbound, Network::Testnet, failed).is_ok());
    assert!(event(&mut outbound, Network::Testnet, sent).is_ok());
    assert_eq!(outbound.get(&HASH).unwrap().status, HTLCStatus::Succeeded);
}

#[test]
fn an_event_that_comes_twice_leaves_what_it_left_once() {
    let mut outbound = PaymentInfoStorage::new();
    outbound.insert(HASH, pending(Some(42)));
    let sent = || Event::PaymentSent { payment_preimage: PREIMAGE, payment_hash: HASH };
    let first = printed(event(&mut outbound, Network::Testnet, sent()));
    let once = outbound.get(&HASH);
    let second = printed(event(&mut outbound, Network::Testnet, sent()));
    assert_eq!(first, second);
    assert_eq!(outbound.get(&HASH), once);
}

#[test]
fn events_of_different_payments_come_in_any_order() {
    let sent = || Event::PaymentSent { payment_preimage: PREIMAGE, payment_hash: HASH };
    let failed = || Event::PaymentPathFailed {
        payment_hash: OTHER,
        rejected_by_dest: true,
        all_paths_failed: true,
        short_channel_id: None,
    };
    let mut one = PaymentInfoStorage::new();
    let mut two = PaymentInfoStorage::new();
    for storage in [&mut one, &mut two] {
        storage.insert(HASH, pending(Some(1)));
        storage.insert(OTHER, pending(Some(2)));
    }
    assert!(event(&mut one, Network::Testnet, sent()).is_ok());
    assert!(event(&mut one, Network::Testnet, failed()).is_ok());
    assert!(event(&mut two, Network::Testnet, failed()).is_ok());
    assert!(event(&mut two, Network::Testnet, sent()).is_ok());
    assert_eq!(one.get(&HASH), two.get(&HASH));
    assert_eq!(one.get(&OTHER), two.get(&OTHER));
}

#[test]
fn forwarded_payments_are_reported() {
    let forwarded = |fee_earned_msat, claim_from_onchain_tx| {
        let input = Event::PaymentForwarded { fee_earned_msat, claim_from_onchain_tx };
        printed(stateless(Network::Testnet, input))
    };
    assert_eq!(
        forwarded(Some(1000), false),
        "\nEVENT: Forwarded payment, earning 1000 msat from HTLC fulfill message\n> "
    );
    assert_eq!(
        forwarded(None, true),
        "\nEVENT: Forwarded payment, claiming onchain from onchain downstream claim\n> "
    );
}

#[test]
fn closed_channels_are_reported() {
    let closed = Event::ChannelClosed {
        channel_id: [0x10; 32],
        reason: "CooperativeClosure".to_string(),
    };
    assert_eq!(
        printed(stateless(Network::Testnet, closed)),
        format!("\nEVENT: Channel {} closed due to: CooperativeClosure\n> ", "10".repeat(32))
    );
}

#[test]
fn spendable_outputs_are_spent_and_discarded_funding_is_ignored() {
    let spend = stateless(Network::Testnet, Event::SpendableOutputs);
    assert!(matches!(
        spend,
        Ok(Action::SpendOutputs { target: ConfirmationTarget::Normal })
    ));
    let discard = stateless(Network::Testnet, Event::DiscardFunding);
    assert!(matches!(discard, Ok(Action::Nothing)));
}

#[test]
fn waiting_payments_have_a_window() {
    let waiting = Event::PendingHTLCsForwardable { time_forwardable_millis: 100 };
    match stateless(Network::Testnet, waiting) {
        Ok(Action::ForwardHtlcs { min_millis, max_millis }) => {
            assert_eq!((min_millis, max_millis), (100, 500));
        }
        other => panic!("{:?}", other),
    }
}

#[test]
fn windows_end_at_five_times_their_start() {
    assert_eq!(forward_times(1), Some((1, 5)));
    assert_eq!(forward_times((1u128 << 64) + 3), Some((3, 15)));
    let largest = u64::MAX / 5;
    assert_eq!(forward_times(largest as u128), Some((largest, largest * 5)));
    assert_eq!(forward_times(largest as u128 + 1), None);
}

#[test]
fn some_times_have_no_window() {
    let waiting = Event::PendingHTLCsForwardable { time_forwardable_millis: 0 };
    let error = stateless(Network::Testnet, waiting).unwrap_err();
    assert_eq!(error, EventError::NoForwardWindow);
    assert_eq!(forward_times(1u128 << 64), None);
}

#[test]
fn delays_lie_within_their_window() {
    for _ in 0..1000 {
        let delay = forward_delay(3, 15);
        assert!(3 <= delay && delay < 15);
    }
    assert_eq!(forward_delay(8, 9), 8);
    let delays: Vec<u64> = (0..1000).map(|_| forward_delay(100, 500)).collect();
    assert!(delays.iter().any(|d| *d != delays[0]));
}

#[test]
fn refused_inputs_keep_all_payments() {
    let mut inbound = PaymentInfoStorage::new();
    let mut outbound = PaymentInfoStorage::new();
    inbound.insert(HASH, pending(Some(1)));
    outbound.insert(HASH, pending(Some(2)));
    let refused = vec![
        funding_event(vec![]),
        Event::PendingHTLCsForwardable { time_forwardable_millis: 0 },
        Event::PaymentReceived {
            payment_hash: HASH,
            purpose: PaymentPurpose::InvoicePayment {
                payment_preimage: None,
                payment_secret: SECRET,
            },
            amt: 1,
        },
    ];
    for event in refused {
        let input = Input::Event(event);
        assert!(handle_ldk_events(&mut inbound, &mut outbound, Network::Testnet, input).is_err());
    }
    assert_eq!(inbound.get(&HASH), Some(pending(Some(1))));
    assert_eq!(outbound.get(&HASH), Some(pending(Some(2))));
}

#[test]
fn a_sent_payment_stays_done_while_others_fail() {
    let mut outbound = PaymentInfoStorage::new();
    outbound.insert(HASH, pending(Some(42)));
    outbound.insert(OTHER, pending(Some(43)));
    let sent = Event::PaymentSent { payment_preimage: PREIMAGE, payment_hash: HASH };
    assert!(event(&mut outbound, Network::Testnet, sent).is_ok());
    let done = outbound.get(&HASH);
    let failed = Event::PaymentPathFailed {
        payment_hash: OTHER,
        rejected_by_dest: true,
        all_paths_failed: true,
        short_channel_id: None,
    };
    assert!(event(&mut outbound, Network::Testnet, failed).is_ok());
    assert_eq!(outbound.get(&HASH), done);
    assert_eq!(done.unwrap().status, HTLCStatus::Succeeded);
    assert_eq!(done.unwrap().preimage, Some(PREIMAGE));
}

#[test]
fn a_claim_of_one_hash_leaves_the_sent_payment_of_that_hash() {
    let mut inbound = PaymentInfoStorage::new();
    let mut outbound = PaymentInfoStorage::new();
    outbound.insert(HASH, pending(Some(2)));
    let claim = claim_of(PaymentPurpose::SpontaneousPayment(PREIMAGE));
    let input = Input::FundsClaimed { claim, claimed: true };
    assert!(handle_ldk_events(&mut inbound, &mut outbound, Network::Testnet, input).is_ok());
    assert_eq!(outbound.get(&HASH), Some(pending(Some(2))));
    let sent = Event::PaymentSent { payment_preimage: PREIMAGE, payment_hash: HASH };
    let received = inbound.get(&HASH);
    let input = Input::Event(sent);
    assert!(handle_ldk_events(&mut inbound, &mut outbound, Network::Testnet, input).is_ok());
    assert_eq!(inbound.get(&HASH), received);
}

#[test]
fn inputs_are_about_the_payments_of_one_direction() {
    let purpose = PaymentPurpose::SpontaneousPayment(PREIMAGE);
    let received = Event::PaymentReceived { payment_hash: HASH, purpose, amt: 1 };
    assert_eq!(Input::Event(received).direction(), Some(Direction::Inbound));
    let claim =
        Claim { payment_hash: HASH, payment_preimage: PREIMAGE, payment_secret: None, amt: 1 };
    let answer = Input::FundsClaimed { claim, claimed: true };
    assert_eq!(answer.direction(), Some(Direction::Inbound));
    let sent = || Input::Event(Event::PaymentSent { payment_preimage: PREIMAGE, payment_hash: HASH });
    assert_eq!(sent().direction(), Some(Direction::Outbound));
    let failed = Event::PaymentPathFailed {
        payment_hash: HASH,
        rejected_by_dest: true,
        all_paths_failed: true,
        short_channel_id: None,
    };
    assert_eq!(Input::Event(failed).direction(), Some(Direction::Outbound));
    assert_eq!(Input::Event(funding_event(witness_script())).direction(), None);
    assert_eq!(Input::FundingSubmitted { accepted: true }.direction(), None);

    // What was sent is not among what was received.
    let mut inbound = PaymentInfoStorage::new();
    inbound.insert(HASH, pending(Some(5)));
    let mut outbound = PaymentInfoStorage::new();
    let action = handle_ldk_events(&mut inbound, &mut outbound, Network::Testnet, sent());
    assert!(matches!(action, Ok(Action::Nothing)));
    assert_eq!(inbound.get(&HASH), Some(pending(Some(5))));
}

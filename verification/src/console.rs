//! The lines that the node writes to its console. Those about events end in a new prompt.

use crate::hex_utils::{hex, hex_str};
use crate::payments::{amount_text, MillisatAmount, PaymentHash, PaymentPreimage};
use crate::text::{decimal, decimal_str, quoted, quoted_str};
use vstd::prelude::*;

verus! {

/// A payment to us has been claimed.
pub open spec fn received_text(hash: PaymentHash, amt: u64) -> Seq<char> {
    "\nEVENT: received payment from payment hash "@ + hex(hash.0@) + " of "@ + decimal(amt as nat)
        + " millisatoshis"@ + "\n> "@
}

/// A payment of ours has succeeded.
pub open spec fn sent_text(
    amount: MillisatAmount,
    hash: PaymentHash,
    preimage: PaymentPreimage,
) -> Seq<char> {
    "\nEVENT: successfully sent payment of "@ + amount_text(amount)
        + " millisatoshis from payment hash "@ + quoted(hex(hash.0@)) + " with preimage "@ + quoted(
        hex(preimage.0@),
    ) + "\n> "@
}

/// A payment of ours has failed.
pub open spec fn failed_text(
    hash: PaymentHash,
    rejected_by_dest: bool,
    all_paths_failed: bool,
    short_channel_id: Option<u64>,
) -> Seq<char> {
    "\nEVENT: Failed to send payment"@ + (if all_paths_failed {
        ""@
    } else {
        " along MPP path"@
    }) + " to payment hash "@ + quoted(hex(hash.0@)) + (match short_channel_id {
        Some(scid) => " because of failure at channel "@ + decimal(scid as nat),
        None => ""@,
    }) + (if rejected_by_dest {
        ": re-attempting the payment will not succeed"@
    } else {
        ": exhausted payment retry attempts"@
    }) + "\n> "@
}

/// A payment of others has passed through us.
pub open spec fn forwarded_text(
    fee_earned_msat: Option<u64>,
    claim_from_onchain_tx: bool,
) -> Seq<char> {
    (match fee_earned_msat {
        Some(fee) => "\nEVENT: Forwarded payment, earning "@ + decimal(fee as nat) + " msat "@,
        None => "\nEVENT: Forwarded payment, claiming onchain "@,
    }) + (if claim_from_onchain_tx {
        "from onchain downstream claim"@
    } else {
        "from HTLC fulfill message"@
    }) + "\n> "@
}

/// A channel has been closed.
pub open spec fn closed_text(channel_id: Seq<u8>, reason: Seq<char>) -> Seq<char> {
    "\nEVENT: Channel "@ + hex(channel_id) + " closed due to: "@ + reason + "\n> "@
}

/// A channel could not be funded.
pub open spec fn unfunded_text() -> Seq<char> {
    "\nERROR: Channel went away before we could fund it. The peer disconnected or refused the channel."@
        + "\n> "@
}

/// The file of channel peers could not be read.
pub open spec fn unread_peers_text(error: Seq<char>) -> Seq<char> {
    "ERROR: errored reading channel peer info from disk: "@ + error + "\n"@
}

/// Writes [`received_text`].
pub fn received_line(hash: &PaymentHash, amt: u64) -> (s: String)
    ensures
        s@ == received_text(*hash, amt),
{
    let mut s = "\nEVENT: received payment from payment hash ".to_owned();
    s.append(hex_str(&hash.0).as_str());
    s.append(" of ");
    s.append(decimal_str(amt).as_str());
    s.append(" millisatoshis");
    s.append("\n> ");
    s
}

/// Writes [`sent_text`].
pub fn sent_line(amount: &MillisatAmount, hash: &PaymentHash, preimage: &PaymentPreimage) -> (s:
    String)
    ensures
        s@ == sent_text(*amount, *hash, *preimage),
{
    let mut s = "\nEVENT: successfully sent payment of ".to_owned();
    s.append(amount.to_string().as_str());
    s.append(" millisatoshis from payment hash ");
    s.append(quoted_str(hex_str(&hash.0).as_str()).as_str());
    s.append(" with preimage ");
    s.append(quoted_str(hex_str(&preimage.0).as_str()).as_str());
    s.append("\n> ");
    s
}

/// Writes [`failed_text`].
pub fn failed_line(
    hash: &PaymentHash,
    rejected_by_dest: bool,
    all_paths_failed: bool,
    short_channel_id: Option<u64>,
) -> (s: String)
    ensures
        s@ == failed_text(*hash, rejected_by_dest, all_paths_failed, short_channel_id),
{
    let mut s = "\nEVENT: Failed to send payment".to_owned();
    s.append(
        if all_paths_failed {
            ""
        } else {
            " along MPP path"
        },
    );
    s.append(" to payment hash ");
    s.append(quoted_str(hex_str(&hash.0).as_str()).as_str());
    let culprit = match short_channel_id {
        Some(scid) => {
            let mut culprit = " because of failure at channel ".to_owned();
            culprit.append(decimal_str(scid).as_str());
            culprit
        },
        None => "".to_owned(),
    };
    s.append(culprit.as_str());
    s.append(
        if rejected_by_dest {
            ": re-attempting the payment will not succeed"
        } else {
            ": exhausted payment retry attempts"
        },
    );
    s.append("\n> ");
    s
}

/// Writes [`forwarded_text`].
pub fn forwarded_line(fee_earned_msat: Option<u64>, claim_from_onchain_tx: bool) -> (s: String)
    ensures
        s@ == forwarded_text(fee_earned_msat, claim_from_onchain_tx),
{
    let mut s = match fee_earned_msat {
        Some(fee) => {
            let mut earning = "\nEVENT: Forwarded payment, earning ".to_owned();
            earning.append(decimal_str(fee).as_str());
            earning.append(" msat ");
            earning
        },
        None => "\nEVENT: Forwarded payment, claiming onchain ".to_owned(),
    };
    s.append(
        if claim_from_onchain_tx {
            "from onchain downstream claim"
        } else {
            "from HTLC fulfill message"
        },
    );
    s.append("\n> ");
    s
}

/// Writes [`closed_text`].
pub fn closed_line(channel_id: &[u8; 32], reason: &str) -> (s: String)
    ensures
        s@ == closed_text(channel_id@, reason@),
{
    let mut s = "\nEVENT: Channel ".to_owned();
    s.append(hex_str(channel_id).as_str());
    s.append(" closed due to: ");
    s.append(reason);
    s.append("\n> ");
    s
}

/// Writes [`unfunded_text`].
pub fn unfunded_line() -> (s: String)
    ensures
        s@ == unfunded_text(),
{
    let mut s =
        "\nERROR: Channel went away before we could fund it. The peer disconnected or refused the channel.".to_owned();
    s.append("\n> ");
    s
}

/// Writes [`unread_peers_text`].
pub fn unread_peers_line(error: &str) -> (s: String)
    ensures
        s@ == unread_peers_text(error@),
{
    let mut s = "ERROR: errored reading channel peer info from disk: ".to_owned();
    s.append(error);
    s.append("\n");
    s
}

/// The line on a received payment names its hash, all 32 bytes in their order, and after it the
/// amount.
pub proof fn received_line_names_hash_and_amount(hash: PaymentHash, amt: u64)
    ensures
        ({
            let text = received_text(hash, amt);
            let head = "\nEVENT: received payment from payment hash "@;
            let rest = text.skip(head.len() as int);
            let tail = " millisatoshis\n> "@;
            &&& text.take(head.len() as int) == head
            &&& rest.take(64) == hex(hash.0@)
            &&& rest.subrange(64, 68) == " of "@
            &&& rest.skip(68) == decimal(amt as nat) + tail
        }),
{
    reveal_strlit(" of ");
    reveal_strlit(" millisatoshis");
    reveal_strlit("\n> ");
    reveal_strlit(" millisatoshis\n> ");
    assert(" millisatoshis"@ + "\n> "@ =~= " millisatoshis\n> "@);
}

/// The line on a sent payment names its amount, its hash and its preimage, in this order.
pub proof fn sent_line_names_amount_hash_and_preimage(
    amount: MillisatAmount,
    hash: PaymentHash,
    preimage: PaymentPreimage,
)
    ensures
        ({
            let text = sent_text(amount, hash, preimage);
            let head = "\nEVENT: successfully sent payment of "@;
            let middle = " millisatoshis from payment hash \""@;
            let rest = text.skip((head.len() + amount_text(amount).len() + middle.len()) as int);
            &&& text.take(head.len() as int) == head
            &&& text.skip(head.len() as int).take(
                (amount_text(amount).len() + middle.len()) as int,
            ) == amount_text(amount) + middle
            &&& rest.take(64) == hex(hash.0@)
            &&& rest.subrange(64, 81) == "\" with preimage \""@
            &&& rest.subrange(81, 145) == hex(preimage.0@)
            &&& rest.skip(145) == "\"\n> "@
        }),
{
    reveal_strlit(" millisatoshis from payment hash ");
    reveal_strlit(" millisatoshis from payment hash \"");
    reveal_strlit(" with preimage ");
    reveal_strlit("\" with preimage \"");
    reveal_strlit("\n> ");
    reveal_strlit("\"\n> ");
}

/// The line on a failed payment names its hash and, where it is known, the channel at which it
/// failed. It says whether a single path failed, and whether another attempt can succeed.
pub proof fn failed_line_names_hash_channel_and_reason(
    hash: PaymentHash,
    rejected_by_dest: bool,
    all_paths_failed: bool,
    short_channel_id: Option<u64>,
)
    ensures
        ({
            let text = failed_text(hash, rejected_by_dest, all_paths_failed, short_channel_id);
            let head = if all_paths_failed {
                "\nEVENT: Failed to send payment to payment hash \""@
            } else {
                "\nEVENT: Failed to send payment along MPP path to payment hash \""@
            };
            let tail = if rejected_by_dest {
                ": re-attempting the payment will not succeed\n> "@
            } else {
                ": exhausted payment retry attempts\n> "@
            };
            let rest = text.skip(head.len() as int);
            &&& text.take(head.len() as int) == head
            &&& rest.take(64) == hex(hash.0@)
            &&& rest[64] == '"'
            &&& short_channel_id is None ==> rest.skip(65) == tail
            &&& short_channel_id matches Some(scid) ==> rest.skip(65)
                == " because of failure at channel "@ + decimal(scid as nat) + tail
        }),
{
    reveal_strlit("");
    reveal_strlit("\n> ");
    reveal_strlit(" to payment hash ");
    reveal_strlit("\nEVENT: Failed to send payment");
    reveal_strlit("\nEVENT: Failed to send payment to payment hash \"");
    reveal_strlit(" along MPP path");
    reveal_strlit("\nEVENT: Failed to send payment along MPP path to payment hash \"");
    reveal_strlit(": re-attempting the payment will not succeed");
    reveal_strlit(": re-attempting the payment will not succeed\n> ");
    reveal_strlit(": exhausted payment retry attempts");
    reveal_strlit(": exhausted payment retry attempts\n> ");
    assert("\nEVENT: Failed to send payment"@ + ""@ + " to payment hash "@ + seq!['"']
        =~= "\nEVENT: Failed to send payment to payment hash \""@);
    assert("\nEVENT: Failed to send payment"@ + " along MPP path"@ + " to payment hash "@
        + seq!['"'] =~= "\nEVENT: Failed to send payment along MPP path to payment hash \""@);
    assert(": re-attempting the payment will not succeed"@ + "\n> "@
        =~= ": re-attempting the payment will not succeed\n> "@);
    assert(": exhausted payment retry attempts"@ + "\n> "@
        =~= ": exhausted payment retry attempts\n> "@);
}

/// The line on a forwarded payment names the fee where there is one, and says by which way the
/// payment was claimed.
pub proof fn forwarded_line_names_fee_and_way(fee_earned_msat: Option<u64>, onchain: bool)
    ensures
        ({
            let text = forwarded_text(fee_earned_msat, onchain);
            let tail = if onchain {
                " from onchain downstream claim\n> "@
            } else {
                " from HTLC fulfill message\n> "@
            };
            &&& fee_earned_msat matches Some(fee) ==> text
                == "\nEVENT: Forwarded payment, earning "@ + decimal(fee as nat) + " msat"@ + tail
            &&& fee_earned_msat is None ==> text
                == "\nEVENT: Forwarded payment, claiming onchain"@ + tail
        }),
{
    reveal_strlit("\n> ");
    reveal_strlit(" msat ");
    reveal_strlit(" msat");
    reveal_strlit("\nEVENT: Forwarded payment, claiming onchain ");
    reveal_strlit("\nEVENT: Forwarded payment, claiming onchain");
    reveal_strlit("from onchain downstream claim");
    reveal_strlit("from HTLC fulfill message");
    reveal_strlit(" from onchain downstream claim\n> ");
    reveal_strlit(" from HTLC fulfill message\n> ");
}

/// The line on a closed channel names the channel, all 32 bytes in their order, and then the
/// whole reason.
pub proof fn closed_line_names_channel_and_reason(channel_id: [u8; 32], reason: Seq<char>)
    ensures
        ({
            let text = closed_text(channel_id@, reason);
            &&& text.take(16) == "\nEVENT: Channel "@
            &&& text.subrange(16, 80) == hex(channel_id@)
            &&& text.subrange(80, 96) == " closed due to: "@
            &&& text.subrange(96, 96 + reason.len() as int) == reason
            &&& text.skip(96 + reason.len() as int) == "\n> "@
        }),
{
    reveal_strlit("\nEVENT: Channel ");
    reveal_strlit(" closed due to: ");
}

/// The line on an unread file of peers ends in the whole error.
pub proof fn unread_peers_line_names_the_error(error: Seq<char>)
    ensures
        ({
            let text = unread_peers_text(error);
            let head = "ERROR: errored reading channel peer info from disk: "@;
            &&& text.len() == head.len() + error.len() + 1
            &&& text.take(head.len() as int) == head
            &&& text.skip(head.len() as int).take(error.len() as int) == error
            &&& text.last() == '\n'
        }),
{
    reveal_strlit("\n");
}

} // verus!

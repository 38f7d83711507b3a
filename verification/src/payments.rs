//! What the node remembers of its payments.

use crate::bytes::same_bytes;
use crate::text::{decimal, decimal_has_digits, decimal_reads_back, decimal_str};
use vstd::prelude::*;

verus! {

/// How far a payment has come.
#[derive(Clone, Copy, Debug, PartialEq, Eq, Structural)]
pub enum HTLCStatus {
    Pending,
    Succeeded,
    Failed,
}

/// An amount in thousandths of a satoshi, where it is known.
#[derive(Clone, Copy, Debug, PartialEq, Eq)]
pub struct MillisatAmount(pub Option<u64>);

/// The text of an amount: its decimal digits, or the word `unknown`.
pub open spec fn amount_text(amount: MillisatAmount) -> Seq<char> {
    match amount.0 {
        Some(amt) => decimal(amt as nat),
        None => "unknown"@,
    }
}

impl MillisatAmount {
    /// The amount as it is shown to the user.
    pub fn to_string(&self) -> (s: String)
        ensures
            s@ == amount_text(*self),
    {
        match self.0 {
            Some(amt) => decimal_str(amt),
            None => "unknown".to_owned(),
        }
    }
}

/// Different amounts have different texts, and no text of an amount says that it is unknown.
pub proof fn amount_text_tells_amounts_apart(a: MillisatAmount, b: MillisatAmount)
    requires
        amount_text(a) == amount_text(b),
    ensures
        a == b,
{
    reveal_strlit("unknown");
    if let Some(amt) = a.0 {
        decimal_has_digits(amt as nat);
        decimal_reads_back(amt as nat);
        assert('0' <= amount_text(a)[0] <= '9');
    }
    if let Some(amt) = b.0 {
        decimal_has_digits(amt as nat);
        decimal_reads_back(amt as nat);
        assert('0' <= amount_text(b)[0] <= '9');
    }
}

/// The hash by which a payment is known on the network.
#[derive(Clone, Copy, Debug, PartialEq, Eq, Hash)]
pub struct PaymentHash(pub [u8; 32]);

/// The preimage that settles a payment.
#[derive(Clone, Copy, Debug, PartialEq, Eq, Hash)]
pub struct PaymentPreimage(pub [u8; 32]);

/// The secret that proves a sender to have seen the invoice.
#[derive(Clone, Copy, Debug, PartialEq, Eq, Hash)]
pub struct PaymentSecret(pub [u8; 32]);

impl PaymentHash {
    /// Whether both hashes have the same bytes.
    pub fn same_as(&self, other: &PaymentHash) -> (b: bool)
        ensures
            b == (*self == *other),
    {
        same_bytes(&self.0, &other.0)
    }
}

/// What is known of one payment.
#[derive(Clone, Copy, Debug, PartialEq, Eq)]
pub struct PaymentInfo {
    pub preimage: Option<PaymentPreimage>,
    pub secret: Option<PaymentSecret>,
    pub status: HTLCStatus,
    pub amt_msat: MillisatAmount,
}

/// The payments of one direction, each under its hash.
#[derive(Debug)]
pub struct PaymentInfoStorage {
    entries: Vec<(PaymentHash, PaymentInfo)>,
}

/// Where `hash` stands among `entries`.
spec fn is_at(entries: Seq<(PaymentHash, PaymentInfo)>, hash: PaymentHash, i: int) -> bool {
    0 <= i < entries.len() && entries[i].0 == hash
}

impl View for PaymentInfoStorage {
    type V = Map<PaymentHash, PaymentInfo>;

    closed spec fn view(&self) -> Map<PaymentHash, PaymentInfo> {
        Map::new(
            |hash: PaymentHash| exists|i: int| is_at(self.entries@, hash, i),
            |hash: PaymentHash| self.entries@[choose|i: int| is_at(self.entries@, hash, i)].1,
        )
    }
}

impl PaymentInfoStorage {
    /// No hash stands twice.
    #[verifier::type_invariant]
    spec fn well_formed(self) -> bool {
        forall|i: int, j: int|
            0 <= i < j < self.entries@.len() ==> #[trigger] self.entries@[i].0
                != #[trigger] self.entries@[j].0
    }

    /// An empty storage.
    pub fn new() -> (storage: PaymentInfoStorage)
        ensures
            storage@ == Map::<PaymentHash, PaymentInfo>::empty(),
    {
        let storage = PaymentInfoStorage { entries: Vec::new() };
        assert(storage@ =~= Map::<PaymentHash, PaymentInfo>::empty());
        storage
    }

    /// The place of `hash`, if it is stored.
    fn position(&self, hash: &PaymentHash) -> (r: Option<usize>)
        ensures
            match r {
                Some(i) => is_at(self.entries@, *hash, i as int),
                None => forall|i: int| !is_at(self.entries@, *hash, i),
            },
    {
        let mut i: usize = 0;
        while i < self.entries.len()
            invariant
                i <= self.entries@.len(),
                forall|j: int| 0 <= j < i ==> !is_at(self.entries@, *hash, j),
            decreases self.entries@.len() - i,
        {
            if self.entries[i].0.same_as(hash) {
                return Some(i);
            }
            i = i + 1;
        }
        None
    }

    /// Looks a payment up.
    pub fn get(&self, hash: &PaymentHash) -> (r: Option<PaymentInfo>)
        ensures
            r == self@.get(*hash),
    {
        proof {
            use_type_invariant(self);
        }
        match self.position(hash) {
            Some(i) => {
                proof {
                    let j = choose|j: int| is_at(self.entries@, *hash, j);
                    assert(i == j);
                }
                Some(self.entries[i].1)
            },
            None => None,
        }
    }

    /// Stores `info` under `hash`, in place of what stood there.
    pub fn insert(&mut self, hash: PaymentHash, info: PaymentInfo)
        ensures
            final(self)@ == old(self)@.insert(hash, info),
    {
        proof {
            use_type_invariant(&*self);
        }
        let place = self.position(&hash);
        let ghost before = self.entries@;
        let mut entries: Vec<(PaymentHash, PaymentInfo)> = Vec::new();
        std::mem::swap(&mut self.entries, &mut entries);
        match place {
            Some(i) => {
                entries.set(i, (hash, info));
                assert(is_at(entries@, hash, i as int));
            },
            None => {
                entries.push((hash, info));
                assert(is_at(entries@, hash, entries@.len() - 1));
                assert(forall|j: int| 0 <= j < before.len() ==> !is_at(before, hash, j));
            },
        }
        proof {
            assert forall|i: int, j: int| 0 <= i < j < entries@.len() implies #[trigger] entries@[i].0
                != #[trigger] entries@[j].0 by {
                assert(!is_at(before, hash, i) || place is Some);
            }
        }
        self.entries = entries;
        proof {
            let after = self.entries@;
            assert forall|h: PaymentHash, i: int| h != hash implies is_at(after, h, i) == is_at(
                before,
                h,
                i,
            ) by {}
            assert(self@ =~= old(self)@.insert(hash, info));
        }
    }
}

/// A known amount is written as the number that it is, and an unknown one by that word.
pub proof fn amounts_are_written_out(amt: u64)
    ensures
        amount_text(MillisatAmount(Some(amt))) == decimal(amt as nat),
        amount_text(MillisatAmount(None)) == "unknown"@,
{
}

} // verus!

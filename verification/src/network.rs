//! The Bitcoin networks.

use vstd::prelude::*;

verus! {

/// A Bitcoin network that a node can run on.
#[derive(Clone, Copy, Debug, PartialEq, Eq, Structural)]
pub enum Network {
    Bitcoin,
    Testnet,
    Regtest,
    Signet,
}

} // verus!

//! The decisions of a lightning node that keeps its coins in an on-chain wallet.

pub mod args;
pub mod bytes;
pub mod console;
pub mod events;
pub mod forwarding;
pub mod funding;
pub mod hex_utils;
pub mod history;
pub mod network;
pub mod payments;
pub mod seed;
pub mod startup;
pub mod tasks;
pub mod text;
pub mod wallet;

use vstd::prelude::*;

verus! {

/// Marks what follows the chain. Following the chain itself is no part of this mark, nor of [`T`]:
/// neither has a method. Whoever marks a type says that it follows the chain, and has to bound it
/// by the trait through which it does.
pub trait Confirm {

}

/// An object that follows the chain and may be shared between tasks.
pub trait T: Confirm + Sync {

}

impl<O: Confirm + Sync> T for O {

}

} // verus!

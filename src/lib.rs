//! A one-shot rendezvous: one thread waits, another signals it, at most once.

mod lock;
mod rendezvous;

pub use rendezvous::{
    lemma_round_trip_keeps_pairing, tokens, wait_outcome, Shared, SignalToken, WaitToken,
};

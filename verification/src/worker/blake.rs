//! The Blake solver: one hash per nonce.

use super::{Seat, Worker};
use crate::encoding::{blake256, blake2b_256, rlp_of_u64, rlp_u64};
use crate::target::{be_value, Header, Target};
use vstd::prelude::*;

verus! {

/// The Blake solver's answer for a candidate: where the Blake2b digest of the
/// message, read as a big-endian number, is at most the target, the one-part
/// solution made of the RLP-encoded nonce; else nothing.
pub open spec fn blake_answer(seat: Seat) -> Option<Seq<Seq<u8>>> {
    if be_value(blake2b_256(seat.message)) <= seat.target {
        Some(seq![rlp_of_u64(seat.nonce)])
    } else {
        None
    }
}

/// A candidate has a Blake solution exactly when its hash is not above the
/// target.
pub proof fn lemma_blake_target_semantics(seat: Seat)
    ensures
        blake_answer(seat) is Some <==> be_value(blake2b_256(seat.message)) <= seat.target,
{
}

/// The solver of the Blake algorithm.
pub struct BlakeWorker {
    message: Vec<u8>,
    nonce: u64,
    target: Target,
    is_executed: bool,
}

impl BlakeWorker {
    /// A solver that is seated on the empty message, nonce zero and target
    /// zero, and has not run.
    pub fn new() -> (worker: BlakeWorker)
        ensures
            !worker.finished(),
            worker.seat() == (Seat { message: Seq::empty(), nonce: 0, target: 0 }),
    {
        BlakeWorker { message: Vec::new(), nonce: 0, target: Target::zero(), is_executed: false }
    }
}

impl Worker for BlakeWorker {
    closed spec fn finished(&self) -> bool {
        self.is_executed
    }

    closed spec fn seat(&self) -> Seat {
        Seat { message: self.message@, nonce: self.nonce, target: self.target.value() }
    }

    open spec fn answer(&self, seat: Seat) -> Option<Seq<Seq<u8>>> {
        blake_answer(seat)
    }

    fn init(&mut self, header: &Header, nonce: u64, target: &Target) {
        self.message = super::message_with_nonce(header, nonce);
        self.nonce = nonce;
        self.target = *target;
        self.is_executed = false;
    }

    fn proceed(&mut self) -> (solution: Option<Vec<Vec<u8>>>) {
        if self.is_finished() {
            return None;
        }
        self.is_executed = true;
        let hash = blake256(self.message.as_slice());
        if self.target.is_met_by(&hash) {
            let nonce_bytes = rlp_u64(self.nonce);
            let mut parts: Vec<Vec<u8>> = Vec::new();
            parts.push(nonce_bytes);
            assert(parts.deep_view() =~~= seq![rlp_of_u64(self.nonce)]);
            return Some(parts);
        }
        None
    }

    fn is_finished(&self) -> (finished: bool) {
        self.is_executed
    }
}

} // verus!

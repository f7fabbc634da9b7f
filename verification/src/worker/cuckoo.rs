//! The Cuckoo solver: one cycle search per nonce.
//!
//! The search for a cycle is the work of a cycle finder outside this
//! library. The solver here is what stands around it: it seats the candidate,
//! hands out the message to search, and scores the cycle that was found.

use super::{seat_of, Seat};
use crate::encoding::{blake256, blake2b_256, rlp_of_u32_list, rlp_of_u64, rlp_u32_list, rlp_u64};
use crate::target::{be_value, Header, Target};
use vstd::prelude::*;

verus! {

/// The size of the graph a cycle is searched in, and the length of the cycle.
#[derive(Clone, Copy, Debug, PartialEq, Eq)]
pub struct CuckooConfig {
    pub max_vertex: usize,
    pub max_edge: usize,
    pub cycle_length: usize,
}

/// The Cuckoo solver's answer for a candidate, given the cycle that the cycle
/// finder found in the candidate's message, if it found one: where the
/// Blake2b digest of the RLP-encoded cycle, read as a big-endian number, is at
/// most the target, the two-part solution made of the RLP-encoded nonce and
/// the RLP-encoded cycle; else nothing.
pub open spec fn cuckoo_answer(seat: Seat, cycle: Option<Seq<u32>>) -> Option<Seq<Seq<u8>>> {
    match cycle {
        Some(edges) => if be_value(blake2b_256(rlp_of_u32_list(edges))) <= seat.target {
            Some(seq![rlp_of_u64(seat.nonce), rlp_of_u32_list(edges)])
        } else {
            None
        },
        None => None,
    }
}

/// The edges of a cycle, if there is one.
pub open spec fn cycle_view(cycle: Option<Vec<u32>>) -> Option<Seq<u32>> {
    match cycle {
        Some(edges) => Some(edges@),
        None => None,
    }
}

/// A candidate has a Cuckoo solution exactly when a cycle was found and the
/// hash of the encoded cycle is not above the target.
pub proof fn lemma_cuckoo_target_semantics(seat: Seat, cycle: Option<Seq<u32>>)
    ensures
        cuckoo_answer(seat, cycle) is Some <==> cycle is Some && be_value(
            blake2b_256(rlp_of_u32_list(cycle->0)),
        ) <= seat.target,
{
}

/// The solver of the Cuckoo algorithm, without its cycle finder.
pub struct CuckooWorker {
    message: Vec<u8>,
    nonce: u64,
    target: Target,
    is_executed: bool,
    config: CuckooConfig,
}

impl CuckooWorker {
    /// Whether `proceed` has run since the solver was last seated.
    pub closed spec fn finished(&self) -> bool {
        self.is_executed
    }

    /// The candidate the solver is seated on.
    pub closed spec fn seat(&self) -> Seat {
        Seat { message: self.message@, nonce: self.nonce, target: self.target.value() }
    }

    /// The graph the solver was made for.
    pub closed spec fn spec_config(&self) -> CuckooConfig {
        self.config
    }

    /// A solver for graphs of the given size that is seated on the empty
    /// message, nonce zero and target zero, and has not run.
    pub fn new(config: &CuckooConfig) -> (worker: CuckooWorker)
        ensures
            !worker.finished(),
            worker.seat() == (Seat { message: Seq::empty(), nonce: 0, target: 0 }),
            worker.spec_config() == *config,
    {
        CuckooWorker {
            message: Vec::new(),
            nonce: 0,
            target: Target::zero(),
            is_executed: false,
            config: *config,
        }
    }

    /// The graph the solver was made for.
    pub fn config(&self) -> (config: CuckooConfig)
        ensures
            config == self.spec_config(),
    {
        self.config
    }

    /// Seats the solver on `nonce` of the job `(header, target)`.
    pub fn init(&mut self, header: &Header, nonce: u64, target: &Target)
        ensures
            !final(self).finished(),
            final(self).seat() == seat_of(header@, nonce, target.value()),
            final(self).spec_config() == old(self).spec_config(),
    {
        self.message = super::message_with_nonce(header, nonce);
        self.nonce = nonce;
        self.target = *target;
        self.is_executed = false;
    }

    /// The message the cycle finder is to search: the header with the nonce
    /// written into it.
    pub fn message(&self) -> (message: &[u8])
        ensures
            message@ == self.seat().message,
    {
        self.message.as_slice()
    }

    /// Scores the candidate the solver is seated on, given the cycle that the
    /// cycle finder found in `message()`, or `None` where it found none.
    pub fn proceed(&mut self, cycle: Option<Vec<u32>>) -> (solution: Option<Vec<Vec<u8>>>)
        ensures
            final(self).finished(),
            final(self).seat() == old(self).seat(),
            final(self).spec_config() == old(self).spec_config(),
            super::solution_view(solution) == if old(self).finished() {
                None
            } else {
                cuckoo_answer(old(self).seat(), cycle_view(cycle))
            },
    {
        if self.is_finished() {
            return None;
        }
        self.is_executed = true;
        if let Some(edges) = cycle {
            let proof_bytes = rlp_u32_list(edges.as_slice());
            let hash = blake256(proof_bytes.as_slice());
            if self.target.is_met_by(&hash) {
                let nonce_bytes = rlp_u64(self.nonce);
                let mut parts: Vec<Vec<u8>> = Vec::new();
                parts.push(nonce_bytes);
                parts.push(proof_bytes);
                assert(parts.deep_view() =~~= seq![
                    rlp_of_u64(self.nonce),
                    rlp_of_u32_list(edges@),
                ]);
                return Some(parts);
            }
        }
        None
    }

    /// Whether `proceed` has run since the solver was last seated.
    pub fn is_finished(&self) -> (finished: bool)
        ensures
            finished == self.finished(),
    {
        self.is_executed
    }
}

} // verus!

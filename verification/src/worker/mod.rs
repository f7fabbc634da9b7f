//! Solvers and the search loop that drives them.

pub mod blake;
pub mod cuckoo;
pub mod work;

pub use self::blake::BlakeWorker;
pub use self::cuckoo::{CuckooConfig, CuckooWorker};
pub use self::work::{work, JobCounter};

use crate::target::{Header, Target};
use byteorder::ByteOrder;
use vstd::prelude::*;

verus! {

/// The first `len` little-endian bytes of `n`.
pub open spec fn le_bytes(n: nat, len: nat) -> Seq<u8>
    decreases len,
{
    if len == 0 {
        Seq::empty()
    } else {
        seq![(n % 256) as u8] + le_bytes(n / 256, (len - 1) as nat)
    }
}

/// The message a solver hashes: the header with its first 8 bytes replaced
/// by the nonce in little-endian order.
pub open spec fn seated_message(header: Seq<u8>, nonce: u64) -> Seq<u8> {
    le_bytes(nonce as nat, 8) + header.skip(8)
}

/// The message has the length of the header; its first 8 bytes are the
/// nonce's, lowest first, and the bytes after them are the header's.
pub proof fn lemma_seated_message(header: Seq<u8>, nonce: u64)
    requires
        header.len() >= 8,
    ensures
        seated_message(header, nonce).len() == header.len(),
        forall|i: int| 8 <= i < header.len() ==> seated_message(header, nonce)[i] == header[i],
        seated_message(header, nonce).take(8) == seq![
            (nonce as nat % 256) as u8,
            (nonce as nat / 0x100 % 256) as u8,
            (nonce as nat / 0x1_0000 % 256) as u8,
            (nonce as nat / 0x100_0000 % 256) as u8,
            (nonce as nat / 0x1_0000_0000 % 256) as u8,
            (nonce as nat / 0x100_0000_0000 % 256) as u8,
            (nonce as nat / 0x1_0000_0000_0000 % 256) as u8,
            (nonce as nat / 0x100_0000_0000_0000 % 256) as u8,
        ],
{
    reveal_with_fuel(le_bytes, 9);
    let n = nonce as nat;
    assert(n / 256 / 256 == n / 0x1_0000);
    assert(n / 0x1_0000 / 256 == n / 0x100_0000);
    assert(n / 0x100_0000 / 256 == n / 0x1_0000_0000);
    assert(n / 0x1_0000_0000 / 256 == n / 0x100_0000_0000);
    assert(n / 0x100_0000_0000 / 256 == n / 0x1_0000_0000_0000);
    assert(n / 0x1_0000_0000_0000 / 256 == n / 0x100_0000_0000_0000);
    assert(le_bytes(n, 8).len() == 8);
    assert(seated_message(header, nonce).take(8) =~= le_bytes(n, 8));
}

/// What a solver is seated on: one candidate of one job.
pub struct Seat {
    /// The header with the nonce written into it.
    pub message: Seq<u8>,
    /// The candidate nonce.
    pub nonce: u64,
    /// The bound the candidate's hash has to meet.
    pub target: nat,
}

/// The seat that `init` gives a solver for `nonce` of the job `(header, target)`.
pub open spec fn seat_of(header: Seq<u8>, nonce: u64, target: nat) -> Seat {
    Seat { message: seated_message(header, nonce), nonce, target }
}

/// The byte strings of a solution, if there is one.
pub open spec fn solution_view(solution: Option<Vec<Vec<u8>>>) -> Option<Seq<Seq<u8>>> {
    match solution {
        Some(parts) => Some(parts.deep_view()),
        None => None,
    }
}

/// A resettable solver for one proof-of-work algorithm.
///
/// `init` seats it on one candidate nonce; `proceed` then does the one unit of
/// work there is for that candidate and gives its solution, if it has one. A
/// second `proceed` without a new `init` gives nothing.
///
/// The three specification functions say what a solver is in the contracts of
/// its methods. A verified solver defines them; a solver that is not verified
/// leaves them as they stand here and answers for the contracts itself.
pub trait Worker: Send {
    /// Whether `proceed` has run since the solver was last seated.
    open spec fn finished(&self) -> bool {
        arbitrary()
    }

    /// The candidate the solver is seated on.
    open spec fn seat(&self) -> Seat {
        arbitrary()
    }

    /// The solution the solver's algorithm has for a candidate: the one that
    /// `proceed` gives when seated on it, and `None` where the candidate
    /// misses the target.
    open spec fn answer(&self, seat: Seat) -> Option<Seq<Seq<u8>>> {
        arbitrary()
    }

    /// Seats the solver on `nonce` of the job `(header, target)`.
    fn init(&mut self, header: &Header, nonce: u64, target: &Target)
        ensures
            !final(self).finished(),
            final(self).seat() == seat_of(header@, nonce, target.value()),
            forall|seat: Seat| #[trigger] final(self).answer(seat) == old(self).answer(seat),
    ;

    /// Tries the candidate the solver is seated on.
    fn proceed(&mut self) -> (solution: Option<Vec<Vec<u8>>>)
        ensures
            final(self).finished(),
            final(self).seat() == old(self).seat(),
            forall|seat: Seat| #[trigger] final(self).answer(seat) == old(self).answer(seat),
            solution_view(solution) == if old(self).finished() {
                None
            } else {
                old(self).answer(old(self).seat())
            },
    ;

    /// Whether `proceed` has run since the solver was last seated.
    fn is_finished(&self) -> (finished: bool)
        ensures
            finished == self.finished(),
    ;
}

impl<W: Worker + ?Sized> Worker for Box<W> {
    open spec fn finished(&self) -> bool {
        (**self).finished()
    }

    open spec fn seat(&self) -> Seat {
        (**self).seat()
    }

    open spec fn answer(&self, seat: Seat) -> Option<Seq<Seq<u8>>> {
        (**self).answer(seat)
    }

    fn init(&mut self, header: &Header, nonce: u64, target: &Target) {
        (**self).init(header, nonce, target)
    }

    fn proceed(&mut self) -> (solution: Option<Vec<Vec<u8>>>) {
        (**self).proceed()
    }

    fn is_finished(&self) -> (finished: bool) {
        (**self).is_finished()
    }
}

/// Writes `nonce` over the first 8 bytes of `message`.
///
/// Calls `byteorder::LittleEndian::write_u64`. Trusted: the call puts the 8
/// bytes of `nonce`, lowest first, at the start of the buffer and leaves the
/// bytes after them as they were. It panics on a buffer of less than 8 bytes,
/// which is left out.
#[verifier::external_body]
fn write_nonce(message: &mut Vec<u8>, nonce: u64)
    requires
        old(message)@.len() >= 8,
    ensures
        final(message)@ == le_bytes(nonce as nat, 8) + old(message)@.skip(8),
{
    byteorder::LittleEndian::write_u64(message, nonce);
}

/// The message a solver hashes for `nonce` of the job with the header
/// `header`.
pub(crate) fn message_with_nonce(header: &Header, nonce: u64) -> (message: Vec<u8>)
    ensures
        message@ == seated_message(header@, nonce),
{
    let mut message = vstd::slice::slice_to_vec(header.as_bytes().as_slice());
    write_nonce(&mut message, nonce);
    message
}

} // verus!

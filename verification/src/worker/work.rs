//! The search loop and the counter by which a newer job supersedes it.

use super::{seat_of, Seat, Worker};
use crate::target::{Header, Target};
use std::sync::atomic::AtomicUsize;
use std::sync::atomic::Ordering;
use vstd::prelude::*;

verus! {

/// The counter of searches started so far, shared by all search loops.
///
/// Each search takes the next id from it when it starts and reads it between
/// two candidates. The counter only ever grows; what a search reads depends on
/// the searches that other threads have started meanwhile.
pub struct JobCounter {
    started: AtomicUsize,
}

impl JobCounter {
    /// A counter whose first id is `first`.
    pub fn new(first: usize) -> JobCounter {
        JobCounter { started: AtomicUsize::new(first) }
    }

    /// Takes the next id: adds one to the counter and gives the value it had.
    pub fn next_id(&self) -> usize {
        self.started.fetch_add(1, Ordering::SeqCst)
    }

    /// The counter as it stands: the ids given out so far, counted from the
    /// first.
    pub fn current(&self) -> usize {
        self.started.load(Ordering::SeqCst)
    }
}

/// Whether the search with id `id` has to stop once the counter stands at
/// `current`: more than `jobs` searches have started since it took its id.
pub open spec fn superseded(current: usize, id: usize, jobs: usize) -> bool {
    current > id + jobs
}

/// Whether the search with id `id` has to stop once the counter stands at
/// `current`.
pub fn is_superseded(current: usize, id: usize, jobs: usize) -> (stop: bool)
    ensures
        stop == superseded(current, id, jobs),
{
    current > id && current - id > jobs
}

/// Once `n` jobs have been ingested, counted from zero, every search whose id
/// `i` has `i + jobs < n - 1` is superseded.
pub proof fn lemma_supersession(n: usize, i: usize, jobs: usize)
    requires
        i + jobs < n - 1,
    ensures
        superseded(n, i, jobs),
{
}

/// With a window of one, a search holds on while it is the latest and is
/// superseded by the next one to start.
pub proof fn lemma_window_of_one(id: usize)
    requires
        id + 2 <= usize::MAX,
    ensures
        !superseded((id + 1) as usize, id, 1),
        superseded((id + 2) as usize, id, 1),
{
}

/// How one turn of the search loop ended.
pub enum Turn {
    /// A newer job has superseded the search; the candidate was not tried.
    Preempted,
    /// The candidate was tried and is a solution.
    Found(Vec<Vec<u8>>),
    /// The candidate was tried and misses the target.
    Missed,
}

/// One turn of the search loop: with the counter read as `current`, either
/// stops the search with id `id` or tries the candidate `worker` is seated on.
pub fn turn<W: Worker>(worker: &mut W, current: usize, id: usize, jobs: usize) -> (turn: Turn)
    ensures
        final(worker).seat() == old(worker).seat(),
        forall|seat: Seat| #[trigger] final(worker).answer(seat) == old(worker).answer(seat),
        superseded(current, id, jobs) ==> turn is Preempted && final(worker).finished() == old(
            worker,
        ).finished(),
        !superseded(current, id, jobs) ==> final(worker).finished() && match turn {
            Turn::Found(solution) => !old(worker).finished() && old(worker).answer(
                old(worker).seat(),
            ) == Some(solution.deep_view()),
            Turn::Missed => old(worker).finished() || old(worker).answer(old(worker).seat())
                is None,
            Turn::Preempted => false,
        },
{
    if is_superseded(current, id, jobs) {
        return Turn::Preempted;
    }
    match worker.proceed() {
        Some(solution) => Turn::Found(solution),
        None => Turn::Missed,
    }
}

/// How a search over a range of nonces ended.
pub enum Search {
    /// `nonce` is the first candidate with a solution.
    Found { nonce: u64, solution: Vec<Vec<u8>> },
    /// A newer job superseded the search before it tried `nonce`: the counter
    /// was read as `current`.
    Preempted { nonce: u64, current: usize },
    /// No candidate of the range has a solution.
    Exhausted,
}

/// Whether the solver has no solution for any nonce below `end` of the job
/// `(header, target)`.
pub open spec fn none_below<W: Worker>(worker: W, header: Seq<u8>, target: nat, end: int) -> bool {
    forall|nonce: u64| nonce < end ==> (#[trigger] worker.answer(seat_of(header, nonce, target)))
        is None
}

/// Searches the nonces `0..=last` in order for a solution of the job
/// `(header, target)`, as the search with the id `id`.
///
/// Before each candidate the search reads `counter`: it stops without a
/// result as soon as the counter stands above `id + jobs`. With the widest
/// window there is, `usize::MAX`, nothing supersedes a search.
pub fn search<W: Worker>(
    header: &Header,
    target: &Target,
    worker: &mut W,
    counter: &JobCounter,
    id: usize,
    jobs: usize,
    last: u64,
) -> (found: Search)
    ensures
        forall|seat: Seat| #[trigger] final(worker).answer(seat) == old(worker).answer(seat),
        match found {
            Search::Found { nonce, solution } => {
                &&& nonce <= last
                &&& old(worker).answer(seat_of(header@, nonce, target.value())) == Some(
                    solution.deep_view(),
                )
                &&& none_below(*old(worker), header@, target.value(), nonce as int)
            },
            Search::Preempted { nonce, current } => {
                &&& nonce <= last
                &&& none_below(*old(worker), header@, target.value(), nonce as int)
                &&& superseded(current, id, jobs)
            },
            Search::Exhausted => none_below(*old(worker), header@, target.value(), last + 1),
        },
{
    let mut nonce: u64 = 0;
    loop
        invariant
            nonce <= last,
            forall|seat: Seat| #[trigger] worker.answer(seat) == old(worker).answer(seat),
            none_below(*old(worker), header@, target.value(), nonce as int),
        decreases last - nonce,
    {
        worker.init(header, nonce, target);
        while !worker.is_finished()
            invariant
                nonce <= last,
                worker.seat() == seat_of(header@, nonce, target.value()),
                forall|seat: Seat| #[trigger] worker.answer(seat) == old(worker).answer(seat),
                none_below(*old(worker), header@, target.value(), nonce as int),
                worker.finished() ==> worker.answer(seat_of(header@, nonce, target.value()))
                    is None,
            decreases
                    (if worker.finished() {
                        0int
                    } else {
                        1int
                    }),
        {
            let current = counter.current();
            match turn(worker, current, id, jobs) {
                Turn::Preempted => {
                    return Search::Preempted { nonce, current };
                },
                Turn::Found(solution) => {
                    return Search::Found { nonce, solution };
                },
                Turn::Missed => {},
            }
        }
        if nonce == last {
            return Search::Exhausted;
        }
        nonce += 1;
    }
}

/// Searches every nonce, from zero up, for a solution of the job
/// `(header, target)`, and gives the first one found.
///
/// The search takes the next id from `counter` when it starts. It gives
/// nothing where a newer job supersedes the search (see `search`)
/// and where no nonce has a solution. With the widest window there is,
/// `usize::MAX`, nothing supersedes the search, and it gives nothing only
/// where no nonce has a solution.
pub fn work<W: Worker>(
    header: &Header,
    target: &Target,
    worker: W,
    counter: &JobCounter,
    jobs: usize,
) -> (solution: Option<Vec<Vec<u8>>>)
    ensures
        solution matches Some(parts) ==> exists|nonce: u64|
            {
                &&& #[trigger] worker.answer(seat_of(header@, nonce, target.value())) == Some(
                    parts.deep_view(),
                )
                &&& none_below(worker, header@, target.value(), nonce as int)
            },
        solution is None && jobs == usize::MAX ==> none_below(
            worker,
            header@,
            target.value(),
            u64::MAX + 1,
        ),
{
    let mut worker = worker;
    let id = counter.next_id();
    match search(header, target, &mut worker, counter, id, jobs, u64::MAX) {
        Search::Found { solution, .. } => Some(solution),
        Search::Preempted { .. } => None,
        Search::Exhausted => None,
    }
}

} // verus!

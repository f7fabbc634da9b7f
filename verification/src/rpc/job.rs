//! Jobs: a header to mine on and the target to meet.

use crate::hex::strip_0x;
use crate::target::{header_of_text, parse_header, parse_target, target_of_text, Header, Target};
use vstd::prelude::*;

verus! {

/// A job, as values.
#[derive(Clone, Copy, Debug, PartialEq, Eq)]
pub struct Work {
    pub header: Header,
    pub target: Target,
}

/// The header and the target's number that the two texts of a job spell,
/// where both are well-formed and the target has at most 64 characters after
/// its `0x`.
pub open spec fn job_values(header: Seq<char>, target: Seq<char>) -> Option<(Seq<u8>, nat)> {
    match (header_of_text(strip_0x(header)), target_of_text(strip_0x(target))) {
        (Some(h), Some(t)) => if strip_0x(target).len() <= 64 {
            Some((h, t))
        } else {
            None
        },
        _ => None,
    }
}

/// Whether `work` holds the values `values`.
pub open spec fn work_is(work: Option<Work>, values: Option<(Seq<u8>, nat)>) -> bool {
    match (work, values) {
        (Some(w), Some(v)) => w.header@ == v.0 && w.target.value() == v.1,
        (None, None) => true,
        _ => false,
    }
}

/// Reads the header and the target of a job from their texts.
pub fn parse_job(header: &str, target: &str) -> (work: Option<Work>)
    ensures
        work_is(work, job_values(header@, target@)),
{
    match parse_header(header) {
        Some(header) => match parse_target(target) {
            Some(target) => Some(Work { header, target }),
            None => None,
        },
        None => None,
    }
}

} // verus!

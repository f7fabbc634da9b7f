//! The options a miner is started with, read from the values of its command
//! line.

use crate::worker::CuckooConfig;
use vstd::prelude::*;

verus! {

/// The algorithm to mine with.
#[derive(Clone, Copy, Debug, PartialEq, Eq)]
pub enum WorkerConfig {
    Blake,
    Cuckoo(CuckooConfig),
}

/// The subcommand of the command line, with its values as they were typed.
#[derive(Debug, PartialEq, Eq)]
pub enum Subcommand {
    /// `blake`
    Blake,
    /// `cuckoo -n <max vertex> -m <max edge> -l <cycle length>`
    Cuckoo { max_vertex: String, max_edge: String, cycle_length: String },
    /// Anything else.
    Other,
}

/// The number that `text` spells in decimal, where it spells one that fits 64
/// bits.
pub uninterp spec fn decimal_value(text: Seq<char>) -> Option<u64>;

/// Reads a decimal number.
///
/// Calls `str::parse` for a `u64`. Trusted: what comes back depends on the text alone.
#[verifier::external_body]
fn parse_u64(text: &str) -> (number: Option<u64>)
    ensures
        number == decimal_value(text@),
{
    text.parse::<u64>().ok()
}

/// The port that `text` spells: a decimal number of at most 16 bits.
pub open spec fn port_value(text: Seq<char>) -> Option<u16> {
    match decimal_value(text) {
        Some(n) => if n <= u16::MAX {
            Some(n as u16)
        } else {
            None
        },
        None => None,
    }
}

/// The size that `text` spells: a decimal number that fits the machine's word.
pub open spec fn size_value(text: Seq<char>) -> Option<usize> {
    match decimal_value(text) {
        Some(n) => if n <= usize::MAX {
            Some(n as usize)
        } else {
            None
        },
        None => None,
    }
}

/// The options that the values of a command line spell, or what is wrong
/// with the first value that is not well-formed.
pub open spec fn options_of(
    listening_port: Seq<char>,
    submitting_port: Seq<char>,
    subcommand: Subcommand,
) -> Result<(u16, u16, WorkerConfig), Seq<char>> {
    match (port_value(listening_port), port_value(submitting_port)) {
        (None, _) => Err("Invalid listening port"@),
        (Some(_), None) => Err("Invalid submitting port"@),
        (Some(listen), Some(submit)) => match subcommand {
            Subcommand::Blake => Ok((listen, submit, WorkerConfig::Blake)),
            Subcommand::Other => Err("Invalid subcommand"@),
            Subcommand::Cuckoo { max_vertex, max_edge, cycle_length } => match (
                size_value(max_vertex@),
                size_value(max_edge@),
                size_value(cycle_length@),
            ) {
                (None, _, _) => Err("Invalid max vertex"@),
                (Some(_), None, _) => Err("Invalid max edge"@),
                (Some(_), Some(_), None) => Err("Invalid cycle length"@),
                (Some(n), Some(m), Some(l)) => Ok(
                    (
                        listen,
                        submit,
                        WorkerConfig::Cuckoo(
                            CuckooConfig { max_vertex: n, max_edge: m, cycle_length: l },
                        ),
                    ),
                ),
            },
        },
    }
}

/// Whether `options` are the options, or hold the text of the error, that
/// `expected` names.
pub open spec fn options_are(
    options: Result<(u16, u16, WorkerConfig), String>,
    expected: Result<(u16, u16, WorkerConfig), Seq<char>>,
) -> bool {
    match (options, expected) {
        (Ok(got), Ok(want)) => got == want,
        (Err(got), Err(want)) => got@ == want,
        _ => false,
    }
}

/// Reads a port: a decimal number of at most 16 bits.
pub fn parse_port(text: &str) -> (port: Option<u16>)
    ensures
        port == port_value(text@),
{
    match parse_u64(text) {
        Some(n) => if n <= 0xffff {
            Some(n as u16)
        } else {
            None
        },
        None => None,
    }
}

/// Reads a size: a decimal number that fits the machine's word.
pub fn parse_size(text: &str) -> (size: Option<usize>)
    ensures
        size == size_value(text@),
{
    match parse_u64(text) {
        Some(n) => if n <= usize::MAX as u64 {
            Some(n as usize)
        } else {
            None
        },
        None => None,
    }
}

/// Reads the options of a miner from the values of its command line: the
/// port to listen on, the port to submit to, and the algorithm with its
/// parameters.
pub fn get_options(
    listening_port: &str,
    submitting_port: &str,
    subcommand: &Subcommand,
) -> (options: Result<(u16, u16, WorkerConfig), String>)
    ensures
        options_are(options, options_of(listening_port@, submitting_port@, *subcommand)),
{
    let listen = match parse_port(listening_port) {
        Some(port) => port,
        None => {
            return Err(String::from_str("Invalid listening port"));
        },
    };
    let submit = match parse_port(submitting_port) {
        Some(port) => port,
        None => {
            return Err(String::from_str("Invalid submitting port"));
        },
    };
    match subcommand {
        Subcommand::Blake => Ok((listen, submit, WorkerConfig::Blake)),
        Subcommand::Other => Err(String::from_str("Invalid subcommand")),
        Subcommand::Cuckoo { max_vertex, max_edge, cycle_length } => {
            let max_vertex = match parse_size(max_vertex.as_str()) {
                Some(size) => size,
                None => {
                    return Err(String::from_str("Invalid max vertex"));
                },
            };
            let max_edge = match parse_size(max_edge.as_str()) {
                Some(size) => size,
                None => {
                    return Err(String::from_str("Invalid max edge"));
                },
            };
            let cycle_length = match parse_size(cycle_length.as_str()) {
                Some(size) => size,
                None => {
                    return Err(String::from_str("Invalid cycle length"));
                },
            };
            Ok(
                (
                    listen,
                    submit,
                    WorkerConfig::Cuckoo(CuckooConfig { max_vertex, max_edge, cycle_length }),
                ),
            )
        },
    }
}

} // verus!

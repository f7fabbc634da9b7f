//! The HTTP front-end: jobs come in by POST, solutions go out by POST.

use super::job::{job_values, parse_job, work_is, Work};
use super::message::{decimal, params_text, push_params, same_text, to_decimal};
use crate::target::Header;
use vstd::prelude::*;

verus! {

/// How the front-end answers a request.
#[derive(Clone, Copy, Debug, PartialEq, Eq, Structural)]
pub enum Status {
    /// `200 OK`: the job was taken and a search for it is to start.
    Okay,
    /// `400 Bad Request`: the body is no job.
    BadRequest,
    /// `404 Not Found`: the request is no `POST /`.
    NotFound,
}

impl Status {
    /// The number of the status.
    pub open spec fn spec_code(self) -> u16 {
        match self {
            Status::Okay => 200,
            Status::BadRequest => 400,
            Status::NotFound => 404,
        }
    }

    /// The number of the status.
    pub fn code(self) -> (code: u16)
        ensures
            code == self.spec_code(),
    {
        match self {
            Status::Okay => 200,
            Status::BadRequest => 400,
            Status::NotFound => 404,
        }
    }
}

/// The answer to a request, and the job to search for where it brought one.
#[derive(Clone, Copy, Debug, PartialEq, Eq)]
pub struct Reply {
    pub status: Status,
    pub work: Option<Work>,
}

/// Whether a request is the one the front-end serves: `POST /`.
pub open spec fn is_job_route(method: Seq<char>, path: Seq<char>) -> bool {
    method == "POST"@ && path == "/"@
}

/// Whether a request is the one the front-end serves: `POST /`.
pub fn route(method: &str, path: &str) -> (serves: bool)
    ensures
        serves == is_job_route(method@, path@),
{
    same_text(method, "POST") && same_text(path, "/")
}

/// Answers a request. `job` is what the request's body holds, and `None`
/// where the body is no job.
///
/// Anything but `POST /` is not found. A body that is no job, or whose header
/// or target is malformed, is a bad request. Any other request is accepted and
/// brings a job to search for.
pub fn get_work(method: &str, path: &str, job: Option<Job>) -> (reply: Reply)
    ensures
        !is_job_route(method@, path@) ==> reply.status == Status::NotFound && reply.work is None,
        is_job_route(method@, path@) ==> match job {
            Some(posted) => {
                &&& work_is(reply.work, job_values(posted.result.0@, posted.result.1@))
                &&& reply.status == if reply.work is Some {
                    Status::Okay
                } else {
                    Status::BadRequest
                }
            },
            None => reply.status == Status::BadRequest && reply.work is None,
        },
{
    if !route(method, path) {
        return Reply { status: Status::NotFound, work: None };
    }
    match job {
        Some(posted) => match parse_job(posted.result.0.as_str(), posted.result.1.as_str()) {
            Some(work) => Reply { status: Status::Okay, work: Some(work) },
            None => Reply { status: Status::BadRequest, work: None },
        },
        None => Reply { status: Status::BadRequest, work: None },
    }
}

/// The request that hands a solution to the chain node.
#[derive(Clone, Debug, PartialEq, Eq)]
pub struct Submission {
    /// Where to post it.
    pub uri: String,
    /// The type of the body.
    pub content_type: String,
    /// The body: a JSON-RPC request.
    pub body: String,
}

/// The address of the chain node that listens on the local port `port`.
pub open spec fn submit_uri(port: u16) -> Seq<char> {
    "http://127.0.0.1:"@ + decimal(port as nat) + "/"@
}

/// The JSON-RPC request that submits a solution for `header`.
pub open spec fn submit_text(header: Seq<u8>, solution: Seq<Seq<u8>>) -> Seq<char> {
    "{\"jsonrpc\":\"2.0\",\"method\":\"miner_submitWork\",\"params\":"@ + params_text(
        header,
        solution,
    ) + ",\"id\":null}"@
}

/// Makes the request that submits `solution` for the job `hash` to the chain
/// node on the local port `port`.
pub fn submit(hash: Header, solution: Vec<Vec<u8>>, port: u16) -> (request: Submission)
    ensures
        request.uri@ == submit_uri(port),
        request.content_type@ == "application/json"@,
        request.body@ == submit_text(hash@, solution.deep_view()),
{
    let mut uri = String::from_str("http://127.0.0.1:");
    let number = to_decimal(port as usize);
    uri.append(number.as_str());
    uri.append("/");
    let mut body = String::from_str(
        "{\"jsonrpc\":\"2.0\",\"method\":\"miner_submitWork\",\"params\":",
    );
    push_params(&mut body, hash.as_bytes().as_slice(), &solution);
    body.append(",\"id\":null}");
    Submission { uri, content_type: String::from_str("application/json"), body }
}

/// A job as it is posted: the header and the target, as text.
#[derive(Debug)]
pub struct Job {
    /// (hash, target).
    pub result: (String, String),
}

/// The two local ports of the HTTP front-end.
#[derive(Clone, Copy, Debug, PartialEq, Eq)]
pub struct Config {
    pub listen_port: u16,
    pub submitting_port: u16,
}

/// The HTTP front-end.
pub struct Runner {
    listen_port: u16,
    submitting_port: u16,
}

impl Runner {
    /// The port jobs are posted to.
    pub closed spec fn spec_listen_port(&self) -> u16 {
        self.listen_port
    }

    /// The port solutions are posted to.
    pub closed spec fn spec_submitting_port(&self) -> u16 {
        self.submitting_port
    }

    /// The front-end for the given ports.
    pub fn new(config: &Config) -> (runner: Runner)
        ensures
            runner.spec_listen_port() == config.listen_port,
            runner.spec_submitting_port() == config.submitting_port,
    {
        Runner { listen_port: config.listen_port, submitting_port: config.submitting_port }
    }

    /// The port jobs are posted to.
    pub fn listen_port(&self) -> (port: u16)
        ensures
            port == self.spec_listen_port(),
    {
        self.listen_port
    }

    /// The port solutions are posted to.
    pub fn submitting_port(&self) -> (port: u16)
        ensures
            port == self.spec_submitting_port(),
    {
        self.submitting_port
    }
}

} // verus!

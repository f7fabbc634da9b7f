//! What the Stratum front-end is made with, and what it does with a message.

use crate::rpc::job::{job_values, parse_job, work_is, Work};
use crate::rpc::message::{decimal, params_text, push_params, same_text, to_decimal};
use crate::target::Header;
use crate::worker::work::{none_below, work, JobCounter};
use crate::worker::{seat_of, Worker};
use vstd::prelude::*;

verus! {

/// The error a peer reports in a message.
#[derive(Clone, Debug, PartialEq, Eq)]
pub struct RpcError {
    pub code: i32,
    pub message: String,
}

/// What a message of the peer holds, as far as the session reads it.
#[derive(Clone, Debug, PartialEq, Eq)]
pub struct Rpc {
    /// The member `id`, where it is a number that fits.
    pub id: Option<usize>,
    /// The member `result`, where it is a boolean.
    pub result: Option<bool>,
    /// The member `method`, where it is a string.
    pub method: Option<String>,
    /// The member `params`, where it is an array: its strings, and `None`
    /// for each item that is no string.
    pub params: Option<Vec<Option<String>>>,
    /// The member `error`, where it holds a code and a message.
    pub error: Option<RpcError>,
}

/// The members of a JSON value that a session reads, each as far as it has
/// the type that is looked for.
pub struct Members {
    /// `id`, where it is a non-negative integer.
    pub id: Option<u64>,
    /// `result`, where it is a boolean.
    pub result: Option<bool>,
    /// `method`, where it is a string.
    pub method: Option<String>,
    /// `params`, where it is an array: each item, where it is a string.
    pub params: Option<Vec<Option<String>>>,
    /// `code` of `error`, where it is an integer.
    pub error_code: Option<i64>,
    /// `message` of `error`, where it is a string.
    pub error_message: Option<String>,
}

/// The characters of a text, if there is one.
pub open spec fn text_view(text: Option<String>) -> Option<Seq<char>> {
    match text {
        Some(t) => Some(t@),
        None => None,
    }
}

/// The items of `params`, if there are any, each as its characters.
pub open spec fn items_view(items: Option<Vec<Option<String>>>) -> Option<Seq<Option<Seq<char>>>> {
    match items {
        Some(list) => Some(Seq::new(list@.len(), |i: int| text_view(list@[i]))),
        None => None,
    }
}

/// `Members` as values.
pub struct MembersView {
    pub id: Option<u64>,
    pub result: Option<bool>,
    pub method: Option<Seq<char>>,
    pub params: Option<Seq<Option<Seq<char>>>>,
    pub error_code: Option<i64>,
    pub error_message: Option<Seq<char>>,
}

impl View for Members {
    type V = MembersView;

    open spec fn view(&self) -> MembersView {
        MembersView {
            id: self.id,
            result: self.result,
            method: text_view(self.method),
            params: items_view(self.params),
            error_code: self.error_code,
            error_message: text_view(self.error_message),
        }
    }
}

/// `Rpc` as values.
pub struct RpcView {
    pub id: Option<usize>,
    pub result: Option<bool>,
    pub method: Option<Seq<char>>,
    pub params: Option<Seq<Option<Seq<char>>>>,
    pub error: Option<(i32, Seq<char>)>,
}

/// The code and the message of an error, if there is one.
pub open spec fn error_view(error: Option<RpcError>) -> Option<(i32, Seq<char>)> {
    match error {
        Some(e) => Some((e.code, e.message@)),
        None => None,
    }
}

impl View for Rpc {
    type V = RpcView;

    open spec fn view(&self) -> RpcView {
        RpcView {
            id: self.id,
            result: self.result,
            method: text_view(self.method),
            params: items_view(self.params),
            error: error_view(self.error),
        }
    }
}

/// The message that the members make: an `id` that does not fit the machine's
/// word counts as none, and an error is one that has both a code that fits 32
/// bits and a message.
pub open spec fn rpc_of(members: MembersView) -> RpcView {
    RpcView {
        id: match members.id {
            Some(id) => if id <= usize::MAX {
                Some(id as usize)
            } else {
                None
            },
            None => None,
        },
        result: members.result,
        method: members.method,
        params: members.params,
        error: match (members.error_code, members.error_message) {
            (Some(code), Some(message)) => if i32::MIN <= code <= i32::MAX {
                Some((code as i32, message))
            } else {
                None
            },
            _ => None,
        },
    }
}

/// What a line holds when it is read as JSON: its members, and `None` where
/// the line is no JSON value.
pub uninterp spec fn line_members(line: Seq<u8>) -> Option<MembersView>;

/// The message that a line holds, and `None` where the line is no JSON value.
pub open spec fn decoded(line: Seq<u8>) -> Option<RpcView> {
    match line_members(line) {
        Some(members) => Some(rpc_of(members)),
        None => None,
    }
}

/// Whether `rpc` holds the values `view`.
pub open spec fn rpc_is(rpc: Option<Rpc>, view: Option<RpcView>) -> bool {
    match (rpc, view) {
        (Some(r), Some(v)) => r@ == v,
        (None, None) => true,
        _ => false,
    }
}

/// Reads a line as JSON and picks out the members a session looks at.
///
/// Calls `serde_json::from_slice` for a `serde_json::Value`, and on the value
/// `as_u64`, `as_bool`, `as_str`, `as_array` and `as_i64`. Trusted: what comes
/// back depends on the bytes of the line alone; nothing is promised of which
/// lines are JSON.
#[verifier::external_body]
fn read_members(line: &[u8]) -> (members: Option<Members>)
    ensures
        match members {
            Some(m) => line_members(line@) == Some(m@),
            None => line_members(line@) is None,
        },
{
    let value: serde_json::Value = serde_json::from_slice(line).ok()?;
    Some(Members {
        id: value["id"].as_u64(),
        result: value["result"].as_bool(),
        method: value["method"].as_str().map(String::from),
        params: value["params"].as_array().map(|items| {
            items.iter().map(|item| item.as_str().map(String::from)).collect()
        }),
        error_code: value["error"]["code"].as_i64(),
        error_message: value["error"]["message"].as_str().map(String::from),
    })
}

impl Rpc {
    /// The message that the members make.
    pub fn from_members(members: Members) -> (rpc: Rpc)
        ensures
            rpc@ == rpc_of(members@),
    {
        let id = match members.id {
            Some(id) => if id <= usize::MAX as u64 {
                Some(id as usize)
            } else {
                None
            },
            None => None,
        };
        let error = match (members.error_code, members.error_message) {
            (Some(code), Some(message)) => if -0x8000_0000 <= code && code <= 0x7fff_ffff {
                Some(RpcError { code: code as i32, message })
            } else {
                None
            },
            _ => None,
        };
        Rpc { id, result: members.result, method: members.method, params: members.params, error }
    }

    /// Reads the message that a line holds; `None` where the line is no JSON
    /// value.
    pub fn decode(line: &[u8]) -> (rpc: Option<Rpc>)
        ensures
            rpc_is(rpc, decoded(line@)),
    {
        match read_members(line) {
            Some(members) => Some(Rpc::from_members(members)),
            None => None,
        }
    }
}

/// The credentials and the peer's port of a Stratum session.
#[derive(Clone, Debug, PartialEq, Eq)]
pub struct Config {
    pub id: String,
    pub pwd: String,
    pub port: u16,
}

/// The Stratum front-end.
pub struct Runner {
    id: String,
    pwd: String,
    port: u16,
}

impl Runner {
    /// The account the front-end authorizes as.
    pub closed spec fn spec_id(&self) -> Seq<char> {
        self.id@
    }

    /// The password the front-end authorizes with.
    pub closed spec fn spec_pwd(&self) -> Seq<char> {
        self.pwd@
    }

    /// The local port the front-end connects to.
    pub closed spec fn spec_port(&self) -> u16 {
        self.port
    }

    /// The front-end for the given credentials and port.
    pub fn new(config: &Config) -> (runner: Runner)
        ensures
            runner.spec_id() == config.id@,
            runner.spec_pwd() == config.pwd@,
            runner.spec_port() == config.port,
    {
        Runner { id: config.id.clone(), pwd: config.pwd.clone(), port: config.port }
    }

    /// The account the front-end authorizes as.
    pub fn id(&self) -> (id: &str)
        ensures
            id@ == self.spec_id(),
    {
        self.id.as_str()
    }

    /// The password the front-end authorizes with.
    pub fn pwd(&self) -> (pwd: &str)
        ensures
            pwd@ == self.spec_pwd(),
    {
        self.pwd.as_str()
    }

    /// The local port the front-end connects to.
    pub fn port(&self) -> (port: u16)
        ensures
            port == self.spec_port(),
    {
        self.port
    }
}

/// The id that follows `id`: one higher, and zero after the highest number
/// the machine has.
pub open spec fn id_after(id: usize) -> usize {
    if id == usize::MAX {
        0
    } else {
        (id + 1) as usize
    }
}

/// The ids of jobs that come in one after the other grow: each is one higher
/// than the one before, up to the highest number the machine has.
pub proof fn lemma_ids_increase(id: usize)
    requires
        id < usize::MAX,
    ensures
        id_after(id) == id + 1,
        id_after(id) > id,
{
}

/// The ids of the jobs of one session: 1, 2, 3 and so on, in the order in
/// which the jobs come in.
pub struct JobIds {
    next: usize,
}

impl JobIds {
    /// The id that the next job gets.
    pub closed spec fn spec_next(&self) -> usize {
        self.next
    }

    /// The ids of a new session: the first job gets 1.
    pub fn new() -> (ids: JobIds)
        ensures
            ids.spec_next() == 1,
    {
        JobIds { next: 1 }
    }

    /// Gives the next job its id; the job after it gets the id that follows.
    pub fn next_id(&mut self) -> (id: usize)
        ensures
            id == old(self).spec_next(),
            final(self).spec_next() == id_after(id),
    {
        let id = self.next;
        self.next = if id == usize::MAX {
            0
        } else {
            id + 1
        };
        id
    }
}

/// What a session does with a message.
#[derive(Debug, PartialEq, Eq)]
pub enum Dispatched {
    /// The message announces a job: a search for it starts, with this id.
    Job { id: usize },
    /// The message starts nothing. It may name a method that is not served,
    /// and it may report an error; both are worth a line in the log.
    Notice { unsupported: bool, error: Option<RpcError> },
}

/// Whether a message announces a job.
pub open spec fn is_notify(rpc: RpcView) -> bool {
    rpc.method == Some("mining.notify"@)
}

/// Decides what to do with a message: a `mining.notify` starts a job under
/// the next id; anything else starts nothing.
pub fn dispatch(rpc: &Rpc, ids: &mut JobIds) -> (dispatched: Dispatched)
    ensures
        is_notify(rpc@) ==> dispatched == (Dispatched::Job { id: old(ids).spec_next() })
            && final(ids).spec_next() == id_after(old(ids).spec_next()),
        !is_notify(rpc@) ==> *final(ids) == *old(ids) && match dispatched {
            Dispatched::Notice { unsupported, error } => unsupported == (rpc.method is Some)
                && error_view(error) == rpc@.error,
            Dispatched::Job { id } => false,
        },
{
    let unsupported = match &rpc.method {
        Some(method) => {
            if same_text(method.as_str(), "mining.notify") {
                return Dispatched::Job { id: ids.next_id() };
            }
            true
        },
        None => false,
    };
    let error = match &rpc.error {
        Some(e) => Some(RpcError { code: e.code, message: e.message.clone() }),
        None => None,
    };
    Dispatched::Notice { unsupported, error }
}

/// The job that the `params` of a message spell: the header and the target's
/// number, where `params` is an array of two strings that are well-formed.
pub open spec fn job_of_params(params: Option<Seq<Option<Seq<char>>>>) -> Option<(Seq<u8>, nat)> {
    match params {
        Some(items) => if items.len() == 2 {
            match (items[0], items[1]) {
                (Some(header), Some(target)) => job_values(header, target),
                _ => None,
            }
        } else {
            None
        },
        None => None,
    }
}

/// Reads the job that a message announces from its `params`; `None` where
/// they are not a header and a target.
pub fn job_of(req: &Rpc) -> (job: Option<Work>)
    ensures
        work_is(job, job_of_params(req@.params)),
{
    let params = match &req.params {
        Some(params) => params,
        None => {
            return None;
        },
    };
    if params.len() != 2 {
        return None;
    }
    match (&params[0], &params[1]) {
        (Some(header), Some(target)) => parse_job(header.as_str(), target.as_str()),
        _ => None,
    }
}

/// The JSON-RPC request that submits a solution for `header` as the answer to
/// the job `job_id`.
pub open spec fn submit_text(job_id: usize, header: Seq<u8>, solution: Seq<Seq<u8>>) -> Seq<char> {
    "{\"jsonrpc\":\"2.0\",\"id\":"@ + decimal(job_id as nat)
        + ",\"method\":\"mining.submit\",\"params\":"@ + params_text(header, solution) + "}"@
}

/// Makes the request that submits `solution` for the job `hash` under the id
/// `job_id`: one line of JSON, without its line feed.
pub fn submit(job_id: usize, hash: Header, solution: Vec<Vec<u8>>) -> (request: String)
    ensures
        request@ == submit_text(job_id, hash@, solution.deep_view()),
{
    let mut request = String::from_str("{\"jsonrpc\":\"2.0\",\"id\":");
    let number = to_decimal(job_id);
    request.append(number.as_str());
    request.append(",\"method\":\"mining.submit\",\"params\":");
    push_params(&mut request, hash.as_bytes().as_slice(), &solution);
    request.append("}");
    request
}

/// Does the job that a `mining.notify` message announces: searches for a
/// solution of the header and target in its `params`, and makes the request
/// that submits it.
///
/// Nothing comes back where the `params` are not a header and a target, where
/// a newer job supersedes the search, and where no nonce has a solution. With
/// the widest window there is, `usize::MAX`, nothing supersedes the search.
pub fn get_work<W: Worker>(
    worker: W,
    counter: &JobCounter,
    jobs: usize,
    job_id: usize,
    req: &Rpc,
) -> (request: Option<String>)
    ensures
        job_of_params(req@.params) is None ==> request is None,
        request matches Some(text) ==> job_of_params(req@.params) matches Some(job) && exists|
            nonce: u64,
            solution: Seq<Seq<u8>>,
        |
            #![trigger
                worker.answer(seat_of(job.0, nonce, job.1)),
                submit_text(job_id, job.0, solution),
            ]
            {
                &&& worker.answer(seat_of(job.0, nonce, job.1)) == Some(solution)
                &&& none_below(worker, job.0, job.1, nonce as int)
                &&& text@ == submit_text(job_id, job.0, solution)
            },
        request is None && jobs == usize::MAX ==> match job_of_params(req@.params) {
            Some(job) => none_below(worker, job.0, job.1, u64::MAX + 1),
            None => true,
        },
{
    let job = match job_of(req) {
        Some(job) => job,
        None => {
            return None;
        },
    };
    match work(&job.header, &job.target, worker, counter, jobs) {
        Some(solution) => Some(submit(job_id, job.header, solution)),
        None => None,
    }
}

} // verus!

use codechain_miner::rpc::stratum::client::{Connect, Event, Input, Polled, Serve, State};
use codechain_miner::rpc::stratum::dispatch::{dispatch_fn, Dispatch, NewDispatch};
use codechain_miner::rpc::stratum::error::{Error, Kind};
use codechain_miner::rpc::stratum::frame::{take_frame, take_frames};
use codechain_miner::rpc::job::Work;
use codechain_miner::rpc::stratum::runner::{
    dispatch, get_work, job_of, submit, Config, Dispatched, JobIds, Members, Rpc, RpcError, Runner,
};
use codechain_miner::target::{Header, Target};
use codechain_miner::worker::work::JobCounter;
use codechain_miner::worker::BlakeWorker;

fn serve() -> Serve {
    Serve::new("miner".to_string(), "secret".to_string())
}

fn read(text: &str) -> Event {
    Event::Input(Input::Read(text.as_bytes().to_vec()))
}

fn working() -> Serve {
    let mut serve = serve();
    assert_eq!(serve.poll(Event::Connect(Connect::Ready)), Ok(Polled::Advanced));
    let sent = serve.output().len();
    serve.written(sent);
    assert_eq!(serve.poll(read("{\"id\":1,\"result\":true}\n")), Ok(Polled::Advanced));
    assert_eq!(serve.state(), State::Working);
    serve
}

fn lines(bytes: &[u8]) -> Vec<serde_json::Value> {
    assert_eq!(bytes.last(), Some(&b'\n'));
    std::str::from_utf8(bytes)
        .unwrap()
        .lines()
        .map(|line| serde_json::from_str(line).unwrap())
        .collect()
}

fn notify(header: &str, target: &str) -> String {
    format!("{{\"id\":2,\"method\":\"mining.notify\",\"params\":[\"{}\",\"{}\"]}}\n", header, target)
}

fn empty_rpc() -> Rpc {
    Rpc { id: None, result: None, method: None, params: None, error: None }
}

#[test]
fn each_kind_of_error_has_its_description() {
    let cases = [
        (Error::new_incomplete(), Kind::Incomplete, "parsed JSON message from remote is incomplete"),
        (Error::new_closed(), Kind::Closed, "connection closed"),
        (Error::new_authenticate(), Kind::Authenticate, "an error occurred trying to authenticate"),
        (Error::new_execute(), Kind::Execute, "executor failed to spawn task"),
    ];
    for (error, kind, description) in cases.iter() {
        assert_eq!(error.kind(), *kind);
        assert_eq!(error.description(), *description);
        assert_eq!(error.cause(), None);
        assert_eq!(error.to_string(), *description);
    }
}

#[test]
fn errors_with_a_cause_show_it_after_the_description() {
    let io = Error::new_io("broken pipe".to_string());
    assert_eq!(io.kind(), Kind::Io);
    assert_eq!(io.description(), "an IO error occurred");
    assert_eq!(io.cause(), Some("broken pipe"));
    assert_eq!(io.to_string(), "an IO error occurred: broken pipe");

    let connect = Error::new_connect("connection refused".to_string());
    assert_eq!(connect.kind(), Kind::Connect);
    assert_eq!(connect.description(), "an error occurred trying to connect");
    assert_eq!(connect.to_string(), "an error occurred trying to connect: connection refused");

    let made = Error::new(Kind::Closed, Some("eof".to_string()));
    assert_eq!(made.kind(), Kind::Closed);
    assert_eq!(made.to_string(), "connection closed: eof");
    assert_eq!(Error::new(Kind::Closed, None), Error::new_closed());
    assert_ne!(Error::new_closed(), Error::new_incomplete());
}

#[test]
fn a_frame_is_the_bytes_before_a_line_feed() {
    let mut buf = b"first\nsecond\npart".to_vec();
    assert_eq!(take_frame(&mut buf), Some(b"first".to_vec()));
    assert_eq!(buf, b"second\npart".to_vec());
    assert_eq!(take_frame(&mut buf), Some(b"second".to_vec()));
    assert_eq!(buf, b"part".to_vec());
    assert_eq!(take_frame(&mut buf), None);
    assert_eq!(buf, b"part".to_vec());
}

#[test]
fn empty_frames_and_empty_buffers() {
    let mut buf = b"\n\nx\n".to_vec();
    assert_eq!(take_frame(&mut buf), Some(Vec::new()));
    assert_eq!(buf, b"\nx\n".to_vec());
    assert_eq!(take_frames(&mut buf), vec![Vec::new(), b"x".to_vec()]);
    assert!(buf.is_empty());
    assert_eq!(take_frame(&mut buf), None);
    assert_eq!(take_frames(&mut buf), Vec::<Vec<u8>>::new());
    let mut only = b"\n".to_vec();
    assert_eq!(take_frames(&mut only), vec![Vec::<u8>::new()]);
    assert!(only.is_empty());
}

#[test]
fn one_frame_per_line_feed_and_the_rest_stays() {
    let mut buf = b"{\"a\":1}\n{\"b\":2}\n{\"c\":".to_vec();
    let feeds = buf.iter().filter(|b| **b == b'\n').count();
    let frames = take_frames(&mut buf);
    assert_eq!(frames.len(), feeds);
    assert_eq!(frames, vec![b"{\"a\":1}".to_vec(), b"{\"b\":2}".to_vec()]);
    assert_eq!(buf, b"{\"c\":".to_vec());
    let mut joined: Vec<u8> = Vec::new();
    for frame in frames.iter() {
        assert!(!frame.contains(&b'\n'));
        joined.extend_from_slice(frame);
        joined.push(b'\n');
    }
    joined.extend_from_slice(&buf);
    assert_eq!(joined, b"{\"a\":1}\n{\"b\":2}\n{\"c\":".to_vec());
}

#[test]
fn reading_in_pieces_gives_the_frames_of_the_whole() {
    let whole = b"one\ntwo\nthree\nfo".to_vec();
    let mut at_once = whole.clone();
    let expected = take_frames(&mut at_once);
    for cut in 0..=whole.len() {
        let mut buf = whole[..cut].to_vec();
        let mut frames = take_frames(&mut buf);
        buf.extend_from_slice(&whole[cut..]);
        frames.extend(take_frames(&mut buf));
        assert_eq!(frames, expected);
        assert_eq!(buf, at_once);
    }
}

#[test]
fn a_line_is_decoded_into_the_members_a_session_reads() {
    let rpc = Rpc::decode(b"{\"id\":7,\"result\":true,\"method\":\"mining.notify\",\"params\":[\"0xab\",5,\"0xcd\"],\"error\":{\"code\":-3,\"message\":\"stale\"},\"extra\":[1]}").unwrap();
    assert_eq!(rpc.id, Some(7));
    assert_eq!(rpc.result, Some(true));
    assert_eq!(rpc.method.as_deref(), Some("mining.notify"));
    assert_eq!(rpc.params, Some(vec![Some("0xab".to_string()), None, Some("0xcd".to_string())]));
    assert_eq!(rpc.error, Some(RpcError { code: -3, message: "stale".to_string() }));
}

#[test]
fn members_of_another_type_count_as_absent() {
    assert_eq!(Rpc::decode(b"{}"), Some(empty_rpc()));
    assert_eq!(Rpc::decode(b"[1,2]"), Some(empty_rpc()));
    assert_eq!(Rpc::decode(b"null"), Some(empty_rpc()));
    let odd = Rpc::decode(b"{\"id\":\"1\",\"result\":1,\"method\":4,\"params\":{},\"error\":\"no\"}");
    assert_eq!(odd, Some(empty_rpc()));
    assert_eq!(Rpc::decode(b"{\"id\":-1}").unwrap().id, None);
    assert_eq!(Rpc::decode(b"{\"id\":1.0}").unwrap().id, None);
    assert_eq!(Rpc::decode(b"{\"id\":0}").unwrap().id, Some(0));
    assert_eq!(Rpc::decode(b"{\"result\":false}").unwrap().result, Some(false));
    assert_eq!(Rpc::decode(b"{\"params\":[]}").unwrap().params, Some(Vec::new()));
    assert_eq!(Rpc::decode(b"{\"error\":{\"code\":1}}").unwrap().error, None);
    assert_eq!(Rpc::decode(b"{\"error\":{\"message\":\"m\"}}").unwrap().error, None);
    assert_eq!(Rpc::decode(b"{\"error\":null}").unwrap().error, None);
}

#[test]
fn a_line_that_is_no_json_is_not_decoded() {
    assert_eq!(Rpc::decode(b"not-json"), None);
    assert_eq!(Rpc::decode(b""), None);
    assert_eq!(Rpc::decode(b"{\"id\":1"), None);
    assert_eq!(Rpc::decode(b"{\"id\":1}}"), None);
    assert_eq!(Rpc::decode(&[b'"', 0xff, b'"']), None);
}

#[test]
fn members_make_a_message() {
    let members = Members {
        id: Some(9),
        result: Some(false),
        method: Some("m".to_string()),
        params: Some(vec![None]),
        error_code: Some(2147483647),
        error_message: Some("top".to_string()),
    };
    let rpc = Rpc::from_members(members);
    assert_eq!(rpc.id, Some(9));
    assert_eq!(rpc.result, Some(false));
    assert_eq!(rpc.method.as_deref(), Some("m"));
    assert_eq!(rpc.params, Some(vec![None]));
    assert_eq!(rpc.error, Some(RpcError { code: i32::MAX, message: "top".to_string() }));

    let lowest = Members {
        id: None,
        result: None,
        method: None,
        params: None,
        error_code: Some(-2147483648),
        error_message: Some(String::new()),
    };
    assert_eq!(Rpc::from_members(lowest).error, Some(RpcError { code: i32::MIN, message: String::new() }));
    for code in [2147483648i64, -2147483649, i64::MAX, i64::MIN] {
        let wide = Members {
            id: None,
            result: None,
            method: None,
            params: None,
            error_code: Some(code),
            error_message: Some("wide".to_string()),
        };
        assert_eq!(Rpc::from_members(wide), empty_rpc());
    }
    assert_eq!(Rpc::decode(b"{\"error\":{\"code\":4294967296,\"message\":\"m\"}}").unwrap().error, None);
}

#[test]
fn new_session_is_connecting_with_empty_buffers() {
    let serve = serve();
    assert_eq!(serve.state(), State::Connecting);
    assert!(serve.output().is_empty());
}

#[test]
fn pending_connection_changes_nothing() {
    let mut serve = serve();
    assert_eq!(serve.connected(Connect::Pending), Ok(false));
    assert_eq!(serve.connected(Connect::Ready), Ok(true));
    assert_eq!(serve.poll(Event::Connect(Connect::Pending)), Ok(Polled::NotReady));
    assert_eq!(serve.state(), State::Connecting);
    assert!(serve.output().is_empty());
}

#[test]
fn failed_dial_is_a_connect_error() {
    let mut serve = serve();
    let error = serve.poll(Event::Connect(Connect::Failed("refused".to_string()))).unwrap_err();
    assert_eq!(error.kind(), Kind::Connect);
    assert_eq!(error.cause(), Some("refused"));
    assert_eq!(error.to_string(), "an error occurred trying to connect: refused");
    assert!(serve.output().is_empty());
    assert_eq!(serve.connected(Connect::Failed("no route".to_string())).unwrap_err().kind(), Kind::Connect);
}

#[test]
fn input_before_the_connection_stands_is_not_taken() {
    let mut serve = serve();
    assert_eq!(serve.poll(read("{\"id\":1,\"result\":true}\n")), Ok(Polled::NotReady));
    assert_eq!(serve.state(), State::Connecting);
    let mut working = working();
    assert_eq!(working.poll(Event::Connect(Connect::Ready)), Ok(Polled::NotReady));
    assert_eq!(working.state(), State::Working);
    assert!(working.output().is_empty());
}

#[test]
fn stratum_happy_path() {
    let mut serve = serve();
    assert_eq!(serve.poll(Event::Connect(Connect::Ready)), Ok(Polled::Advanced));
    assert_eq!(serve.state(), State::Authenticating);

    // The authorize frame, with the exact id 1.
    let sent = lines(serve.output());
    assert_eq!(sent.len(), 1);
    assert_eq!(sent[0]["jsonrpc"], "2.0");
    assert_eq!(sent[0]["id"], 1);
    assert_eq!(sent[0]["method"], "mining.authorize");
    assert_eq!(sent[0]["params"][0], "miner");
    assert_eq!(sent[0]["params"][1], "secret");
    assert_eq!(sent[0]["params"].as_array().unwrap().len(), 2);
    assert_eq!(
        serve.output(),
        &b"{\"jsonrpc\":\"2.0\",\"id\":1,\"method\":\"mining.authorize\",\"params\":[\"miner\",\"secret\"]}\n"[..]
    );
    let n = serve.output().len();
    serve.written(n);
    assert!(serve.output().is_empty());

    assert_eq!(serve.poll(read("{\"id\":1,\"result\":true}\n")), Ok(Polled::Advanced));
    assert_eq!(serve.state(), State::Working);

    let header = format!("0x{}", "0".repeat(64));
    let target = format!("0x{}", "f".repeat(64));
    let request = match serve.poll(read(&notify(&header, &target))) {
        Ok(Polled::Request(request)) => request,
        other => panic!("a message was read: {:?}", other),
    };
    assert_eq!(request.id, Some(2));

    let mut ids = JobIds::new();
    let counter = JobCounter::new(0);
    let job_id = match dispatch(&request, &mut ids) {
        Dispatched::Job { id } => id,
        other => panic!("the message announces a job: {:?}", other),
    };
    assert_eq!(job_id, 1);
    let submission = get_work(BlakeWorker::new(), &counter, 1, job_id, &request).unwrap();
    assert_eq!(serve.poll(Event::Queued(submission)), Ok(Polled::NotReady));

    let sent = lines(serve.output());
    assert_eq!(sent.len(), 1);
    assert_eq!(sent[0]["jsonrpc"], "2.0");
    assert_eq!(sent[0]["method"], "mining.submit");
    assert_eq!(sent[0]["id"], 1);
    assert_eq!(sent[0]["params"][0], header.as_str());
    assert_eq!(sent[0]["params"][1].as_array().unwrap().len(), 1);
    assert_eq!(rlp::encode(&0u64).to_vec(), vec![0x80]);
    assert_eq!(sent[0]["params"][1][0], "0x80");
}

#[test]
fn stratum_auth_failure() {
    let mut serve = serve();
    assert_eq!(serve.poll(Event::Connect(Connect::Ready)), Ok(Polled::Advanced));
    let n = serve.output().len();
    serve.written(n);
    let error = serve.poll(read("{\"id\":1,\"result\":false}\n")).unwrap_err();
    assert_eq!(error.kind(), Kind::Authenticate);
    assert_eq!(error.cause(), None);
    assert_eq!(error, Error::new_authenticate());
    assert!(serve.output().is_empty());
    assert_eq!(serve.state(), State::Authenticating);
}

#[test]
fn consent_needs_the_id_one_and_the_result_true() {
    for answer in [
        "{\"id\":2,\"result\":true}\n",
        "{\"result\":true}\n",
        "{\"id\":1}\n",
        "{\"id\":1,\"result\":\"true\"}\n",
        "{\"id\":1.0,\"result\":true}\n",
        "{\"id\":1,\"result\":null,\"error\":{\"code\":1,\"message\":\"no\"}}\n",
        "[]\n",
    ] {
        let mut serve = serve();
        assert!(serve.authenticate().is_ok());
        let error = serve.authenticated(Input::Read(answer.as_bytes().to_vec())).unwrap_err();
        assert_eq!(error.kind(), Kind::Authenticate, "{}", answer);
    }
    let mut serve = serve();
    assert_eq!(serve.authenticated(Input::Read(b"{\"result\":true,\"id\":1,\"x\":0}\n".to_vec())), Ok(true));
    assert_eq!(serve.authenticated(Input::Pending), Ok(false));
    assert_eq!(serve.authenticated(Input::Read(b"{\"id\":1,".to_vec())), Ok(false));
    assert_eq!(serve.authenticated(Input::Read(b"\"result\":true}\n".to_vec())), Ok(true));
}

#[test]
fn credentials_are_written_as_json_strings() {
    let mut serve = Serve::new("mi\"ner\\1".to_string(), "p\u{e4}ss\nword\t".to_string());
    assert_eq!(serve.authenticate(), Ok(()));
    let sent = lines(serve.output());
    assert_eq!(sent.len(), 1);
    assert_eq!(sent[0]["params"][0], "mi\"ner\\1");
    assert_eq!(sent[0]["params"][1], "p\u{e4}ss\nword\t");
    let text = std::str::from_utf8(serve.output()).unwrap();
    assert!(text.contains("\"mi\\\"ner\\\\1\""));
    assert_eq!(text.matches('\n').count(), 1);
}

#[test]
fn closed_connection_ends_the_session() {
    let mut serve = working();
    let error = serve.poll(Event::Input(Input::Read(Vec::new()))).unwrap_err();
    assert_eq!(error.kind(), Kind::Closed);
    assert_eq!(error, Error::new_closed());
    let mut early = serve_authenticating();
    assert_eq!(early.poll(Event::Input(Input::Read(Vec::new()))).unwrap_err().kind(), Kind::Closed);
}

fn serve_authenticating() -> Serve {
    let mut serve = serve();
    assert_eq!(serve.poll(Event::Connect(Connect::Ready)), Ok(Polled::Advanced));
    serve
}

#[test]
fn failed_read_is_an_io_error() {
    let mut serve = working();
    let error = serve.poll(Event::Input(Input::Failed("reset by peer".to_string()))).unwrap_err();
    assert_eq!(error.kind(), Kind::Io);
    assert_eq!(error.cause(), Some("reset by peer"));
    assert_eq!(error.to_string(), "an IO error occurred: reset by peer");
    let mut early = serve_authenticating();
    let error = early.poll(Event::Input(Input::Failed("timed out".to_string()))).unwrap_err();
    assert_eq!(error, Error::new_io("timed out".to_string()));
}

#[test]
fn malformed_line_is_incomplete() {
    let mut serve = working();
    let error = serve.poll(read("not-json\n")).unwrap_err();
    assert_eq!(error.kind(), Kind::Incomplete);
    assert_eq!(error.cause(), None);
    let mut early = serve_authenticating();
    assert_eq!(early.poll(read("{\"id\":1,\n")).unwrap_err().kind(), Kind::Incomplete);
}

#[test]
fn partial_lines_stay_buffered_across_reads() {
    let mut serve = working();
    assert_eq!(serve.poll(Event::Input(Input::Pending)), Ok(Polled::NotReady));
    assert_eq!(serve.poll(read("{\"method\":")), Ok(Polled::NotReady));
    assert_eq!(serve.poll(read("\"mining.")), Ok(Polled::NotReady));
    match serve.poll(read("notify\"}\n{\"method\":\"other\"}\n{\"id\"")) {
        Ok(Polled::Request(rpc)) => assert_eq!(rpc.method.as_deref(), Some("mining.notify")),
        other => panic!("the first line is whole: {:?}", other),
    }
    // One message per read: the second line comes out at the next read, also
    // where the socket has nothing new.
    match serve.poll(Event::Input(Input::Pending)) {
        Ok(Polled::Request(rpc)) => assert_eq!(rpc.method.as_deref(), Some("other")),
        other => panic!("the second line is whole: {:?}", other),
    }
    assert_eq!(serve.poll(Event::Input(Input::Pending)), Ok(Polled::NotReady));
    match serve.poll(read(":5}\n")) {
        Ok(Polled::Request(rpc)) => assert_eq!(rpc.id, Some(5)),
        other => panic!("the third line is whole: {:?}", other),
    }
    assert_eq!(serve.poll(read("x")), Ok(Polled::NotReady));
    assert_eq!(serve.poll(Event::Input(Input::Pending)), Ok(Polled::NotReady));
}

#[test]
fn every_line_of_one_read_comes_out() {
    let mut serve = serve();
    assert_eq!(serve.poll(Event::Connect(Connect::Ready)), Ok(Polled::Advanced));
    let arrived = "{\"id\":1,\"result\":true}\n{\"id\":2}\n{\"id\":3}\n{\"id\":4}\n{\"id\":";
    assert_eq!(serve.poll(read(arrived)), Ok(Polled::Advanced));
    let mut ids = Vec::new();
    loop {
        match serve.poll(Event::Input(Input::Pending)) {
            Ok(Polled::Request(rpc)) => ids.push(rpc.id),
            Ok(Polled::NotReady) => break,
            other => panic!("the lines are whole: {:?}", other),
        }
    }
    assert_eq!(ids, vec![Some(2), Some(3), Some(4)]);
    assert_eq!(arrived.matches('\n').count(), 4);
    match serve.poll(read("5}\n")) {
        Ok(Polled::Request(rpc)) => assert_eq!(rpc.id, Some(5)),
        other => panic!("the last line is whole: {:?}", other),
    }
}

#[test]
fn a_buffered_line_that_is_no_json_ends_the_session_when_its_turn_comes() {
    let mut serve = working();
    match serve.poll(read("{\"id\":7}\nnot-json\n")) {
        Ok(Polled::Request(rpc)) => assert_eq!(rpc.id, Some(7)),
        other => panic!("the first line is whole: {:?}", other),
    }
    assert_eq!(serve.poll(Event::Input(Input::Pending)).unwrap_err().kind(), Kind::Incomplete);
}

#[test]
fn working_queues_a_line_and_reads() {
    let mut serve = working();
    let read = serve.working(Some("{\"id\":3}".to_string()), Input::Read(b"{\"id\":4}\n".to_vec()));
    assert_eq!(read.unwrap().unwrap().id, Some(4));
    assert_eq!(serve.output(), &b"{\"id\":3}\n"[..]);
    assert_eq!(serve.working(None, Input::Pending), Ok(None));
    assert_eq!(serve.working(Some("b".to_string()), Input::Read(Vec::new())).unwrap_err().kind(), Kind::Closed);
    assert_eq!(serve.output(), &b"{\"id\":3}\nb\n"[..]);
}

#[test]
fn submissions_leave_in_the_order_they_were_queued() {
    let mut serve = working();
    serve.write("first");
    assert_eq!(serve.poll(Event::Queued("second".to_string())), Ok(Polled::NotReady));
    serve.write("th\u{ef}rd");
    assert_eq!(serve.output(), "first\nsecond\nth\u{ef}rd\n".as_bytes());
    serve.written(3);
    assert_eq!(serve.output(), "st\nsecond\nth\u{ef}rd\n".as_bytes());
    serve.written(0);
    assert_eq!(serve.output().len(), 17);
    serve.written(17);
    assert!(serve.output().is_empty());
    assert_eq!(serve.state(), State::Working);
}

#[test]
fn job_ids_start_at_one_and_grow() {
    let mut ids = JobIds::new();
    assert_eq!(ids.next_id(), 1);
    assert_eq!(ids.next_id(), 2);
    assert_eq!(ids.next_id(), 3);
    let mut last = 3;
    for _ in 0..100 {
        let id = ids.next_id();
        assert!(id > last);
        last = id;
    }
}

#[test]
fn notify_starts_a_job_under_the_next_id() {
    let mut ids = JobIds::new();
    let mut rpc = empty_rpc();
    rpc.method = Some("mining.notify".to_string());
    assert_eq!(dispatch(&rpc, &mut ids), Dispatched::Job { id: 1 });
    rpc.error = Some(RpcError { code: 1, message: "both".to_string() });
    assert_eq!(dispatch(&rpc, &mut ids), Dispatched::Job { id: 2 });
    assert_eq!(ids.next_id(), 3);
}

#[test]
fn other_messages_start_nothing() {
    let mut ids = JobIds::new();
    let mut rpc = empty_rpc();
    assert_eq!(dispatch(&rpc, &mut ids), Dispatched::Notice { unsupported: false, error: None });
    rpc.method = Some("mining.set_difficulty".to_string());
    assert_eq!(dispatch(&rpc, &mut ids), Dispatched::Notice { unsupported: true, error: None });
    rpc.method = Some("mining.notify ".to_string());
    assert_eq!(dispatch(&rpc, &mut ids), Dispatched::Notice { unsupported: true, error: None });
    let error = RpcError { code: -32000, message: "stale share".to_string() };
    rpc.error = Some(error.clone());
    assert_eq!(dispatch(&rpc, &mut ids), Dispatched::Notice { unsupported: true, error: Some(error.clone()) });
    rpc.method = None;
    assert_eq!(dispatch(&rpc, &mut ids), Dispatched::Notice { unsupported: false, error: Some(error) });
    // No id was used up.
    assert_eq!(ids.next_id(), 1);
}

#[test]
fn submit_request_text() {
    let mut bytes = [0u8; 32];
    bytes[31] = 0x0f;
    let text = submit(42, Header::new(bytes), vec![vec![0x05], vec![0xc1, 0x09]]);
    let header = format!("0x{}0f", "0".repeat(62));
    assert_eq!(
        text,
        format!(
            "{{\"jsonrpc\":\"2.0\",\"id\":42,\"method\":\"mining.submit\",\"params\":[\"{}\",[\"0x05\",\"0xc109\"]]}}",
            header
        )
    );
    let value: serde_json::Value = serde_json::from_str(&text).unwrap();
    assert_eq!(value["id"], 42);
    assert_eq!(value["params"][1][1], "0xc109");
    assert_eq!(value.as_object().unwrap().len(), 4);
    let zero = submit(0, Header::new([0; 32]), Vec::new());
    let value: serde_json::Value = serde_json::from_str(&zero).unwrap();
    assert_eq!(value["id"], 0);
    assert_eq!(value["params"][1].as_array().unwrap().len(), 0);
    let big = submit(usize::MAX, Header::new([0; 32]), Vec::new());
    let value: serde_json::Value = serde_json::from_str(&big).unwrap();
    assert_eq!(value["id"].as_u64(), Some(usize::MAX as u64));
}

#[test]
fn params_that_are_no_job_start_no_search() {
    let counter = JobCounter::new(0);
    let header = format!("0x{}", "0".repeat(64));
    let target = format!("0x{}", "f".repeat(64));
    let cases: Vec<Option<Vec<Option<String>>>> = vec![
        None,
        Some(vec![]),
        Some(vec![Some(header.clone())]),
        Some(vec![Some(header.clone()), Some(target.clone()), Some(target.clone())]),
        Some(vec![Some(header.clone()), None]),
        Some(vec![None, Some(target.clone())]),
        Some(vec![Some("0x12".to_string()), Some(target.clone())]),
        Some(vec![Some(header.clone()), Some("0xgg".to_string())]),
        Some(vec![Some(target.clone()), Some(format!("{}0", target))]),
    ];
    for params in cases {
        let mut rpc = empty_rpc();
        rpc.method = Some("mining.notify".to_string());
        rpc.params = params.clone();
        assert_eq!(job_of(&rpc), None, "{:?}", params);
        assert_eq!(get_work(BlakeWorker::new(), &counter, 1, 1, &rpc), None, "{:?}", params);
    }
    // No search took an id.
    assert_eq!(counter.current(), 0);
}

#[test]
fn params_of_two_texts_are_a_job() {
    let mut rpc = empty_rpc();
    rpc.params = Some(vec![Some(format!("0x{}", "5a".repeat(32))), Some("0x0100".to_string())]);
    let mut target = [0u8; 32];
    target[30] = 1;
    let expected = Work { header: Header::new([0x5a; 32]), target: Target::from_be_bytes(target) };
    assert_eq!(job_of(&rpc), Some(expected));
    rpc.params = Some(vec![Some("5a".repeat(32)), Some("100".to_string())]);
    assert_eq!(job_of(&rpc), Some(expected));
}

#[test]
fn superseded_job_submits_nothing() {
    let counter = JobCounter::new(0);
    let rpc = Rpc::decode(notify(&format!("0x{}", "0".repeat(64)), "0x0").trim_end().as_bytes()).unwrap();
    assert_eq!(get_work(BlakeWorker::new(), &counter, 0, 1, &rpc), None);
    assert_eq!(counter.current(), 1);
}

#[test]
fn stratum_runner_keeps_its_credentials() {
    let config = Config { id: "miner".to_string(), pwd: "secret".to_string(), port: 9000 };
    let runner = Runner::new(&config);
    assert_eq!(runner.id(), "miner");
    assert_eq!(runner.pwd(), "secret");
    assert_eq!(runner.port(), 9000);
}

#[test]
fn a_function_is_a_dispatcher() {
    let mut echo = dispatch_fn(|rpc: Rpc| rpc.method);
    let mut rpc = empty_rpc();
    assert_eq!(echo.call(rpc.clone()), None);
    rpc.method = Some("ping".to_string());
    assert_eq!(echo.call(rpc), Some("ping".to_string()));

    let maker = || dispatch_fn(|rpc: Rpc| rpc.id.map(|id| id.to_string()));
    let mut made = maker.new_dispatch();
    let mut with_id = empty_rpc();
    with_id.id = Some(12);
    assert_eq!(made.call(with_id), Some("12".to_string()));
}

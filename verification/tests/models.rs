use codechain_miner::rpc::http::submit as http_submit;
use codechain_miner::rpc::message::{seal, to_decimal};
use codechain_miner::rpc::stratum::client::Serve;
use codechain_miner::rpc::stratum::frame::{take_frame, take_frames};
use codechain_miner::rpc::stratum::runner::submit as stratum_submit;
use codechain_miner::target::{parse_header, parse_target, Header, Target};

/// A small generator of numbers, the same on every run.
struct Numbers(u64);

impl Numbers {
    fn next(&mut self) -> u64 {
        self.0 = self.0.wrapping_mul(6364136223846793005).wrapping_add(1442695040888963407);
        self.0 >> 33
    }

    fn below(&mut self, bound: usize) -> usize {
        (self.next() % bound as u64) as usize
    }

    fn text(&mut self, alphabet: &[char], max_len: usize) -> String {
        let len = self.below(max_len + 1);
        (0..len).map(|_| alphabet[self.below(alphabet.len())]).collect()
    }

    fn bytes(&mut self, max_len: usize) -> Vec<u8> {
        let len = self.below(max_len + 1);
        (0..len).map(|_| self.next() as u8).collect()
    }
}

fn strip(text: &str) -> &str {
    if text.starts_with("0x") {
        &text[2..]
    } else {
        text
    }
}

fn is_space(c: char) -> bool {
    c == ' ' || c == '\t' || c == '\n' || c == '\r'
}

fn digits_to_bytes(digits: &[char]) -> Option<Vec<u8>> {
    if digits.len() % 2 != 0 {
        return None;
    }
    let mut bytes = Vec::new();
    for pair in digits.chunks(2) {
        let high = pair[0].to_digit(16)?;
        let low = pair[1].to_digit(16)?;
        if !pair[0].is_ascii() || !pair[1].is_ascii() {
            return None;
        }
        bytes.push((16 * high + low) as u8);
    }
    Some(bytes)
}

fn header_model(text: &str) -> Option<Header> {
    let digits: Vec<char> = strip(text).chars().filter(|c| !is_space(*c)).collect();
    if digits.len() != 64 {
        return None;
    }
    let bytes = digits_to_bytes(&digits)?;
    let mut header = [0u8; 32];
    header.copy_from_slice(&bytes);
    Some(Header::new(header))
}

fn target_model(text: &str) -> Option<Target> {
    let rest = strip(text);
    let len = rest.chars().count();
    if len > 64 {
        return None;
    }
    let mut padded: Vec<char> = Vec::new();
    if len % 2 == 1 {
        padded.push('0');
    }
    padded.extend(rest.chars());
    let digits: Vec<char> = padded.into_iter().filter(|c| !is_space(*c)).collect();
    let bytes = digits_to_bytes(&digits)?;
    let mut target = [0u8; 32];
    target[32 - bytes.len()..].copy_from_slice(&bytes);
    Some(Target::from_be_bytes(target))
}

const HEX: [char; 22] = [
    '0', '1', '2', '3', '4', '5', '6', '7', '8', '9', 'a', 'b', 'c', 'd', 'e', 'f', 'A', 'B', 'C', 'D',
    'E', 'F',
];

const MIXED: [char; 34] = [
    '0', '1', '2', '3', '4', '5', '6', '7', '8', '9', 'a', 'b', 'c', 'd', 'e', 'f', 'A', 'B', 'C', 'D',
    'E', 'F', ' ', '\t', '\n', '\r', 'x', 'g', 'G', '-', '+', '_', '\u{e9}', '\u{ff11}',
];

const SPACED: [char; 26] = [
    '0', '1', '2', '3', '4', '5', '6', '7', '8', '9', 'a', 'b', 'c', 'd', 'e', 'f', 'A', 'B', 'C', 'D',
    'E', 'F', ' ', '\t', '\n', '\r',
];

#[test]
fn targets_are_read_as_the_model_says() {
    let mut numbers = Numbers(1);
    let mut accepted = 0;
    for round in 0..6000 {
        let alphabet: &[char] = match round % 3 {
            0 => &HEX,
            1 => &SPACED,
            _ => &MIXED,
        };
        let mut text = numbers.text(alphabet, 70);
        if numbers.below(2) == 0 {
            text = format!("0x{}", text);
        }
        let expected = target_model(&text);
        assert_eq!(parse_target(&text), expected, "{:?}", text);
        if expected.is_some() {
            accepted += 1;
        }
    }
    assert!(accepted > 1000);
}

#[test]
fn headers_are_read_as_the_model_says() {
    let mut numbers = Numbers(2);
    let mut accepted = 0;
    for round in 0..6000 {
        let mut text: String = match round % 4 {
            0 => (0..64).map(|_| HEX[numbers.below(HEX.len())]).collect(),
            1 => {
                // 64 digits with blanks strewn in.
                let mut text = String::new();
                for _ in 0..64 {
                    while numbers.below(8) == 0 {
                        text.push(SPACED[22 + numbers.below(4)]);
                    }
                    text.push(HEX[numbers.below(HEX.len())]);
                }
                text
            },
            2 => numbers.text(&HEX, 70),
            _ => {
                let mut text: Vec<char> = (0..64).map(|_| HEX[numbers.below(HEX.len())]).collect();
                let at = numbers.below(64);
                text[at] = MIXED[numbers.below(MIXED.len())];
                text.into_iter().collect()
            },
        };
        if numbers.below(2) == 0 {
            text = format!("0x{}", text);
        }
        let expected = header_model(&text);
        assert_eq!(parse_header(&text), expected, "{:?}", text);
        if expected.is_some() {
            accepted += 1;
        }
    }
    assert!(accepted > 2000);
}

#[test]
fn a_prefix_is_dropped_once() {
    let digits = "0".repeat(64);
    assert!(parse_header(&format!("0x{}", digits)).is_some());
    assert_eq!(parse_header(&format!("0x0x{}", digits)), None);
    assert_eq!(parse_header(&format!("0X{}", digits)), None);
    assert_eq!(parse_header(&format!(" 0x{}", digits)), None);
    assert_eq!(parse_target("0x0x1"), None);
    assert_eq!(parse_target("0X1"), None);
    assert_eq!(parse_target("x1"), None);
}

#[test]
fn seals_decode_to_their_solutions() {
    let mut numbers = Numbers(3);
    for _ in 0..300 {
        let parts = numbers.below(4);
        let solution: Vec<Vec<u8>> = (0..parts).map(|_| numbers.bytes(40)).collect();
        let texts = seal(&solution);
        assert_eq!(texts.len(), solution.len());
        for (text, part) in texts.iter().zip(solution.iter()) {
            assert!(text.starts_with("0x"));
            assert_eq!(text.len(), 2 + 2 * part.len());
            let digits: Vec<char> = text[2..].chars().collect();
            assert!(digits.iter().all(|c| c.is_ascii_digit() || ('a'..='f').contains(c)));
            assert_eq!(digits_to_bytes(&digits).as_ref(), Some(part));
        }
    }
}

#[test]
fn submissions_are_json_with_the_fields_that_were_given() {
    let mut numbers = Numbers(4);
    for _ in 0..200 {
        let mut header = [0u8; 32];
        for b in header.iter_mut() {
            *b = numbers.next() as u8;
        }
        let parts = numbers.below(3);
        let solution: Vec<Vec<u8>> = (0..parts).map(|_| numbers.bytes(12)).collect();
        let job_id = numbers.next() as usize;
        let port = numbers.next() as u16;
        let expected_header = format!("0x{}", header.iter().map(|b| format!("{:02x}", b)).collect::<String>());
        let expected_seal = seal(&solution);

        let line = stratum_submit(job_id, Header::new(header), solution.clone());
        assert!(!line.contains('\n'));
        let value: serde_json::Value = serde_json::from_str(&line).unwrap();
        assert_eq!(value["jsonrpc"], "2.0");
        assert_eq!(value["id"].as_u64(), Some(job_id as u64));
        assert_eq!(value["method"], "mining.submit");
        assert_eq!(value["params"][0], expected_header.as_str());
        let sealed: Vec<&str> = value["params"][1].as_array().unwrap().iter().map(|v| v.as_str().unwrap()).collect();
        assert_eq!(sealed, expected_seal);
        assert_eq!(value["params"].as_array().unwrap().len(), 2);

        let request = http_submit(Header::new(header), solution, port);
        assert_eq!(request.uri, format!("http://127.0.0.1:{}/", port));
        let value: serde_json::Value = serde_json::from_str(&request.body).unwrap();
        assert_eq!(value["method"], "miner_submitWork");
        assert!(value["id"].is_null());
        assert_eq!(value["params"][0], expected_header.as_str());
        let sealed: Vec<&str> = value["params"][1].as_array().unwrap().iter().map(|v| v.as_str().unwrap()).collect();
        assert_eq!(sealed, expected_seal);
    }
}

#[test]
fn decimal_text_is_what_the_machine_prints() {
    let mut numbers = Numbers(5);
    for n in 0..1200usize {
        assert_eq!(to_decimal(n), n.to_string());
    }
    for _ in 0..500 {
        let n = (numbers.next() << 31 ^ numbers.next()) as usize;
        assert_eq!(to_decimal(n), n.to_string());
    }
}

#[test]
fn credentials_of_any_text_come_back_from_the_request() {
    let mut numbers = Numbers(6);
    let alphabet: Vec<char> = "ab\"\\/\u{8}\u{c}\n\r\t\u{0}\u{1f} {}[],:'\u{e9}\u{4e2d}\u{1f600}".chars().collect();
    for _ in 0..300 {
        let id = numbers.text(&alphabet, 12);
        let pwd = numbers.text(&alphabet, 12);
        let mut serve = Serve::new(id.clone(), pwd.clone());
        assert!(serve.authenticate().is_ok());
        let bytes = serve.output().to_vec();
        assert_eq!(bytes.iter().filter(|b| **b == b'\n').count(), 1);
        assert_eq!(bytes.last(), Some(&b'\n'));
        let value: serde_json::Value = serde_json::from_slice(&bytes[..bytes.len() - 1]).unwrap();
        assert_eq!(value["id"], 1);
        assert_eq!(value["method"], "mining.authorize");
        assert_eq!(value["params"][0], id.as_str());
        assert_eq!(value["params"][1], pwd.as_str());
    }
}

#[test]
fn frames_are_the_lines_of_the_buffer() {
    let mut numbers = Numbers(7);
    let alphabet = [b'a', b'b', b'\n', b'{', b'}', b'\r', 0u8];
    for _ in 0..500 {
        let len = numbers.below(30);
        let buf: Vec<u8> = (0..len).map(|_| alphabet[numbers.below(alphabet.len())]).collect();
        let mut pieces: Vec<Vec<u8>> = buf.split(|b| *b == b'\n').map(|piece| piece.to_vec()).collect();
        let rest = pieces.pop().unwrap();

        let mut all = buf.clone();
        assert_eq!(take_frames(&mut all), pieces);
        assert_eq!(all, rest);

        let mut one_by_one = buf.clone();
        for piece in pieces.iter() {
            assert_eq!(take_frame(&mut one_by_one).as_ref(), Some(piece));
        }
        assert_eq!(take_frame(&mut one_by_one), None);
        assert_eq!(one_by_one, rest);
    }
}

use gasless_relay::abi::{
    encode_calldata, get_nonce_calldata, increment_calldata, signature, EncodeError, Param,
    ParamType, Token,
};
use gasless_relay::gas::{initial, is_done, step, Attempt, Estimation, RetryPolicy};
use gasless_relay::pipeline::{next, Action, Event, RunError, Stage};
use gasless_relay::relay::relay_payload;
use gasless_relay::typed_data::{decode_nonce, word_of_u64, DecodeError, ForwardRequest, REQUEST_GAS};

fn keccak(b: &[u8]) -> Vec<u8> {
    ethers_core::utils::keccak256(b).to_vec()
}

fn hex_str(b: &[u8]) -> String {
    format!("0x{}", hex::encode(b))
}

fn sample_request(nonce: u64) -> ForwardRequest {
    ForwardRequest::new(
        "my domain name".to_string(),
        "1".to_string(),
        word_of_u64(1),
        [0x11u8; 20],
        [0x22u8; 20],
        [0x33u8; 20],
        word_of_u64(nonce),
        increment_calldata(),
        "my type name".to_string(),
        "bytes32 ABCDEFGHIJKLMNOPQRSTGSN)".to_string(),
    )
}

fn policy() -> RetryPolicy {
    RetryPolicy { max_duration_ms: 1000, retry_interval_ms: 100, gas_ceiling: 1_000_000 }
}

#[test]
fn get_nonce_calldata_matches_fixture() {
    let out = get_nonce_calldata([0xaau8; 20]);
    let mut expected = vec![0x2du8, 0x03, 0x35, 0xab];
    expected.extend_from_slice(&[0u8; 12]);
    expected.extend_from_slice(&[0xaau8; 20]);
    assert_eq!(out, expected);
}

#[test]
fn increment_calldata_is_its_selector() {
    assert_eq!(increment_calldata(), vec![0xd0u8, 0x9d, 0xe0, 0x8a]);
}

#[test]
fn canonical_signature_text() {
    let inputs = vec![
        Param { name: "from".to_string(), kind: ParamType::Address },
        Param { name: "amount".to_string(), kind: ParamType::Uint256 },
    ];
    assert_eq!(signature("transfer", &inputs), b"transfer(address,uint256)".to_vec());
    assert_eq!(signature("increment", &vec![]), b"increment()".to_vec());
}

#[test]
fn encoding_is_deterministic() {
    let inputs = vec![
        Param { name: "to".to_string(), kind: ParamType::Address },
        Param { name: "amount".to_string(), kind: ParamType::Uint256 },
    ];
    let args = vec![Token::Address([7u8; 20]), Token::Uint(word_of_u64(500))];
    let a = encode_calldata("transfer", &inputs, &args).unwrap();
    let b = encode_calldata("transfer", &inputs, &args).unwrap();
    assert_eq!(a, b);
    assert_eq!(a.len(), 4 + 64);
    assert_eq!(&a[..4], &[0xa9u8, 0x05, 0x9c, 0xbb]);
    assert_eq!(&a[4..16], &[0u8; 12]);
    assert_eq!(&a[16..36], &[7u8; 20]);
    assert_eq!(&a[36..68], &word_of_u64(500));
}

#[test]
fn encoding_rejects_wrong_argument_count() {
    let inputs = vec![Param { name: "from".to_string(), kind: ParamType::Address }];
    let r = encode_calldata("getNonce", &inputs, &vec![]);
    assert_eq!(r, Err(EncodeError::WrongArgumentCount));
}

#[test]
fn encoding_rejects_wrong_argument_type() {
    let inputs = vec![Param { name: "from".to_string(), kind: ParamType::Address }];
    let r = encode_calldata("getNonce", &inputs, &vec![Token::Uint([0u8; 32])]);
    assert_eq!(r, Err(EncodeError::WrongArgumentType));
}

#[test]
fn word_of_request_gas() {
    let w = word_of_u64(REQUEST_GAS);
    let mut expected = [0u8; 32];
    expected[30] = 0x75;
    expected[31] = 0x30;
    assert_eq!(w, expected);
    let mut big = [0u8; 32];
    big[24..].copy_from_slice(&u64::MAX.to_be_bytes());
    assert_eq!(word_of_u64(u64::MAX), big);
}

#[test]
fn nonce_reply_is_read_big_endian() {
    let mut reply = vec![0u8; 32];
    reply[31] = 7;
    assert_eq!(decode_nonce(&reply), Ok(word_of_u64(7)));
    assert_eq!(decode_nonce(&[1u8, 0]), Ok(word_of_u64(256)));
    assert_eq!(decode_nonce(&[]), Ok([0u8; 32]));
    assert_eq!(decode_nonce(&[0u8; 33]), Err(DecodeError::TooLong));
}

#[test]
fn builder_fixes_value_gas_and_deadline() {
    let r = sample_request(7);
    assert_eq!(r.value, [0u8; 32]);
    assert_eq!(r.gas, word_of_u64(30000));
    assert_eq!(r.valid_until_time, [0xffu8; 32]);
    assert_eq!(r.nonce, word_of_u64(7));
    assert_eq!(r.chain_id, word_of_u64(1));
    assert_eq!(r.data, vec![0xd0u8, 0x9d, 0xe0, 0x8a]);
    assert_eq!(r.domain_name, "my domain name");
    assert_eq!(r.request_type_name, "my type name");
}

#[test]
fn request_type_text() {
    let r = sample_request(0);
    assert_eq!(
        String::from_utf8(r.request_type_bytes()).unwrap(),
        "my type name(address from,address to,uint256 value,uint256 gas,uint256 nonce,bytes data,uint256 validUntilTime,bytes32 ABCDEFGHIJKLMNOPQRSTGSN)"
    );
}

#[test]
fn domain_separator_of_known_domain() {
    let r = sample_request(0);
    let mut buf = keccak(
        b"EIP712Domain(string name,string version,uint256 chainId,address verifyingContract)",
    );
    buf.extend(keccak(b"my domain name"));
    buf.extend(keccak(b"1"));
    buf.extend_from_slice(&word_of_u64(1));
    buf.extend_from_slice(&[0u8; 12]);
    buf.extend_from_slice(&[0x11u8; 20]);
    assert_eq!(r.domain_separator(), keccak(&buf));
    let mut outer = vec![0x19u8, 0x01];
    outer.extend(r.domain_separator());
    outer.extend(r.struct_hash());
    assert_eq!(r.digest(), keccak(&outer));
}

#[test]
fn digest_changes_when_any_registered_field_changes() {
    let base = sample_request(7);
    let d = base.digest();
    assert_eq!(d, sample_request(7).digest());
    let mut a = sample_request(7);
    a.domain_name = "other domain".to_string();
    let mut b = sample_request(7);
    b.domain_version = "2".to_string();
    let mut c = sample_request(7);
    c.request_type_name = "other type".to_string();
    let mut e = sample_request(7);
    e.type_suffix_data = "bytes32 ABCDEFGHIJKLMNOPQRSTGSM)".to_string();
    let mut f = sample_request(7);
    f.chain_id = word_of_u64(43114);
    let mut g = sample_request(7);
    g.verifying_contract = [0x12u8; 20];
    for other in [a, b, c, e, f, g] {
        assert_ne!(other.digest(), d);
    }
    assert_ne!(sample_request(8).digest(), d);
}

fn run_estimation(p: &RetryPolicy, failures: u64, gas: u64) -> Estimation {
    let mut s = initial();
    for _ in 0..failures {
        s = step(p, s, Attempt::Failed);
    }
    step(p, s, Attempt::Estimated(gas))
}

#[test]
fn estimation_succeeds_below_the_boundary() {
    let p = policy();
    assert_eq!(run_estimation(&p, 0, 21000), Estimation::Succeeded { gas: 21000 });
    assert_eq!(run_estimation(&p, 9, 21000), Estimation::Succeeded { gas: 21000 });
}

#[test]
fn estimation_times_out_at_the_boundary() {
    let p = policy();
    assert_eq!(run_estimation(&p, 10, 21000), Estimation::TimedOut);
    assert_eq!(run_estimation(&p, 25, 21000), Estimation::TimedOut);
    let zero = RetryPolicy { max_duration_ms: 0, retry_interval_ms: 100, gas_ceiling: 10 };
    assert_eq!(run_estimation(&zero, 0, 5), Estimation::TimedOut);
}

#[test]
fn estimation_is_bounded_by_the_ceiling() {
    let p = RetryPolicy { max_duration_ms: 1000, retry_interval_ms: 100, gas_ceiling: 50000 };
    assert_eq!(run_estimation(&p, 1, 80000), Estimation::Succeeded { gas: 50000 });
}

#[test]
fn finished_estimation_stays_finished() {
    let p = policy();
    let done = Estimation::Succeeded { gas: 1 };
    assert_eq!(step(&p, done, Attempt::Failed), done);
    assert_eq!(step(&p, Estimation::TimedOut, Attempt::Estimated(3)), Estimation::TimedOut);
    assert!(is_done(done));
    assert!(!is_done(initial()));
    let s = step(&p, initial(), Attempt::Failed);
    assert_eq!(s, Estimation::Estimating { elapsed_ms: 100 });
    let huge = RetryPolicy { max_duration_ms: u64::MAX, retry_interval_ms: u64::MAX, gas_ceiling: 1 };
    let s = step(&huge, Estimation::Estimating { elapsed_ms: 5 }, Attempt::Failed);
    assert_eq!(s, Estimation::Estimating { elapsed_ms: u64::MAX });
    assert_eq!(step(&huge, s, Attempt::Estimated(1)), Estimation::TimedOut);
}

#[test]
fn payload_is_json_with_every_field() {
    let r = sample_request(7);
    let sig = vec![0xabu8; 65];
    let bytes = relay_payload(&r, &sig, 21000);
    let v: serde_json::Value = serde_json::from_slice(&bytes).unwrap();
    let fr = &v["forwardRequest"];
    assert_eq!(fr["domain"]["name"], "my domain name");
    assert_eq!(fr["domain"]["version"], "1");
    assert_eq!(fr["domain"]["chainId"], hex_str(&word_of_u64(1)));
    assert_eq!(fr["domain"]["verifyingContract"], hex_str(&[0x11u8; 20]));
    let m = &fr["message"];
    assert_eq!(m["from"], hex_str(&[0x22u8; 20]));
    assert_eq!(m["to"], hex_str(&[0x33u8; 20]));
    assert_eq!(m["value"], hex_str(&[0u8; 32]));
    assert_eq!(m["gas"], hex_str(&word_of_u64(30000)));
    assert_eq!(m["nonce"], hex_str(&word_of_u64(7)));
    assert_eq!(m["data"], "0xd09de08a");
    assert_eq!(m["validUntilTime"], hex_str(&[0xffu8; 32]));
    assert_eq!(fr["typeName"], "my type name");
    assert_eq!(fr["typeSuffixData"], "bytes32 ABCDEFGHIJKLMNOPQRSTGSN)");
    let s = v["metadata"]["signature"].as_str().unwrap();
    assert!(s.len() > 2);
    assert_eq!(s, hex_str(&sig));
    assert_eq!(v["metadata"]["estimatedGas"], hex_str(&word_of_u64(21000)));
}

#[test]
fn payload_round_trips_through_json() {
    let mut r = sample_request(3);
    r.domain_name = "quote \" back \\ line\n tab\t é".to_string();
    let bytes = relay_payload(&r, &vec![1u8, 2, 3], 5);
    let v: serde_json::Value = serde_json::from_slice(&bytes).unwrap();
    assert_eq!(v["forwardRequest"]["domain"]["name"], r.domain_name.as_str());
    let again: serde_json::Value =
        serde_json::from_slice(&serde_json::to_vec(&v).unwrap()).unwrap();
    assert_eq!(again, v);
    let nonce_hex = v["forwardRequest"]["message"]["nonce"].as_str().unwrap();
    let nonce = hex::decode(&nonce_hex[2..]).unwrap();
    assert_eq!(nonce, word_of_u64(3).to_vec());
}

#[test]
fn run_relays_and_returns_the_hash_unmodified() {
    let p = policy();
    let mut reply = vec![0u8; 32];
    reply[31] = 7;
    let (s, a) = next(&p, Stage::ResolvingNonce, Event::NonceReply { output: reply });
    let nonce = match a {
        Action::Attempt { nonce } => nonce,
        other => panic!("unexpected action {:?}", other),
    };
    assert_eq!(nonce, word_of_u64(7));
    let req = ForwardRequest::new(
        "d".to_string(),
        "1".to_string(),
        word_of_u64(1),
        [1u8; 20],
        [2u8; 20],
        [3u8; 20],
        nonce,
        increment_calldata(),
        "t".to_string(),
        "x)".to_string(),
    );
    assert_eq!(req.nonce, word_of_u64(7));
    assert_eq!(req.gas, word_of_u64(30000));
    assert_eq!(req.value, [0u8; 32]);
    let (s, a) = next(&p, s, Event::Estimate { attempt: Attempt::Estimated(45000) });
    assert!(matches!(a, Action::Submit { gas: 45000, .. }));
    let hash = [0x5au8; 32];
    let (s, a) = next(&p, s, Event::Relayed { tx_hash: hash });
    assert!(matches!(s, Stage::Done { tx_hash } if tx_hash == hash));
    assert!(matches!(a, Action::Report { tx_hash } if tx_hash == hash));
}

#[test]
fn run_retries_estimation_then_times_out() {
    let p = RetryPolicy { max_duration_ms: 250, retry_interval_ms: 100, gas_ceiling: 100000 };
    let s = Stage::Estimating { nonce: [0u8; 32], estimation: initial() };
    let (s, a) = next(&p, s, Event::Estimate { attempt: Attempt::Failed });
    assert!(matches!(a, Action::WaitThenAttempt { wait_ms: 100, .. }));
    let (s, _) = next(&p, s, Event::Estimate { attempt: Attempt::Failed });
    let (s, _) = next(&p, s, Event::Estimate { attempt: Attempt::Failed });
    let (s, a) = next(&p, s, Event::Estimate { attempt: Attempt::Estimated(1) });
    assert!(matches!(s, Stage::Failed { error: RunError::EstimationTimeout }));
    assert!(matches!(a, Action::Stop));
}

#[test]
fn run_stops_on_relay_failure_without_resubmitting() {
    let p = policy();
    let s = Stage::Submitting { nonce: [0u8; 32], gas: 21000 };
    let (s, a) = next(&p, s, Event::RelayFailed);
    assert!(matches!(s, Stage::Failed { error: RunError::Submission }));
    assert!(matches!(a, Action::Stop));
    let (s2, a2) = next(&p, s, Event::RelayFailed);
    assert!(matches!(s2, Stage::Failed { error: RunError::Submission }));
    assert!(matches!(a2, Action::Stop));
}

#[test]
fn run_fails_on_bad_nonce_reply() {
    let p = policy();
    let (s, a) = next(&p, Stage::ResolvingNonce, Event::NonceQueryFailed);
    assert!(matches!(s, Stage::Failed { error: RunError::ChainQuery }));
    assert!(matches!(a, Action::Stop));
    let (s, _) = next(&p, Stage::ResolvingNonce, Event::NonceReply { output: vec![0u8; 40] });
    assert!(matches!(s, Stage::Failed { error: RunError::Decode(DecodeError::TooLong) }));
}

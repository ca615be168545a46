use crypto::digest::Digest;
use crypto::sha1::Sha1;
use session_dispatch::connection::{finish_attempts, ConnectionState, Phase};
use session_dispatch::options::configuration::ProjectOptions;
use session_dispatch::processing::{DispatchTable, WorkClaim};
use session_dispatch::protocol::TargetAsDigit;
use session_dispatch::transport::{Answer, AnswerWriter, CuidSource, TransportConstructor};

const ADDR: &str = "127.0.0.1:40000";

fn options(secret: &str) -> ProjectOptions {
    let mut options = ProjectOptions::new();
    options.secret = secret.to_string();
    options.node = "n1".to_string();
    options
}

fn sha1_hex(text: &str) -> String {
    let mut hasher = Sha1::new();
    hasher.input_str(text);
    hasher.result_str()
}

fn auth_frame(cuid: &str, nonce: &str, secret: &str) -> String {
    let data = format!("{}{}", nonce, sha1_hex(&format!("{}{}", nonce, secret)));
    format!(
        "{{\"target\":3,\"part\":false,\"cid\":{},\"data\":{}}}",
        rustc_serialize::json::encode(&cuid.to_string()).unwrap(),
        rustc_serialize::json::encode(&data).unwrap()
    )
}

fn read(text: &str) -> Option<Vec<u8>> {
    Some(text.as_bytes().to_vec())
}

fn work(table: &mut DispatchTable, options: &ProjectOptions) -> usize {
    match table.claim_command() {
        WorkClaim::Claimed(index, command) => {
            let answer = table.serve_command(index, command, options);
            assert!(table.publish_answer(index, &answer));
            index
        }
        _ => panic!("no command to serve"),
    }
}

fn exchange(
    state: &mut ConnectionState,
    table: &mut DispatchTable,
    options: &ProjectOptions,
    frame: &str,
) -> Answer {
    assert_eq!(state.receive(read(frame), ADDR, options), Phase::Posting);
    assert_eq!(state.post(table), Phase::Waiting);
    assert!(state.collect(table).is_none());
    work(table, options);
    let answer = state.collect(table).unwrap();
    assert!(state.collect(table).is_none());
    answer
}

fn frame_of(answer: &Answer) -> String {
    let mut stream = Vec::new();
    assert!(answer.write(&mut stream));
    String::from_utf8(stream).unwrap()
}

fn sign_in_and_auth(
    state: &mut ConnectionState,
    table: &mut DispatchTable,
    options: &ProjectOptions,
    secret: &str,
) -> Answer {
    let challenge =
        exchange(state, table, options, "{\"target\":2,\"part\":false,\"cid\":\"\",\"data\":\"\"}");
    assert_eq!(challenge.to_u32(), 3);
    assert_eq!(state.written(true), Phase::Reading);
    let nonce = challenge.get_data();
    let cuid = challenge.get_cuid();
    let auth = auth_frame(&cuid, &nonce, secret);
    exchange(state, table, options, &auth)
}

#[test]
fn successful_handshake() {
    let options = options("1234567890");
    let mut table = DispatchTable::new(8);
    let mut state = ConnectionState::new();
    assert_eq!(state.phase(), Phase::Reading);
    assert!(!state.is_authenticated());

    let challenge = exchange(
        &mut state,
        &mut table,
        &options,
        "{\"target\":2,\"part\":false,\"cid\":\"\",\"data\":\"\"}",
    );
    assert_eq!(state.phase(), Phase::Writing);
    let cuid = challenge.get_cuid();
    let nonce = challenge.get_data();
    assert!(cuid.starts_with("n1-127.0.0.1:40000-"));
    assert_eq!(nonce.len(), 128);
    assert_eq!(
        frame_of(&challenge),
        format!("{{\"target\":3,\"cid\":\"{}\",\"data\":{}}}", cuid, rustc_serialize::json::encode(&nonce).unwrap())
    );
    assert_eq!(state.connection_data().get_temp_data(), nonce.clone().into_bytes());
    assert_eq!(state.connection_data().get_cuid(), cuid);
    assert_eq!(state.written(true), Phase::Reading);
    assert!(!state.is_authenticated());

    let auth = auth_frame(&cuid, &nonce, "1234567890");
    let greeting = exchange(&mut state, &mut table, &options, &auth);
    assert_eq!(frame_of(&greeting), format!("{{\"target\":5,\"cid\":\"{}\",\"data\":\"OK\"}}", cuid));
    assert_eq!(state.phase(), Phase::Writing);
    assert!(state.is_authenticated());
    assert_eq!(state.written(true), Phase::Reading);
    assert_eq!(state.last_cuid(), Some(cuid));
}

#[test]
fn wrong_secret() {
    let options = options("1234567890");
    let mut table = DispatchTable::new(8);
    let mut state = ConnectionState::new();
    let refusal = sign_in_and_auth(&mut state, &mut table, &options, "badsecret");
    let cuid = state.last_cuid().unwrap();
    assert_eq!(
        frame_of(&refusal),
        format!("{{\"target\":4,\"cid\":\"{}\",\"data\":\"Auth filed! Check secret key?\"}}", cuid)
    );
    assert!(!state.is_authenticated());
    assert_eq!(state.phase(), Phase::Writing);
    assert_eq!(state.written(true), Phase::Closed);
    assert_eq!(state.receive(read("{\"target\":2,\"part\":false,\"cid\":\"\",\"data\":\"\"}"), ADDR, &options), Phase::Closed);
}

#[test]
fn unauthenticated_data() {
    let options = options("1234567890");
    let mut table = DispatchTable::new(8);
    let mut state = ConnectionState::new();
    let phase = state.receive(
        read("{\"target\":4,\"part\":false,\"cid\":\"\",\"data\":\"{\\\"group\\\":2,\\\"cid\\\":\\\"\\\"}\"}"),
        ADDR,
        &options,
    );
    assert_eq!(phase, Phase::Closed);
    assert_eq!(state.post(&mut table), Phase::Closed);
    assert!(state.collect(&mut table).is_none());
    assert!(matches!(table.claim_command(), WorkClaim::Idle));
    assert_eq!(state.last_cuid(), None);
}

#[test]
fn unauthenticated_partial_data_is_refused_with_its_first_frame() {
    let options = options("s");
    let mut state = ConnectionState::new();
    let phase = state.receive(
        read("{\"target\":4,\"part\":true,\"cid\":\"\",\"data\":\"{\"}"),
        ADDR,
        &options,
    );
    assert_eq!(phase, Phase::Closed);
}

#[test]
fn unauthenticated_command_of_no_known_kind_is_refused() {
    let options = options("s");
    for target in [5u32, 6, 100, u32::MAX].iter() {
        let mut state = ConnectionState::new();
        let frame = format!("{{\"target\":{},\"part\":false,\"cid\":\"\",\"data\":\"\"}}", target);
        assert_eq!(state.receive(read(&frame), ADDR, &options), Phase::Closed);
    }
}

#[test]
fn quit() {
    let options = options("1234567890");
    let mut table = DispatchTable::new(8);
    let mut state = ConnectionState::new();
    let greeting = sign_in_and_auth(&mut state, &mut table, &options, "1234567890");
    assert_eq!(greeting.to_u32(), 5);
    assert_eq!(state.written(true), Phase::Reading);
    let cuid = state.last_cuid().unwrap();
    let farewell = exchange(
        &mut state,
        &mut table,
        &options,
        "{\"target\":1,\"part\":false,\"cid\":\"\",\"data\":\"\"}",
    );
    assert_eq!(frame_of(&farewell), format!("{{\"target\":1,\"cid\":\"{}\",\"data\":\"buy\"}}", cuid));
    assert_eq!(state.phase(), Phase::Writing);
    assert_eq!(state.written(true), Phase::Closed);
    state.finish(&mut table);
    assert!(table.is_closed(&cuid));
}

#[test]
fn quit_before_authentication() {
    let options = options("s");
    let mut table = DispatchTable::new(8);
    let mut state = ConnectionState::new();
    let farewell = exchange(
        &mut state,
        &mut table,
        &options,
        "{\"target\":1,\"part\":false,\"cid\":\"\",\"data\":\"bye now\"}",
    );
    assert_eq!(farewell.to_u32(), 1);
    assert_eq!(farewell.get_data(), "buy");
    assert_eq!(state.written(false), Phase::Closed);
}

#[test]
fn partial_command() {
    let options = options("1234567890");
    let mut table = DispatchTable::new(8);
    let mut state = ConnectionState::new();
    sign_in_and_auth(&mut state, &mut table, &options, "1234567890");
    assert_eq!(state.written(true), Phase::Reading);
    let phase = state.receive(
        read("{\"target\":4,\"part\":true,\"cid\":\"X\",\"data\":\"{\\\"gro\"}"),
        ADDR,
        &options,
    );
    assert_eq!(phase, Phase::Reading);
    assert_eq!(state.pending_command().get_data(), "{\"gro");
    assert!(!state.pending_command().is_full());
    assert_eq!(state.post(&mut table), Phase::Reading);
    let cuid = state.last_cuid().unwrap();
    let wait = exchange(
        &mut state,
        &mut table,
        &options,
        "{\"target\":4,\"part\":false,\"cid\":\"X\",\"data\":\"up\\\":1,\\\"cid\\\":\\\"X\\\"}\"}",
    );
    assert_eq!(frame_of(&wait), format!("{{\"target\":6,\"cid\":\"{}\",\"data\":\"\"}}", cuid));
    assert_eq!(state.written(true), Phase::Reading);
    assert_eq!(state.connection_data().get_cuid(), "X");
    assert_eq!(state.pending_command().get_data(), "");

    let next = exchange(
        &mut state,
        &mut table,
        &options,
        "{\"target\":0,\"part\":false,\"cid\":\"\",\"data\":\"\"}",
    );
    assert_eq!(next.get_cuid(), "X");
    assert_eq!(next.to_u32(), 0);
    assert_eq!(state.last_cuid(), Some("X".to_string()));
}

#[test]
fn malformed_frame() {
    let options = options("s");
    let mut table = DispatchTable::new(8);
    let mut state = ConnectionState::new();
    assert!(!state.frame_dropped());
    assert_eq!(state.receive(read("not-json"), ADDR, &options), Phase::Reading);
    assert!(state.frame_dropped());
    assert_eq!(state.post(&mut table), Phase::Reading);
    assert!(matches!(table.claim_command(), WorkClaim::Idle));
    assert_eq!(state.last_cuid(), None);
    assert_eq!(state.receive(Some(vec![0xff, 0xfe, 0xfd]), ADDR, &options), Phase::Reading);
    assert_eq!(state.receive(read("x"), ADDR, &options), Phase::Closed);
}

#[test]
fn malformed_frame_leaves_a_command_in_the_making() {
    let options = options("s");
    let mut state = ConnectionState::new();
    assert_eq!(
        state.receive(read("{\"target\":2,\"part\":true,\"cid\":\"\",\"data\":\"ab\"}"), ADDR, &options),
        Phase::Reading
    );
    assert_eq!(state.receive(read("{\"target\":2"), ADDR, &options), Phase::Reading);
    assert_eq!(state.pending_command().get_data(), "ab");
    assert_eq!(
        state.receive(read("{\"target\":9,\"part\":false,\"cid\":\"\",\"data\":\"cd\"}"), ADDR, &options),
        Phase::Posting
    );
    assert_eq!(state.pending_command().get_data(), "abcd");
    assert_eq!(state.pending_command().get_target(), 2);
}

#[test]
fn short_and_failed_reads_close() {
    let options = options("s");
    for ending in [None, Some(Vec::new()), Some(vec![b'{'])].iter() {
        let mut state = ConnectionState::new();
        assert_eq!(state.receive(ending.clone(), ADDR, &options), Phase::Closed);
        assert_eq!(state.phase(), Phase::Closed);
        assert_eq!(state.receive(read("{\"target\":2,\"part\":false,\"cid\":\"\",\"data\":\"\"}"), ADDR, &options), Phase::Closed);
    }
    let mut state = ConnectionState::new();
    assert_eq!(state.receive(Some(vec![b'{', b'}']), ADDR, &options), Phase::Reading);
}

#[test]
fn accept_uses_the_identifier_it_is_given() {
    let mut state = ConnectionState::new();
    let phase = state.accept(
        read("{\"target\":2,\"part\":false,\"cid\":\"\",\"data\":\"d\"}"),
        "minted-1".to_string(),
    );
    assert_eq!(phase, Phase::Posting);
    assert_eq!(state.pending_command().get_cuid(), "minted-1");
    assert_eq!(state.connection_data().get_cuid(), "minted-1");
    assert_eq!(state.last_cuid(), Some("minted-1".to_string()));
    assert_eq!(state.accept(read("{\"target\":2,\"part\":false,\"cid\":\"\",\"data\":\"d\"}"), "minted-2".to_string()), Phase::Posting);
    assert_eq!(state.pending_command().get_data(), "d");
    assert_eq!(state.pending_command().get_cuid(), "minted-1");
}

#[test]
fn client_keeps_its_identifier_over_commands() {
    let options = options("s");
    let mut table = DispatchTable::new(8);
    let mut state = ConnectionState::new();
    let first = exchange(&mut state, &mut table, &options, "{\"target\":0,\"part\":false,\"cid\":\"\",\"data\":\"\"}");
    assert_eq!(state.written(true), Phase::Reading);
    let second = exchange(&mut state, &mut table, &options, "{\"target\":0,\"part\":false,\"cid\":\"\",\"data\":\"\"}");
    assert_eq!(first.get_cuid(), second.get_cuid());
    assert!(first.get_cuid().len() > 0);
}

#[test]
fn answer_made_by_hand_is_collected_like_any_other() {
    let options = options("s");
    let mut table = DispatchTable::new(8);
    let mut state = ConnectionState::new();
    let frame = "{\"target\":0,\"part\":false,\"cid\":\"\",\"data\":\"\"}";
    assert_eq!(state.receive(read(frame), ADDR, &options), Phase::Posting);
    assert_eq!(state.post(&mut table), Phase::Waiting);
    let mut answer = Answer::new();
    answer.complete(state.last_cuid().unwrap());
    answer.set_data("by hand".to_string());
    assert!(table.publish_answer(0, &answer));
    let taken = state.collect(&mut table).unwrap();
    assert_eq!(taken.to_u32(), 0);
    assert_eq!(taken.get_data(), "by hand");
    assert_eq!(state.phase(), Phase::Writing);
    assert_eq!(state.written(true), Phase::Reading);
}

#[test]
fn failed_write_closes() {
    let options = options("s");
    let mut table = DispatchTable::new(8);
    let mut state = ConnectionState::new();
    exchange(&mut state, &mut table, &options, "{\"target\":2,\"part\":false,\"cid\":\"\",\"data\":\"\"}");
    assert_eq!(state.written(false), Phase::Closed);
    assert_eq!(state.written(true), Phase::Closed);
}

#[test]
fn steps_out_of_turn_change_nothing() {
    let options = options("s");
    let mut table = DispatchTable::new(8);
    let mut state = ConnectionState::new();
    assert_eq!(state.written(true), Phase::Reading);
    assert_eq!(state.post(&mut table), Phase::Reading);
    assert!(state.collect(&mut table).is_none());
    assert_eq!(state.receive(read("{\"target\":2,\"part\":false,\"cid\":\"\",\"data\":\"\"}"), ADDR, &options), Phase::Posting);
    let cuid = state.last_cuid();
    assert_eq!(state.receive(read("{\"target\":1,\"part\":false,\"cid\":\"\",\"data\":\"\"}"), ADDR, &options), Phase::Posting);
    assert_eq!(state.pending_command().get_target(), 2);
    assert_eq!(state.last_cuid(), cuid);
    assert_eq!(state.written(true), Phase::Posting);
    assert_eq!(state.post(&mut table), Phase::Waiting);
    assert_eq!(state.post(&mut table), Phase::Waiting);
    assert_eq!(state.receive(None, ADDR, &options), Phase::Waiting);
}

#[test]
fn one_answer_is_written_for_each_completed_command() {
    let options = options("1234567890");
    let mut table = DispatchTable::new(8);
    let mut state = ConnectionState::new();
    let mut completed = 0;
    let mut written = 0;
    let frames = [
        "{\"target\":2,\"part\":true,\"cid\":\"\",\"data\":\"\"}",
        "garbage",
        "{\"target\":2,\"part\":false,\"cid\":\"\",\"data\":\"\"}",
        "{\"target\":0,\"part\":false,\"cid\":\"\",\"data\":\"\"}",
        "{\"target\":1,\"part\":false,\"cid\":\"\",\"data\":\"\"}",
        "{\"target\":2,\"part\":false,\"cid\":\"\",\"data\":\"\"}",
    ];
    for frame in frames.iter() {
        let mut phase = state.receive(read(frame), ADDR, &options);
        if phase == Phase::Posting {
            completed += 1;
            assert_eq!(state.post(&mut table), Phase::Waiting);
            work(&mut table, &options);
            assert!(state.collect(&mut table).is_some());
            assert!(state.collect(&mut table).is_none());
            phase = state.phase();
        }
        if phase == Phase::Writing {
            written += 1;
            state.written(true);
        }
    }
    assert_eq!(completed, 3);
    assert_eq!(written, 3);
    assert_eq!(state.phase(), Phase::Closed);
}

#[test]
fn posting_waits_for_a_free_slot() {
    let mut table = DispatchTable::new(8);
    for number in 0..8 {
        let mut other = ConnectionState::new();
        other.accept(read("{\"target\":0,\"part\":false,\"cid\":\"\",\"data\":\"\"}"), format!("c{}", number));
        assert_eq!(other.post(&mut table), Phase::Waiting);
        assert!(matches!(table.claim_command(), WorkClaim::Claimed(_, _)));
    }
    let mut state = ConnectionState::new();
    state.accept(read("{\"target\":0,\"part\":false,\"cid\":\"\",\"data\":\"\"}"), "late".to_string());
    assert_eq!(state.post(&mut table), Phase::Posting);
    assert_eq!(state.pending_command().get_cuid(), "late");
    assert!(state.pending_command().is_full());
}

#[test]
fn finish_records_only_clients_that_completed_a_command() {
    let mut table = DispatchTable::new(8);
    let idle = ConnectionState::new();
    idle.finish(&mut table);
    assert!(!table.is_closed(&String::new()));
    let mut state = ConnectionState::new();
    state.accept(read("{\"target\":0,\"part\":false,\"cid\":\"\",\"data\":\"\"}"), "gone".to_string());
    state.finish(&mut table);
    assert!(table.is_closed(&"gone".to_string()));
}

#[test]
fn closing_connection_tries_six_hundred_times() {
    assert_eq!(finish_attempts(), 600);
}

#[test]
fn dropped_frames_are_noted_until_the_next_read() {
    let options = options("s");
    let mut state = ConnectionState::new();
    let deep: String = std::iter::repeat('[').take(30000).collect();
    assert_eq!(state.receive(read(&deep), ADDR, &options), Phase::Reading);
    assert!(state.frame_dropped());
    assert_eq!(
        state.receive(read("{\"target\":2,\"part\":true,\"cid\":\"\",\"data\":\"\"}"), ADDR, &options),
        Phase::Reading
    );
    assert!(!state.frame_dropped());
    assert_eq!(state.receive(read("{}"), ADDR, &options), Phase::Reading);
    assert!(state.frame_dropped());
    assert_eq!(state.receive(read("x"), ADDR, &options), Phase::Closed);
    assert!(!state.frame_dropped());
}

use crypto::digest::Digest;
use crypto::sha1::Sha1;
use session_dispatch::handler::exec::{
    apply_client_description, get_answer_method, take_client_data, CommandHandle,
};
use session_dispatch::options::configuration::{JsonReader, ProjectOptions};
use session_dispatch::protocol::{ClientDescription, CommandTargetEnum, TargetAsDigit};
use session_dispatch::transport::{
    ClientConnectionData, ClientIdConstructor, Command, CommandCreationAnswer, CommandDataCreator,
    CuidSource, JsonBufferCommand, TransportConstructor,
};

fn options_with_secret(secret: &str) -> ProjectOptions {
    let mut options = ProjectOptions::new();
    options.secret = secret.to_string();
    options.node = "n1".to_string();
    options
}

fn sha1_hex(text: &str) -> String {
    let mut hasher = Sha1::new();
    hasher.input_str(text);
    hasher.result_str()
}

fn command(target: u32, data: &str, cuid: &str) -> Command {
    let mut command = Command::new();
    command.setup(&JsonBufferCommand {
        target,
        part: false,
        cid: String::new(),
        data: data.to_string(),
    });
    command.copy_cuid(&cuid.to_string());
    command
}

#[test]
fn unknown_command_gets_an_empty_unknown() {
    let options = options_with_secret("s");
    let mut session = ClientConnectionData::new();
    session.set_temp_data(vec![1, 2]);
    let answer = get_answer_method(
        CommandTargetEnum::Unknown,
        &"anything".to_string(),
        &mut session,
        &options,
    );
    assert_eq!(answer, (0, String::new()));
    assert_eq!(session.get_temp_data(), vec![1, 2]);
}

#[test]
fn quit_command_gets_a_quit() {
    let options = options_with_secret("s");
    let mut session = ClientConnectionData::new();
    let answer =
        get_answer_method(CommandTargetEnum::Quit, &"so long".to_string(), &mut session, &options);
    assert_eq!(answer, (1, "buy".to_string()));
    assert!(!session.is_exists());
}

#[test]
fn sign_in_stores_the_nonce_it_sends() {
    let options = options_with_secret("s");
    let mut session = ClientConnectionData::new();
    session.set_cuid("c1".to_string());
    let (code, nonce) =
        get_answer_method(CommandTargetEnum::SigIn, &String::new(), &mut session, &options);
    assert_eq!(code, 3);
    assert_eq!(nonce.len(), 128);
    assert!(nonce.bytes().all(|b| b >= 48 && b < 126));
    assert_eq!(session.get_temp_data(), nonce.clone().into_bytes());
    assert_eq!(session.get_temp_data_as_string(), nonce);
    assert_eq!(session.get_cuid(), "c1");
}

#[test]
fn sign_in_draws_a_new_nonce_each_time() {
    let options = options_with_secret("s");
    let mut session = ClientConnectionData::new();
    let (_, first) =
        get_answer_method(CommandTargetEnum::SigIn, &String::new(), &mut session, &options);
    let (_, second) =
        get_answer_method(CommandTargetEnum::SigIn, &String::new(), &mut session, &options);
    assert_ne!(first, second);
    assert_eq!(session.get_temp_data(), second.into_bytes());
}

#[test]
fn auth_accepts_the_digest_of_nonce_and_secret() {
    let options = options_with_secret("1234567890");
    let nonce: String = std::iter::repeat('x').take(128).collect();
    let mut session = ClientConnectionData::new();
    session.set_temp_data(nonce.clone().into_bytes());
    let data = format!("{}{}", nonce, sha1_hex(&format!("{}{}", nonce, "1234567890")));
    let answer = get_answer_method(CommandTargetEnum::Auth, &data, &mut session, &options);
    assert_eq!(answer, (5, "OK".to_string()));
    assert_eq!(session.get_temp_data(), nonce.into_bytes());
}

#[test]
fn auth_goes_by_a_known_digest() {
    let options = options_with_secret("c");
    let mut session = ClientConnectionData::new();
    session.set_temp_data(b"ab".to_vec());
    let prefix: String = std::iter::repeat('p').take(128).collect();
    let data = format!("{}{}", prefix, "a9993e364706816aba3e25717850c26c9cd0d89d");
    let answer = get_answer_method(CommandTargetEnum::Auth, &data, &mut session, &options);
    assert_eq!(answer, (5, "OK".to_string()));
}

#[test]
fn auth_ignores_the_echoed_prefix() {
    let options = options_with_secret("1234567890");
    let nonce: String = std::iter::repeat('x').take(128).collect();
    let other: String = std::iter::repeat('\u{e9}').take(128).collect();
    let mut session = ClientConnectionData::new();
    session.set_temp_data(nonce.clone().into_bytes());
    let data = format!("{}{}", other, sha1_hex(&format!("{}{}", nonce, "1234567890")));
    let answer = get_answer_method(CommandTargetEnum::Auth, &data, &mut session, &options);
    assert_eq!(answer, (5, "OK".to_string()));
}

#[test]
fn auth_refuses_a_wrong_secret() {
    let options = options_with_secret("1234567890");
    let nonce: String = std::iter::repeat('x').take(128).collect();
    let mut session = ClientConnectionData::new();
    session.set_temp_data(nonce.clone().into_bytes());
    let data = format!("{}{}", nonce, sha1_hex(&format!("{}{}", nonce, "badsecret")));
    let answer = get_answer_method(CommandTargetEnum::Auth, &data, &mut session, &options);
    assert_eq!(answer, (4, "Auth filed! Check secret key?".to_string()));
}

#[test]
fn auth_refuses_short_and_altered_payloads() {
    let options = options_with_secret("1234567890");
    let nonce: String = std::iter::repeat('x').take(128).collect();
    let good = sha1_hex(&format!("{}{}", nonce, "1234567890"));
    let payloads = vec![
        String::new(),
        nonce.clone(),
        good.clone(),
        format!("{}{}", &nonce[..127], good),
        format!("{}x{}", nonce, good),
        format!("{}{}0", nonce, good),
        format!("{}{}", nonce, good.to_uppercase()),
        format!("{}{}", nonce, &good[..39]),
    ];
    for data in payloads.iter() {
        let mut session = ClientConnectionData::new();
        session.set_temp_data(nonce.clone().into_bytes());
        let answer = get_answer_method(CommandTargetEnum::Auth, data, &mut session, &options);
        assert_eq!(answer, (4, "Auth filed! Check secret key?".to_string()), "{}", data);
    }
}

#[test]
fn auth_hashes_a_nonce_that_is_no_text() {
    let options = options_with_secret("k");
    let mut session = ClientConnectionData::new();
    session.set_temp_data(vec![0xff, 0x00, 0x80]);
    let mut hasher = Sha1::new();
    hasher.input(&[0xff, 0x00, 0x80, b'k']);
    let prefix: String = std::iter::repeat('p').take(128).collect();
    let data = format!("{}{}", prefix, hasher.result_str());
    let answer = get_answer_method(CommandTargetEnum::Auth, &data, &mut session, &options);
    assert_eq!(answer, (5, "OK".to_string()));
}

#[test]
fn client_data_with_identifier_sets_it_and_waits() {
    let options = options_with_secret("s");
    let mut session = ClientConnectionData::new();
    session.set_cuid("old".to_string());
    session.set_temp_data(vec![7]);
    let data = "{\"group\":1,\"cid\":\"X\"}".to_string();
    let answer = take_client_data(&data, &mut session, &options);
    assert_eq!(answer, (6, String::new()));
    assert_eq!(session.get_cuid(), "X");
    assert_eq!(session.get_temp_data(), vec![7]);
}

#[test]
fn client_data_applied_twice_changes_nothing_more() {
    let options = options_with_secret("s");
    let mut session = ClientConnectionData::new();
    session.set_cuid("old".to_string());
    let data = "{\"group\":2,\"cid\":\"X\"}".to_string();
    let first = take_client_data(&data, &mut session, &options);
    let once = session.clone();
    let second = take_client_data(&data, &mut session, &options);
    assert_eq!(first, second);
    assert_eq!(session.get_cuid(), once.get_cuid());
    assert_eq!(session.get_temp_data(), once.get_temp_data());
    assert_eq!(session.get_cuid(), "X");
}

#[test]
fn client_data_without_identifier_keeps_the_stored_one() {
    let options = options_with_secret("s");
    let mut session = ClientConnectionData::new();
    session.set_cuid("old".to_string());
    let data = "{\"group\":2,\"cid\":\"\"}".to_string();
    let answer = take_client_data(&data, &mut session, &options);
    assert_eq!(answer, (6, String::new()));
    assert_eq!(session.get_cuid(), "old");
}

#[test]
fn client_data_that_is_no_description_is_an_error() {
    let options = options_with_secret("s");
    let payloads = ["", "not-json", "{\"group\":2}", "{\"cid\":\"X\"}", "{\"group\":\"x\",\"cid\":\"X\"}", "[]"];
    for data in payloads.iter() {
        let mut session = ClientConnectionData::new();
        session.set_cuid("old".to_string());
        let answer = take_client_data(&data.to_string(), &mut session, &options);
        assert_eq!(answer, (4, String::new()), "{}", data);
        assert_eq!(session.get_cuid(), "old");
    }
}

#[test]
fn client_description_is_read_from_text() {
    let record = ClientDescription::read_from_text("{\"group\": 3, \"cid\": \"abc\", \"x\": 1}").unwrap();
    assert_eq!(record.group, 3);
    assert_eq!(record.cid, "abc");
    let numbered = ClientDescription::read_from_text("{\"group\": \"12\", \"cid\": \"\"}").unwrap();
    assert_eq!(numbered.group, 12);
    assert!(ClientDescription::read_from_text("{\"group\": 3, \"cid\": 4}").is_none());
}

#[test]
fn apply_client_description_for_each_record() {
    let mut session = ClientConnectionData::new();
    session.set_cuid("old".to_string());
    assert_eq!(apply_client_description(None, &mut session), (4, String::new()));
    assert_eq!(session.get_cuid(), "old");
    let nameless = ClientDescription { group: 1, cid: String::new() };
    assert_eq!(apply_client_description(Some(nameless), &mut session), (6, String::new()));
    assert_eq!(session.get_cuid(), "old");
    let named = ClientDescription { group: 1, cid: "new".to_string() };
    assert_eq!(apply_client_description(Some(named), &mut session), (6, String::new()));
    assert_eq!(session.get_cuid(), "new");
}

#[test]
fn get_answer_makes_the_answer_for_the_commands_client() {
    let options = options_with_secret("s");
    let mut session = ClientConnectionData::new();
    let quit = command(1, "", "client-7");
    let answer = quit.get_answer(&options, &mut session);
    assert_eq!(answer.get_cuid(), "client-7");
    assert_eq!(answer.to_u32(), 1);
    assert_eq!(answer.get_data(), "buy");
    assert!(!answer.is_shipped());
    let data = command(4, "{\"group\":1,\"cid\":\"Y\"}", "client-7");
    let answer = data.get_answer(&options, &mut session);
    assert_eq!(answer.to_u32(), 6);
    assert_eq!(answer.get_data(), "");
    assert_eq!(session.get_cuid(), "Y");
    let odd = command(99, "x", "client-7");
    let answer = odd.get_answer(&options, &mut session);
    assert_eq!(answer.to_u32(), 0);
    assert_eq!(answer.get_data(), "");
}

#[test]
fn execute_answers_and_leaves_the_command() {
    let options = options_with_secret("s");
    let mut session = ClientConnectionData::new();
    let mut sign_in = command(2, "", "client-8");
    let answer = sign_in.execute(&options, &mut session);
    assert_eq!(answer.to_u32(), 3);
    assert_eq!(answer.get_cuid(), "client-8");
    assert_eq!(answer.get_data().into_bytes(), session.get_temp_data());
    assert_eq!(sign_in.get_target(), 2);
    assert_eq!(sign_in.get_cuid(), "client-8");
    assert!(sign_in.is_full());
}

#[test]
fn client_data_that_the_parser_cannot_take_is_an_error() {
    let options = options_with_secret("s");
    let deep: String = std::iter::repeat('[').take(50000).collect();
    let long_key: String = std::iter::repeat('k').take(70000).collect();
    let payloads = vec![
        deep,
        format!("{{\"group\":1,\"cid\":\"X\",\"{}\":1}}", long_key),
        "{\"group\":1,\"cid\":\"X\",\"more\":1e99999999999999999999}".to_string(),
    ];
    for data in payloads.iter() {
        let mut session = ClientConnectionData::new();
        session.set_cuid("old".to_string());
        let answer = take_client_data(data, &mut session, &options);
        assert_eq!(answer, (4, String::new()));
        assert_eq!(session.get_cuid(), "old");
    }
}

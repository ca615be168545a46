use session_dispatch::common::helpers::Description;
use session_dispatch::consts::common::{
    CONF_ENV_VARIABLE, CONNECTION_FINISH_TIMEOUT, MIN_BUFFER_SIZE, MIN_COMMAND_POOL_SIZE,
    NOTARGET_DELAY, STD_LOOP_DELAY, VERIFICATION_LINE_SIZE,
};
use session_dispatch::consts::messages::AUTH_FAILED_TMP;
use session_dispatch::options::configuration::{
    JsonOptionRecord, JsonReader, ProjectOptions, DEFAULT_PORT,
};

fn record(command_buffer: u32, connection_buffer_size: u32) -> JsonOptionRecord {
    JsonOptionRecord {
        secret: "s".to_string(),
        socket: "1.2.3.4:5".to_string(),
        workers: 2,
        node: "n".to_string(),
        command_buffer,
        connection_buffer_size,
    }
}

#[test]
fn test_read_json_configuration() {
    let content = "{\"secret\": \"1234567890\",
    	\"socket\": \"100.100.100.100:8000\",
    	\"workers\": 8,
    	\"command_buffer\": 1024,
    	\"node\": \"node1\",
    	\"connection_buffer_size\": 4096}"
        .to_string();
    println!("{}", content);
    let record = JsonOptionRecord::read_from_text(&content).unwrap();
    let socket = record.socket.clone();
    let options = ProjectOptions::from_record(record, Some(socket));
    assert_eq!(options.socket, "100.100.100.100:8000");
    assert_eq!(options.workers, 8);
    assert_eq!(options.command_buffer, 1024);
    assert_eq!(options.connection_buffer_size, 4096);
    assert_eq!(options.secret, "1234567890".to_string());
    assert_eq!(options.node, "node1".to_string());
}

#[test]
fn constants_have_their_values() {
    assert_eq!(CONF_ENV_VARIABLE, "CONF");
    assert_eq!(STD_LOOP_DELAY, 10);
    assert_eq!(NOTARGET_DELAY, 100);
    assert_eq!(MIN_COMMAND_POOL_SIZE, 8);
    assert_eq!(MIN_BUFFER_SIZE, 2048);
    assert_eq!(CONNECTION_FINISH_TIMEOUT, 60);
    assert_eq!(VERIFICATION_LINE_SIZE, 128);
    assert_eq!(AUTH_FAILED_TMP, "Auth filed!");
    assert_eq!(DEFAULT_PORT, 5882);
}

#[test]
fn configuration_needs_every_member() {
    let whole = "{\"secret\":\"s\",\"socket\":\"x\",\"workers\":1,\"command_buffer\":1,\"node\":\"n\",\"connection_buffer_size\":1}";
    assert!(JsonOptionRecord::read_from_text(whole).is_some());
    for member in ["secret", "socket", "workers", "command_buffer", "node", "connection_buffer_size"].iter() {
        let broken = whole.replace(&format!("\"{}\"", member), "\"other\"");
        assert!(JsonOptionRecord::read_from_text(&broken).is_none(), "without {}", member);
    }
    assert!(JsonOptionRecord::read_from_text("").is_none());
    assert!(JsonOptionRecord::read_from_text("{").is_none());
    let negative = whole.replace("\"workers\":1", "\"workers\":-1");
    assert!(JsonOptionRecord::read_from_text(&negative).is_none());
}

#[test]
fn small_command_buffer_is_raised_to_eight() {
    for (configured, expected) in [(0u32, 8u32), (1, 8), (7, 8), (8, 8), (9, 9), (1024, 1024), (u32::MAX, u32::MAX)].iter() {
        let options = ProjectOptions::from_record(record(*configured, 4096), None);
        assert_eq!(options.command_buffer, *expected);
        assert_eq!(options.command_pool_size(), *expected);
    }
    let mut options = ProjectOptions::new();
    options.command_buffer = 3;
    assert_eq!(options.command_pool_size(), 8);
}

#[test]
fn small_read_buffer_is_raised_to_2048() {
    for (configured, expected) in [(0u32, 2048u32), (1, 2048), (2047, 2048), (2048, 2048), (2049, 2049), (4096, 4096), (u32::MAX, u32::MAX)].iter() {
        let options = ProjectOptions::from_record(record(16, *configured), None);
        assert_eq!(options.connection_buffer_size, *expected);
        assert_eq!(options.read_buffer_size(), *expected);
    }
    let mut options = ProjectOptions::new();
    options.connection_buffer_size = 100;
    assert_eq!(options.read_buffer_size(), 2048);
}

#[test]
fn configuration_text_with_a_small_read_buffer_is_raised() {
    let content = "{\"secret\":\"s\",\"socket\":\"x\",\"workers\":1,\"command_buffer\":3,\"node\":\"n\",\"connection_buffer_size\":100}";
    let record = JsonOptionRecord::read_from_text(content).unwrap();
    assert_eq!(record.connection_buffer_size, 100);
    let options = ProjectOptions::from_record(record, None);
    assert_eq!(options.connection_buffer_size, 2048);
    assert_eq!(options.command_buffer, 8);
}

#[test]
fn socket_falls_back_to_the_default() {
    let options = ProjectOptions::from_record(record(16, 4096), None);
    assert_eq!(options.socket, "127.0.0.1:5882");
    assert_eq!(options.socket, format!("127.0.0.1:{}", DEFAULT_PORT));
    let options = ProjectOptions::from_record(record(16, 4096), Some("9.9.9.9:1".to_string()));
    assert_eq!(options.socket, "9.9.9.9:1");
    assert_eq!(options.secret, "s");
    assert_eq!(options.node, "n");
    assert_eq!(options.workers, 2);
}

#[test]
fn default_options() {
    let options = ProjectOptions::new();
    assert_eq!(options.secret, "");
    assert_eq!(options.socket, "127.0.0.1:5882");
    assert_eq!(options.workers, 1);
    assert_eq!(options.command_buffer, 1);
    assert_eq!(options.node, "");
    assert_eq!(options.connection_buffer_size, 2048);
}

#[test]
fn options_clone_and_description() {
    let options = ProjectOptions::from_record(record(16, 4096), Some("1.2.3.4:5".to_string()));
    let copy = options.clone();
    assert_eq!(copy.secret, options.secret);
    assert_eq!(copy.socket, options.socket);
    assert_eq!(copy.workers, options.workers);
    assert_eq!(copy.command_buffer, options.command_buffer);
    assert_eq!(copy.node, options.node);
    assert_eq!(copy.connection_buffer_size, options.connection_buffer_size);
    assert_eq!(options.description(), "Server n at 1.2.3.4:5.");
}

#[test]
fn configuration_that_the_parser_cannot_take_is_refused() {
    let whole = "{\"secret\":\"s\",\"socket\":\"x\",\"workers\":1,\"command_buffer\":1,\"node\":\"n\",\"connection_buffer_size\":1";
    let deep: String = std::iter::repeat('[').take(129).collect();
    let close: String = std::iter::repeat(']').take(129).collect();
    assert!(JsonOptionRecord::read_from_text(&format!("{}}}", whole)).is_some());
    assert!(JsonOptionRecord::read_from_text(&format!("{},\"x\":{}{}}}", whole, deep, close)).is_none());
    assert!(JsonOptionRecord::read_from_text(&format!("{},\"x\":1e1234567890}}", whole)).is_none());
}

use base64::Engine;
use ape::ap_remote::{
    bind_socket, deserialize_base64, frame_responses, handle_request, parse_requests,
    serialize_base64, Batch, BindStep, Guard, Reply, Request, Response, FIRST_PORT, NUM_PORTS,
    VERSION,
};
use ape::memory::Memory;
use ape::memory_map::{Descriptor, MemoryMap};
use ape::runtime::Core;
use ape::state::State;

fn core_with(ram: Vec<u8>, rom: Vec<u8>) -> Core {
    let mut memory = Memory::new();
    let len = ram.len();
    let id = memory.add_buffer(ram);
    let mut state = State::new();
    state.memory_map = MemoryMap::from_descriptors(vec![Descriptor::new(
        0,
        id,
        0,
        0,
        0,
        0,
        len,
        String::from("System Bus"),
    )
    .unwrap()]);
    state.set_rom(rom);
    Core::new(state, memory)
}

fn guard(address: usize, expected: &[u8], domain: &str) -> Request {
    Request::Guard { address, expected_data: expected.to_vec(), domain: domain.to_string() }
}

fn error_text(response: &Response) -> &str {
    match response {
        Response::Error { err } => err,
        other => panic!("no error: {:?}", other),
    }
}

#[test]
fn ping_is_answered_by_pong() {
    let mut core = core_with(vec![0; 4], vec![]);
    assert!(matches!(handle_request(Request::Ping, &mut core), Response::Pong));
}

#[test]
fn system_is_reported() {
    let mut core = core_with(vec![0; 4], vec![]);
    match handle_request(Request::System, &mut core) {
        Response::SystemResponse { value } => assert_eq!(value, "GBA"),
        other => panic!("{:?}", other),
    }
}

#[test]
fn hash_is_the_cached_hash() {
    let mut core = core_with(vec![0; 4], b"abc".to_vec());
    match handle_request(Request::Hash, &mut core) {
        Response::HashResponse { value } => {
            assert_eq!(value, "A9993E364706816ABA3E25717850C26C9CD0D89D")
        }
        other => panic!("{:?}", other),
    }
}

#[test]
fn unimplemented_requests_answer_with_an_error() {
    let mut core = core_with(vec![0; 4], vec![]);
    let cases = vec![
        (Request::PreferredCores, "TODO: unimplemented command: PreferredCores"),
        (Request::Lock, "TODO: unimplemented command: Lock"),
        (Request::Unlock, "TODO: unimplemented command: Unlock"),
        (
            Request::DisplayMessage { message: "hi".to_string() },
            "TODO: unimplemented command: DisplayMessage",
        ),
        (
            Request::SetMessageInterval { value: 5 },
            "TODO: unimplemented command: SetMessageInterval",
        ),
    ];
    for (request, text) in cases {
        let response = handle_request(request, &mut core);
        assert_eq!(error_text(&response), text);
    }
}

#[test]
fn read_returns_the_bytes_of_the_domain() {
    let mut core = core_with(vec![1, 2, 3, 4], vec![9, 8, 7]);
    let read = |core: &mut Core, address, size, domain: &str| {
        match handle_request(Request::Read { address, size, domain: domain.to_string() }, core) {
            Response::ReadResponse { value } => value,
            other => panic!("{:?}", other),
        }
    };
    assert_eq!(read(&mut core, 1, 2, "System Bus"), vec![2, 3]);
    assert_eq!(read(&mut core, 2, 8, "System Bus"), vec![3, 4]);
    assert_eq!(read(&mut core, 4, 1, "System Bus"), Vec::<u8>::new());
    assert_eq!(read(&mut core, 1, 2, "ROM"), vec![8, 7]);
    assert_eq!(read(&mut core, 1, 9, "ROM"), vec![8, 7]);
    assert_eq!(read(&mut core, 7, 1, "ROM"), Vec::<u8>::new());
}

#[test]
fn unknown_domain_is_an_error_that_quotes_the_name() {
    let mut core = core_with(vec![1, 2, 3, 4], vec![]);
    let response = handle_request(
        Request::Read { address: 0, size: 1, domain: "WRAM \"x\"".to_string() },
        &mut core,
    );
    assert_eq!(error_text(&response), "Unknown memory domain: \"WRAM \\\"x\\\"\"");
    let response = handle_request(guard(0, &[1], "rom"), &mut core);
    assert_eq!(error_text(&response), "Unknown memory domain: \"rom\"");
}

#[test]
fn write_changes_the_bus_and_answers_write_response() {
    let mut core = core_with(vec![1, 2, 3, 4], vec![]);
    let response = handle_request(Request::Write { address: 2, value: vec![7, 7, 7] }, &mut core);
    assert!(matches!(response, Response::WriteResponse));
    assert_eq!(core.get_memory(0, 4), vec![1, 2, 7, 7]);
}

#[test]
fn guard_compares_memory_with_the_expected_bytes() {
    let mut core = core_with(vec![1, 2, 3, 4], vec![9, 8, 7]);
    let check = |core: &mut Core, request| match handle_request(request, core) {
        Response::GuardResponse { value, address } => (value, address),
        other => panic!("{:?}", other),
    };
    assert_eq!(check(&mut core, guard(1, &[2, 3], "System Bus")), (true, 1));
    assert_eq!(check(&mut core, guard(1, &[2, 4], "System Bus")), (false, 1));
    assert_eq!(check(&mut core, guard(3, &[4, 0], "System Bus")), (false, 3));
    assert_eq!(check(&mut core, guard(1, &[8, 7], "ROM")), (true, 1));
    assert_eq!(check(&mut core, guard(2, &[7, 0], "ROM")), (false, 2));
    assert_eq!(check(&mut core, guard(9, &[], "ROM")), (true, 9));
}

#[test]
fn failed_guard_stands_in_for_the_write_and_memory_is_untouched() {
    let mut ram = vec![0u8; 0x20];
    ram[0x10] = 0x00;
    let mut core = core_with(ram.clone(), vec![]);
    let mut batch = Batch::new();
    let responses = batch.handle_requests(
        vec![
            guard(0x10, &[0x05], "System Bus"),
            Request::Write { address: 0x10, value: vec![0x06] },
        ],
        &mut core,
    );
    assert_eq!(responses.len(), 2);
    for response in &responses {
        assert!(matches!(response, Response::GuardResponse { value: false, address: 0x10 }));
    }
    assert_eq!(core.get_memory(0, 0x20), ram);
    assert_eq!(batch.held_guard, Some(Guard { value: false, address: 0x10 }));
}

#[test]
fn passed_guard_lets_the_write_through() {
    let mut ram = vec![0u8; 0x20];
    ram[0x10] = 0x05;
    let mut core = core_with(ram, vec![]);
    let mut batch = Batch::new();
    let responses = batch.handle_requests(
        vec![
            guard(0x10, &[0x05], "System Bus"),
            Request::Write { address: 0x10, value: vec![0x06] },
        ],
        &mut core,
    );
    assert_eq!(responses.len(), 2);
    assert!(matches!(responses[0], Response::GuardResponse { value: true, address: 0x10 }));
    assert!(matches!(responses[1], Response::WriteResponse));
    assert_eq!(core.get_memory(0x10, 1), vec![0x06]);
}

#[test]
fn failed_guard_blocks_every_later_request() {
    let mut core = core_with(vec![1, 2, 3, 4], vec![]);
    let mut batch = Batch::new();
    let responses = batch.handle_requests(
        vec![
            Request::Ping,
            guard(0, &[9], "System Bus"),
            Request::Write { address: 0, value: vec![5] },
            Request::Ping,
            guard(0, &[1], "System Bus"),
        ],
        &mut core,
    );
    assert_eq!(responses.len(), 7);
    assert!(matches!(responses[0], Response::Pong));
    for response in &responses[1..] {
        assert!(matches!(response, Response::GuardResponse { value: false, address: 0 }));
    }
    assert_eq!(core.get_memory(0, 4), vec![1, 2, 3, 4]);
    let later = batch.handle_requests(vec![Request::Ping], &mut core);
    assert_eq!(later.len(), 2);
    assert!(matches!(later[0], Response::GuardResponse { value: false, address: 0 }));
    assert!(matches!(later[1], Response::GuardResponse { value: false, address: 0 }));
}

#[test]
fn guard_alone_is_held_back() {
    let mut core = core_with(vec![1, 2, 3, 4], vec![]);
    let mut batch = Batch::new();
    let responses = batch.handle_requests(vec![guard(0, &[1], "System Bus")], &mut core);
    assert!(responses.is_empty());
    assert_eq!(batch.held_guard, Some(Guard { value: true, address: 0 }));
    assert!(!batch.is_locked());
}

#[test]
fn version_line_is_read_in_any_case_and_with_white_space() {
    for line in ["VERSION", "version\n", "  Version \r\n", "\tvErSiOn\u{a0}"] {
        let requests = parse_requests(line).expect(line);
        assert_eq!(requests.len(), 1);
        assert!(matches!(requests[0], Request::Version));
    }
    for line in ["", "VERSIO", "VERSION 1", "[]", "[{\"type\":\"PING\"}]", "VER SION", "\"VERSION\""] {
        assert!(parse_requests(line).is_none(), "{line}");
    }
}

#[test]
fn version_is_answered_in_plain_text() {
    let mut core = core_with(vec![0; 4], vec![]);
    let mut batch = Batch::new();
    let reply = batch.handle_line(parse_requests("VERSION\n").unwrap(), &mut core);
    match reply {
        Reply::Version(text) => assert_eq!(text, format!("{VERSION}\n")),
        other => panic!("{:?}", other),
    }
}

#[test]
fn version_stays_plain_between_batches_and_after_a_failed_guard() {
    let mut core = core_with(vec![0; 4], vec![]);
    let mut batch = Batch::new();
    let first = batch.handle_line(vec![Request::Ping, guard(0, &[1], "System Bus")], &mut core);
    match first {
        Reply::Batch(responses) => {
            assert_eq!(responses.len(), 1);
            assert!(matches!(responses[0], Response::Pong));
        }
        other => panic!("{:?}", other),
    }
    let held = batch;
    let second = batch.handle_line(parse_requests("version").unwrap(), &mut core);
    match second {
        Reply::Version(text) => assert_eq!(text, "1\n"),
        other => panic!("{:?}", other),
    }
    assert_eq!(batch, held);
    let third = batch.handle_line(vec![Request::Ping], &mut core);
    match third {
        Reply::Batch(responses) => assert_eq!(responses.len(), 2),
        other => panic!("{:?}", other),
    }
}

#[test]
fn responses_are_framed_as_a_batch_unless_they_open_with_version() {
    match frame_responses(vec![Response::Pong, Response::WriteResponse]) {
        Reply::Batch(responses) => assert_eq!(responses.len(), 2),
        other => panic!("{:?}", other),
    }
    match frame_responses(vec![]) {
        Reply::Batch(responses) => assert!(responses.is_empty()),
        other => panic!("{:?}", other),
    }
    match frame_responses(vec![Response::Version, Response::Pong]) {
        Reply::Version(text) => assert_eq!(text, "1\n"),
        other => panic!("{:?}", other),
    }
    match frame_responses(vec![Response::Pong, Response::Version]) {
        Reply::Batch(responses) => assert_eq!(responses.len(), 2),
        other => panic!("{:?}", other),
    }
}

#[test]
fn ports_are_tried_in_order() {
    assert_eq!(FIRST_PORT, 43055);
    assert_eq!(NUM_PORTS, 5);
    let mut reasons: Vec<String> = Vec::new();
    for expected in 43055u16..43060 {
        match bind_socket(reasons.clone()) {
            BindStep::Try(port) => assert_eq!(port, expected),
            other => panic!("{:?}", other),
        }
        reasons.push(format!("port {expected} is taken"));
    }
}

#[test]
fn fifth_port_is_bound_when_four_are_occupied() {
    let occupied = [43055u16, 43056, 43057, 43058];
    let mut reasons: Vec<String> = Vec::new();
    let bound = loop {
        match bind_socket(reasons.clone()) {
            BindStep::Try(port) => {
                if occupied.contains(&port) {
                    reasons.push("address in use".to_string());
                } else {
                    break port;
                }
            }
            BindStep::GiveUp(error) => panic!("{:?}", error),
        }
    };
    assert_eq!(bound, 43059);
}

#[test]
fn startup_fails_listing_all_five_attempts() {
    let reasons: Vec<String> = (0..5).map(|i| format!("reason {i}")).collect();
    let error = match bind_socket(reasons) {
        BindStep::GiveUp(error) => error,
        other => panic!("{:?}", other),
    };
    assert_eq!(
        error.attempts,
        vec![
            (43055, "reason 0".to_string()),
            (43056, "reason 1".to_string()),
            (43057, "reason 2".to_string()),
            (43058, "reason 3".to_string()),
            (43059, "reason 4".to_string()),
        ]
    );
    assert_eq!(
        error.message(),
        "no port found to listen on\n\
         failed to listen on port 43055: reason 0\n\
         failed to listen on port 43056: reason 1\n\
         failed to listen on port 43057: reason 2\n\
         failed to listen on port 43058: reason 3\n\
         failed to listen on port 43059: reason 4"
    );
}

#[test]
fn base64_fields_are_decoded_and_encoded() {
    assert_eq!(deserialize_base64("BQ=="), Ok(vec![5]));
    assert_eq!(deserialize_base64("aGVsbG8="), Ok(b"hello".to_vec()));
    assert_eq!(deserialize_base64(""), Ok(vec![]));
    assert!(deserialize_base64("BQ=").is_err());
    assert!(deserialize_base64("!!!!").is_err());
    assert_eq!(serialize_base64(&[5]).as_deref(), Some("BQ=="));
    assert_eq!(serialize_base64(b"hello").as_deref(), Some("aGVsbG8="));
    assert_eq!(serialize_base64(&[]).as_deref(), Some(""));
}

#[test]
fn requests_are_built_from_base64_text() {
    match Request::guard(0x10, "BQ==", "System Bus".to_string()) {
        Ok(Request::Guard { address, expected_data, domain }) => {
            assert_eq!(address, 0x10);
            assert_eq!(expected_data, vec![5]);
            assert_eq!(domain, "System Bus");
        }
        other => panic!("{:?}", other),
    }
    match Request::write(0x10, "BgcI") {
        Ok(Request::Write { address, value }) => {
            assert_eq!(address, 0x10);
            assert_eq!(value, vec![6, 7, 8]);
        }
        other => panic!("{:?}", other),
    }
    assert!(Request::guard(0, "%", String::new()).is_err());
    assert!(Request::write(0, "A").is_err());
}

#[test]
fn base64_agrees_with_the_standard_engine() {
    let data: Vec<u8> = (0u8..=255).collect();
    let text = base64::engine::general_purpose::STANDARD.encode(&data);
    assert_eq!(serialize_base64(&data), Some(text.clone()));
    assert_eq!(deserialize_base64(&text), Ok(data));
}

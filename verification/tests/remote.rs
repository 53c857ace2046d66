use ape::memory::Memory;
use ape::memory_map::{Descriptor, MemoryMap};
use ape::remote::{handle_command, handle_message, parse_command, Command, Rejection};
use ape::runtime::Core;
use ape::state::State;
use ape::system_info::{system_id_from_library_name, SystemInfo};

fn sample_core() -> Core {
    let mut memory = Memory::new();
    let id = memory.add_buffer(vec![0x00, 0x0a, 0xff, 0x10, 0x9c]);
    let mut state = State::new();
    state.memory_map = MemoryMap::from_descriptors(vec![Descriptor::new(
        0,
        id,
        0,
        0xC000,
        0,
        0,
        5,
        String::new(),
    )
    .unwrap()]);
    Core::new(state, memory)
}

fn info(library_name: &str) -> SystemInfo {
    SystemInfo::new(library_name.to_string(), "1.0".to_string(), "gb|gbc".to_string(), false, true)
}

fn rejection(line: &str) -> Rejection {
    match parse_command(line) {
        Err(rejection) => rejection,
        Ok(command) => panic!("{line}: {:?}", command),
    }
}

#[test]
fn version_command_is_parsed() {
    assert!(matches!(parse_command("VERSION"), Ok(Command::Version)));
    assert!(matches!(parse_command("  VERSION\n"), Ok(Command::Version)));
    assert!(matches!(parse_command("VERSION extra words"), Ok(Command::Version)));
    assert!(matches!(parse_command("GET_STATUS"), Ok(Command::GetStatus)));
}

#[test]
fn commands_are_case_sensitive() {
    assert_eq!(rejection("version"), Rejection::UnknownCommand);
    assert_eq!(rejection("READ_CORE_RAM 0 1"), Rejection::UnknownCommand);
}

#[test]
fn datagram_without_a_word_has_no_command() {
    assert_eq!(rejection(""), Rejection::NoCommand);
    assert_eq!(rejection(" \t\r\n"), Rejection::NoCommand);
}

#[test]
fn read_command_takes_a_hex_address_and_a_decimal_length() {
    match parse_command("READ_CORE_MEMORY c001 16") {
        Ok(Command::ReadCoreMemory { address_text, address, len }) => {
            assert_eq!(address_text, "c001");
            assert_eq!(address, 0xc001);
            assert_eq!(len, 16);
        }
        other => panic!("{:?}", other),
    }
    match parse_command("READ_CORE_MEMORY\t0xFF\u{2003}+7 ignored") {
        Ok(Command::ReadCoreMemory { address_text, address, len }) => {
            assert_eq!(address_text, "0xFF");
            assert_eq!(address, 0xff);
            assert_eq!(len, 7);
        }
        other => panic!("{:?}", other),
    }
}

#[test]
fn read_command_is_rejected_for_each_fault() {
    assert_eq!(rejection("READ_CORE_MEMORY"), Rejection::InvalidNumberOfArgs);
    assert_eq!(rejection("READ_CORE_MEMORY 10"), Rejection::InvalidNumberOfArgs);
    assert_eq!(rejection("READ_CORE_MEMORY xyz 1"), Rejection::InvalidAddress);
    assert_eq!(rejection("READ_CORE_MEMORY 0x 1"), Rejection::InvalidAddress);
    assert_eq!(rejection("READ_CORE_MEMORY -1 1"), Rejection::InvalidAddress);
    assert_eq!(rejection("READ_CORE_MEMORY 0X10 1"), Rejection::InvalidAddress);
    assert_eq!(rejection("READ_CORE_MEMORY 10 0x10"), Rejection::InvalidLen);
    assert_eq!(rejection("READ_CORE_MEMORY 10 ten"), Rejection::InvalidLen);
    assert_eq!(rejection("READ_CORE_MEMORY 10 +"), Rejection::InvalidLen);
    assert_eq!(rejection("READ_CORE_MEMORY xyz ten"), Rejection::InvalidAddress);
}

#[test]
fn numbers_are_read_as_std_reads_them() {
    let max = format!("{:x}", usize::MAX);
    match parse_command(&format!("READ_CORE_MEMORY {max} {}", usize::MAX)) {
        Ok(Command::ReadCoreMemory { address, len, .. }) => {
            assert_eq!(address, usize::MAX);
            assert_eq!(len, usize::MAX);
        }
        other => panic!("{:?}", other),
    }
    assert_eq!(rejection(&format!("READ_CORE_MEMORY 1{max} 1")), Rejection::InvalidAddress);
    assert_eq!(rejection(&format!("READ_CORE_MEMORY 1 {}0", usize::MAX)), Rejection::InvalidLen);
    for text in ["0", "+0", "000012", "7fFf", "+a", "", "+", "-", "-0", "1_0", "g", "0x1"] {
        let ours = match parse_command(&format!("WRITE_CORE_MEMORY {text}")) {
            Ok(Command::WriteCoreMemory { address, .. }) => Some(address),
            _ => None,
        };
        let stripped = text.strip_prefix("0x").unwrap_or(text);
        let theirs = usize::from_str_radix(stripped, 16).ok();
        assert_eq!(ours, theirs, "{text:?}");
    }
}

#[test]
fn write_command_takes_hex_bytes() {
    match parse_command("WRITE_CORE_MEMORY 0xC000 0x01 ff 7 +A") {
        Ok(Command::WriteCoreMemory { address_text, address, bytes }) => {
            assert_eq!(address_text, "0xC000");
            assert_eq!(address, 0xC000);
            assert_eq!(bytes, vec![1, 0xff, 7, 10]);
        }
        other => panic!("{:?}", other),
    }
    match parse_command("WRITE_CORE_MEMORY 0") {
        Ok(Command::WriteCoreMemory { bytes, .. }) => assert!(bytes.is_empty()),
        other => panic!("{:?}", other),
    }
}

#[test]
fn write_command_is_rejected_for_each_fault() {
    assert_eq!(rejection("WRITE_CORE_MEMORY"), Rejection::InvalidNumberOfArgs);
    assert_eq!(rejection("WRITE_CORE_MEMORY zz 01"), Rejection::InvalidAddress);
    assert_eq!(rejection("WRITE_CORE_MEMORY 0 100"), Rejection::InvalidByte);
    assert_eq!(rejection("WRITE_CORE_MEMORY 0 01 0y"), Rejection::InvalidByte);
    assert_eq!(rejection("WRITE_CORE_MEMORY 0 01 gg 02"), Rejection::InvalidByte);
}

#[test]
fn version_reply_is_the_version_line() {
    let mut core = sample_core();
    assert_eq!(handle_command(&Command::Version, &mut core, &info("x"), "Tetris"), "1.14.0\n");
}

#[test]
fn status_reply_names_the_system() {
    let mut core = sample_core();
    core.state_mut().set_rom(b"abc".to_vec());
    assert_eq!(
        handle_command(&Command::GetStatus, &mut core, &info("Gambatte"), "Tetris"),
        "GET_STATUS PLAYING game_boy,Tetris,A9993E364706816ABA3E25717850C26C9CD0D89D\n"
    );
    assert_eq!(
        handle_command(&Command::GetStatus, &mut core, &info("mGBA"), "Tetris"),
        "GET_STATUS PLAYING mGBA,Tetris,A9993E364706816ABA3E25717850C26C9CD0D89D\n"
    );
    assert_eq!(
        handle_message("GET_STATUS", &mut sample_core(), &info("x"), ""),
        Ok("GET_STATUS PLAYING x,,\n".to_string())
    );
}

#[test]
fn read_reply_lists_the_bytes_in_upper_case_hex() {
    let mut core = sample_core();
    assert_eq!(
        handle_message("READ_CORE_MEMORY 0xC000 5", &mut core, &info("x"), "Tetris"),
        Ok("READ_CORE_MEMORY 0xC000 00 0A FF 10 9C\n".to_string())
    );
}

#[test]
fn read_reply_is_truncated_with_the_memory() {
    let mut core = sample_core();
    assert_eq!(
        handle_message("READ_CORE_MEMORY c003 8", &mut core, &info("x"), "Tetris"),
        Ok("READ_CORE_MEMORY c003 10 9C\n".to_string())
    );
    assert_eq!(
        handle_message("READ_CORE_MEMORY 0 8", &mut core, &info("x"), "Tetris"),
        Ok("READ_CORE_MEMORY 0\n".to_string())
    );
}

#[test]
fn write_reply_counts_the_bytes_written() {
    let mut core = sample_core();
    assert_eq!(
        handle_message("WRITE_CORE_MEMORY c003 01 02 03", &mut core, &info("x"), "Tetris"),
        Ok("WRITE_CORE_MEMORY c003 2\n".to_string())
    );
    assert_eq!(core.get_memory(0xC000, 5), vec![0x00, 0x0a, 0xff, 1, 2]);
    assert_eq!(
        handle_message("WRITE_CORE_MEMORY 0 01", &mut core, &info("x"), "Tetris"),
        Ok("WRITE_CORE_MEMORY 0 0\n".to_string())
    );
}

#[test]
fn write_reply_counts_in_decimal() {
    let mut memory = Memory::new();
    let id = memory.add_buffer(vec![0; 300]);
    let mut state = State::new();
    state.memory_map = MemoryMap::from_descriptors(vec![Descriptor::new(
        0, id, 0, 0, 0, 0, 300, String::new(),
    )
    .unwrap()]);
    let mut core = Core::new(state, memory);
    let command = Command::WriteCoreMemory {
        address_text: "0".to_string(),
        address: 0,
        bytes: vec![1; 120],
    };
    assert_eq!(handle_command(&command, &mut core, &info("x"), "Tetris"), "WRITE_CORE_MEMORY 0 120\n");
}

#[test]
fn malformed_datagram_gets_no_reply_and_changes_nothing() {
    let mut core = sample_core();
    assert_eq!(
        handle_message("WRITE_CORE_MEMORY c000 01 zz", &mut core, &info("x"), "Tetris"),
        Err(Rejection::InvalidByte)
    );
    assert_eq!(handle_message("HELLO", &mut core, &info("x"), "Tetris"), Err(Rejection::UnknownCommand));
    assert_eq!(core.get_memory(0xC000, 5), vec![0x00, 0x0a, 0xff, 0x10, 0x9c]);
}

#[test]
fn system_ids_are_known_for_the_game_boy_plugins() {
    assert_eq!(system_id_from_library_name("Gambatte"), Some("game_boy"));
    assert_eq!(system_id_from_library_name("SameBoy"), Some("game_boy"));
    assert_eq!(system_id_from_library_name("gambatte"), None);
    assert_eq!(system_id_from_library_name(""), None);
}

#[test]
fn system_info_copies_every_field() {
    let info = info("SameBoy");
    let copy = info.to_owned();
    assert_eq!(copy.library_name, "SameBoy");
    assert_eq!(copy.library_version, "1.0");
    assert_eq!(copy.valid_extensions, "gb|gbc");
    assert!(!copy.need_fullpath);
    assert!(copy.block_extract);
    assert_eq!(copy.system_id, Some("game_boy"));
    assert_eq!(copy.reported_system(), "game_boy");
}

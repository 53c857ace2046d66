//! The line protocol: one command per datagram, one reply per command.
//!
//! ```text
//! VERSION
//! GET_STATUS
//! READ_CORE_MEMORY <hex address> <decimal length>
//! WRITE_CORE_MEMORY <hex address> <hex byte>...
//! ```

use vstd::prelude::*;
use crate::numbers::{decimal, hex_byte, parse_unsigned, push_decimal, push_hex_byte, unsigned_value};
use crate::runtime::{bus_accepted, bus_bytes, Core, CoreView, Domain};
use crate::system_info::{reported_system, SystemInfo, SystemInfoView};
use crate::text::{
    chars_of, push_text, same_chars, split_whitespace, string_of, word_views, words,
};

verus! {

/// A command of the line protocol.
#[derive(Debug)]
pub enum Command {
    Version,
    GetStatus,
    /// `address_text` is the address as the sender wrote it; the reply
    /// repeats it.
    ReadCoreMemory { address_text: String, address: usize, len: usize },
    WriteCoreMemory { address_text: String, address: usize, bytes: Vec<u8> },
}

/// The mathematical content of a [`Command`].
pub ghost enum CommandView {
    Version,
    GetStatus,
    ReadCoreMemory { address_text: Seq<char>, address: usize, len: usize },
    WriteCoreMemory { address_text: Seq<char>, address: usize, bytes: Seq<u8> },
}

impl View for Command {
    type V = CommandView;

    open spec fn view(&self) -> CommandView {
        match *self {
            Command::Version => CommandView::Version,
            Command::GetStatus => CommandView::GetStatus,
            Command::ReadCoreMemory { address_text, address, len } => CommandView::ReadCoreMemory {
                address_text: address_text@,
                address,
                len,
            },
            Command::WriteCoreMemory {
                address_text,
                address,
                bytes,
            } => CommandView::WriteCoreMemory { address_text: address_text@, address, bytes: bytes@ },
        }
    }
}

/// Why a datagram gets no reply.
#[derive(Clone, Copy, Debug, PartialEq, Eq, Structural)]
pub enum Rejection {
    /// The datagram holds no word.
    NoCommand,
    /// The first word is no command of the protocol.
    UnknownCommand,
    /// The command lacks an argument.
    InvalidNumberOfArgs,
    /// The address is no hexadecimal number that fits an address.
    InvalidAddress,
    /// The length is no decimal number that fits a length.
    InvalidLen,
    /// An argument of a write is no hexadecimal number below 256.
    InvalidByte,
}

/// `s` without a leading `0x`.
pub open spec fn without_prefix(s: Seq<char>) -> Seq<char> {
    if s.len() >= 2 && s[0] == '0' && s[1] == 'x' {
        s.skip(2)
    } else {
        s
    }
}

/// The number that a hexadecimal argument writes, with or without `0x` in
/// front, where it is at most `max`.
pub open spec fn hex_argument(s: Seq<char>, max: int) -> Option<int> {
    unsigned_value(without_prefix(s), 16, max)
}

/// The bytes that the arguments of a write give, where each is a byte.
pub open spec fn byte_arguments(args: Seq<Seq<char>>) -> Option<Seq<u8>>
    decreases args.len(),
{
    if args.len() == 0 {
        Some(seq![])
    } else {
        match (byte_arguments(args.drop_last()), hex_argument(args.last(), 255)) {
            (Some(bytes), Some(b)) => Some(bytes.push(b as u8)),
            _ => None,
        }
    }
}

/// The command that the words of a datagram give.
pub open spec fn command_of(w: Seq<Seq<char>>) -> Result<CommandView, Rejection> {
    if w.len() == 0 {
        Err(Rejection::NoCommand)
    } else if w[0] == "VERSION"@ {
        Ok(CommandView::Version)
    } else if w[0] == "GET_STATUS"@ {
        Ok(CommandView::GetStatus)
    } else if w[0] == "READ_CORE_MEMORY"@ {
        if w.len() < 3 {
            Err(Rejection::InvalidNumberOfArgs)
        } else {
            match hex_argument(w[1], usize::MAX as int) {
                None => Err(Rejection::InvalidAddress),
                Some(address) => match unsigned_value(w[2], 10, usize::MAX as int) {
                    None => Err(Rejection::InvalidLen),
                    Some(len) => Ok(
                        CommandView::ReadCoreMemory {
                            address_text: w[1],
                            address: address as usize,
                            len: len as usize,
                        },
                    ),
                },
            }
        }
    } else if w[0] == "WRITE_CORE_MEMORY"@ {
        if w.len() < 2 {
            Err(Rejection::InvalidNumberOfArgs)
        } else {
            match hex_argument(w[1], usize::MAX as int) {
                None => Err(Rejection::InvalidAddress),
                Some(address) => match byte_arguments(w.skip(2)) {
                    None => Err(Rejection::InvalidByte),
                    Some(bytes) => Ok(
                        CommandView::WriteCoreMemory {
                            address_text: w[1],
                            address: address as usize,
                            bytes,
                        },
                    ),
                },
            }
        }
    } else {
        Err(Rejection::UnknownCommand)
    }
}

/// The command that a datagram holds: its words, split at white space, read
/// as a command and its arguments. Words after the last argument that a
/// command takes are ignored.
pub open spec fn parsed(line: Seq<char>) -> Result<CommandView, Rejection> {
    command_of(words(line))
}

fn parse_hex(s: &[char], max: usize) -> (r: Option<usize>)
    ensures
        match r {
            Some(v) => hex_argument(s@, max as int) == Some(v as int),
            None => hex_argument(s@, max as int) is None,
        },
{
    if s.len() >= 2 && s[0] == '0' && s[1] == 'x' {
        let rest = vstd::slice::slice_subrange(s, 2, s.len());
        assert(rest@ =~= s@.skip(2));
        parse_unsigned(rest, 16, max)
    } else {
        parse_unsigned(s, 16, max)
    }
}

fn is_word(word: &[char], literal: &str) -> (r: bool)
    ensures
        r == (word@ == literal@),
{
    let expected = chars_of(literal);
    same_chars(word, expected.as_slice())
}

/// Reads the command that a datagram holds.
pub fn parse_command(line: &str) -> (r: Result<Command, Rejection>)
    ensures
        match r {
            Ok(command) => parsed(line@) == Ok::<CommandView, Rejection>(command@),
            Err(rejection) => parsed(line@) == Err::<CommandView, Rejection>(rejection),
        },
{
    proof {
        lemma_command_names_differ();
    }
    let chars = chars_of(line);
    let w = split_whitespace(chars.as_slice());
    let ghost wv = words(line@);
    assert(wv == word_views(w@));
    if w.len() == 0 {
        return Err(Rejection::NoCommand);
    }
    assert(wv[0] == w@[0]@);
    let name = w[0].as_slice();
    if is_word(name, "VERSION") {
        Ok(Command::Version)
    } else if is_word(name, "GET_STATUS") {
        Ok(Command::GetStatus)
    } else if is_word(name, "READ_CORE_MEMORY") {
        if w.len() < 3 {
            return Err(Rejection::InvalidNumberOfArgs);
        }
        assert(wv[1] == w@[1]@);
        assert(wv[2] == w@[2]@);
        let address = match parse_hex(w[1].as_slice(), usize::MAX) {
            Some(address) => address,
            None => {
                return Err(Rejection::InvalidAddress);
            },
        };
        let len = match parse_unsigned(w[2].as_slice(), 10, usize::MAX) {
            Some(len) => len,
            None => {
                return Err(Rejection::InvalidLen);
            },
        };
        Ok(Command::ReadCoreMemory { address_text: string_of(w[1].as_slice()), address, len })
    } else if is_word(name, "WRITE_CORE_MEMORY") {
        if w.len() < 2 {
            return Err(Rejection::InvalidNumberOfArgs);
        }
        assert(wv[1] == w@[1]@);
        let address = match parse_hex(w[1].as_slice(), usize::MAX) {
            Some(address) => address,
            None => {
                return Err(Rejection::InvalidAddress);
            },
        };
        let ghost args = wv.skip(2);
        let ghost address_text = wv[1];
        let mut bytes: Vec<u8> = Vec::new();
        let mut i: usize = 2;
        assert(args.take(0) =~= Seq::<Seq<char>>::empty());
        while i < w.len()
            invariant
                2 <= i <= w@.len(),
                wv == word_views(w@),
                args == wv.skip(2),
                wv == words(line@),
                command_of(wv) == (match byte_arguments(args) {
                    None => Err::<CommandView, Rejection>(Rejection::InvalidByte),
                    Some(bytes) => Ok(
                        CommandView::WriteCoreMemory { address_text, address, bytes },
                    ),
                }),
                byte_arguments(args.take(i - 2)) == Some(bytes@),
            decreases w@.len() - i,
        {
            proof {
                let next = args.take(i + 1 - 2);
                assert(next.drop_last() =~= args.take(i - 2));
                assert(next.last() == w@[i as int]@);
            }
            match parse_hex(w[i].as_slice(), 255) {
                Some(b) => {
                    bytes.push(b as u8);
                },
                None => {
                    proof {
                        assert(byte_arguments(args.take(i + 1 - 2)) is None);
                        lemma_byte_arguments_prefix(args, i + 1 - 2);
                    }
                    return Err(Rejection::InvalidByte);
                },
            }
            i += 1;
        }
        assert(args.take(args.len() as int) =~= args);
        Ok(Command::WriteCoreMemory { address_text: string_of(w[1].as_slice()), address, bytes })
    } else {
        Err(Rejection::UnknownCommand)
    }
}

/// Where the arguments of a write give bytes, so does every prefix of them.
pub proof fn lemma_byte_arguments_prefix(args: Seq<Seq<char>>, n: int)
    requires
        0 <= n <= args.len(),
    ensures
        byte_arguments(args) is Some ==> byte_arguments(args.take(n)) is Some,
    decreases args.len(),
{
    if n == args.len() {
        assert(args.take(n) =~= args);
    } else {
        lemma_byte_arguments_prefix(args.drop_last(), n);
        assert(args.drop_last().take(n) =~= args.take(n));
    }
}

/// The four command names are four names.
pub proof fn lemma_command_names_differ()
    ensures
        "VERSION"@.len() == 7,
        "GET_STATUS"@.len() == 10,
        "READ_CORE_MEMORY"@.len() == 16,
        "WRITE_CORE_MEMORY"@.len() == 17,
{
    reveal_strlit("VERSION");
    reveal_strlit("GET_STATUS");
    reveal_strlit("READ_CORE_MEMORY");
    reveal_strlit("WRITE_CORE_MEMORY");
}

/// Bytes as the reply to a read lists them: each as two hexadecimal digits
/// in upper case, after a space.
pub open spec fn hex_bytes(bytes: Seq<u8>) -> Seq<char>
    decreases bytes.len(),
{
    if bytes.len() == 0 {
        seq![]
    } else {
        hex_bytes(bytes.drop_last()) + seq![' '] + hex_byte(bytes.last())
    }
}

/// The reply to `VERSION`.
pub open spec fn version_reply() -> Seq<char> {
    "1.14.0\n"@
}

/// The reply to `GET_STATUS`: the system, the name of the content and its
/// hash.
pub open spec fn status_reply(info: SystemInfoView, rom_name: Seq<char>, hash: Seq<char>) -> Seq<
    char,
> {
    "GET_STATUS PLAYING "@ + reported_system(info) + seq![','] + rom_name + seq![','] + hash
        + seq!['\n']
}

/// The reply to a read that returned `bytes`.
pub open spec fn read_reply(address_text: Seq<char>, bytes: Seq<u8>) -> Seq<char> {
    "READ_CORE_MEMORY "@ + address_text + hex_bytes(bytes) + seq!['\n']
}

/// The reply to a write that took `written` bytes.
pub open spec fn write_reply(address_text: Seq<char>, written: nat) -> Seq<char> {
    "WRITE_CORE_MEMORY "@ + address_text + seq![' '] + decimal(written) + seq!['\n']
}

/// The reply that `command` gets from a runtime in state `core`.
pub open spec fn reply_to(
    command: CommandView,
    core: CoreView,
    info: SystemInfoView,
    rom_name: Seq<char>,
) -> Seq<char> {
    match command {
        CommandView::Version => version_reply(),
        CommandView::GetStatus => status_reply(info, rom_name, core.state.sha1_romhash),
        CommandView::ReadCoreMemory { address_text, address, len } => read_reply(
            address_text,
            bus_bytes(core.state.memory_map, core.store, address as int, len as int),
        ),
        CommandView::WriteCoreMemory { address_text, address, bytes } => write_reply(
            address_text,
            bus_accepted(core.state.memory_map, core.store, address as int, bytes) as nat,
        ),
    }
}

/// The runtime after `command`: only a write changes it.
pub open spec fn core_after(command: CommandView, core: CoreView) -> CoreView {
    match command {
        CommandView::WriteCoreMemory { address_text, address, bytes } => core.after_write(
            Domain::SystemBus,
            address as int,
            bytes,
        ),
        _ => core,
    }
}

/// Runs `command` against the runtime and returns the reply to send.
/// `info` is what the plugin reports about itself, `rom_name` the name of
/// the content that it runs.
pub fn handle_command(command: &Command, core: &mut Core, info: &SystemInfo, rom_name: &str) -> (r:
    String)
    ensures
        r@ == reply_to(command@, old(core)@, info@, rom_name@),
        final(core)@ == core_after(command@, old(core)@),
{
    let mut out: Vec<char> = Vec::new();
    match command {
        Command::Version => {
            push_text(&mut out, "1.14.0\n");
        },
        Command::GetStatus => {
            push_text(&mut out, "GET_STATUS PLAYING ");
            let system = info.reported_system();
            push_text(&mut out, system.as_str());
            out.push(',');
            push_text(&mut out, rom_name);
            out.push(',');
            let hash = core.get_sha1_romhash();
            push_text(&mut out, hash.as_str());
            out.push('\n');
            assert(out@ =~= status_reply(info@, rom_name@, core@.state.sha1_romhash));
        },
        Command::ReadCoreMemory { address_text, address, len } => {
            let mem = core.get_memory(*address, *len);
            push_text(&mut out, "READ_CORE_MEMORY ");
            push_text(&mut out, address_text.as_str());
            let ghost head = out@;
            let mut i: usize = 0;
            assert(mem@.take(0) =~= Seq::<u8>::empty());
            while i < mem.len()
                invariant
                    i <= mem@.len(),
                    out@ == head + hex_bytes(mem@.take(i as int)),
                decreases mem@.len() - i,
            {
                let ghost before = out@;
                out.push(' ');
                push_hex_byte(&mut out, mem[i]);
                proof {
                    let next = mem@.take(i + 1);
                    assert(next.drop_last() =~= mem@.take(i as int));
                    assert(next.last() == mem@[i as int]);
                    assert(out@ =~= head + hex_bytes(next));
                }
                i += 1;
            }
            assert(mem@.take(mem@.len() as int) =~= mem@);
            out.push('\n');
            assert(out@ =~= read_reply(address_text@, mem@));
        },
        Command::WriteCoreMemory { address_text, address, bytes } => {
            let written = core.write_memory(*address, bytes.as_slice());
            push_text(&mut out, "WRITE_CORE_MEMORY ");
            push_text(&mut out, address_text.as_str());
            out.push(' ');
            push_decimal(&mut out, written);
            out.push('\n');
            assert(out@ =~= write_reply(address_text@, written as nat));
        },
    }
    string_of(out.as_slice())
}

/// Answers one datagram: the reply to send back, or the reason why none is
/// sent.
pub fn handle_message(line: &str, core: &mut Core, info: &SystemInfo, rom_name: &str) -> (r:
    Result<String, Rejection>)
    ensures
        match parsed(line@) {
            Ok(command) => r matches Ok(reply) && reply@ == reply_to(
                command,
                old(core)@,
                info@,
                rom_name@,
            ) && final(core)@ == core_after(command, old(core)@),
            Err(rejection) => r == Err::<String, Rejection>(rejection)
                && final(core)@ == old(core)@,
        },
{
    match parse_command(line) {
        Ok(command) => Ok(handle_command(&command, core, info, rom_name)),
        Err(rejection) => Err(rejection),
    }
}

} // verus!

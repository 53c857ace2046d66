use ape::memory::Memory;
use ape::memory_map::{Descriptor, MemoryMap, Region};
use ape::runtime::{Core, Domain};
use ape::state::{PixelFormat, State};

fn bus_core() -> Core {
    let mut memory = Memory::new();
    let ram = memory.add_buffer((0u8..32).collect());
    let mut state = State::new();
    state.memory_map = MemoryMap::from_descriptors(vec![Descriptor::new(
        0,
        ram,
        8,
        0x100,
        0,
        0,
        16,
        String::from("System Bus"),
    )
    .unwrap()]);
    state.set_rom(vec![0xA0, 0xA1, 0xA2, 0xA3, 0xA4]);
    Core::new(state, memory)
}

#[test]
fn fresh_state_hosts_nothing() {
    let state = State::new();
    assert!(!state.is_core_loaded);
    assert_eq!(state.pixel_format, PixelFormat::ARGB1555);
    assert_eq!(state.memory_map.len(), 0);
    assert!(state.rom.is_empty());
    assert!(state.sha1_romhash.is_empty());
}

#[test]
fn memory_read_is_bounds_checked() {
    let mut memory = Memory::new();
    assert_eq!(memory.add_buffer(vec![1, 2, 3, 4]), 0);
    assert_eq!(memory.add_buffer(vec![9]), 1);
    assert_eq!(memory.len(), 2);
    assert_eq!(memory.read(Region { buffer: 0, offset: 1, len: 2 }), vec![2, 3]);
    assert_eq!(memory.read(Region { buffer: 0, offset: 4, len: 0 }), Vec::<u8>::new());
    assert_eq!(memory.read(Region { buffer: 0, offset: 3, len: 2 }), Vec::<u8>::new());
    assert_eq!(memory.read(Region { buffer: 2, offset: 0, len: 1 }), Vec::<u8>::new());
    assert_eq!(memory.read(Region { buffer: 0, offset: usize::MAX, len: 2 }), Vec::<u8>::new());
    assert_eq!(memory.buffer(1), Some(&[9u8][..]));
    assert_eq!(memory.buffer(2), None);
}

#[test]
fn memory_write_changes_only_the_region() {
    let mut memory = Memory::new();
    memory.add_buffer(vec![1, 2, 3, 4, 5]);
    memory.add_buffer(vec![7, 7]);
    let written = memory.write(Region { buffer: 0, offset: 1, len: 3 }, &[9, 8]);
    assert_eq!(written, 2);
    assert_eq!(memory.buffer(0), Some(&[1u8, 9, 8, 4, 5][..]));
    assert_eq!(memory.buffer(1), Some(&[7u8, 7][..]));
    let written = memory.write(Region { buffer: 0, offset: 3, len: 2 }, &[6, 6, 6, 6]);
    assert_eq!(written, 2);
    assert_eq!(memory.buffer(0), Some(&[1u8, 9, 8, 6, 6][..]));
    assert_eq!(memory.write(Region { buffer: 0, offset: 4, len: 2 }, &[0, 0]), 0);
    assert_eq!(memory.write(Region { buffer: 5, offset: 0, len: 1 }, &[0]), 0);
    assert_eq!(memory.buffer(0), Some(&[1u8, 9, 8, 6, 6][..]));
}

#[test]
fn bus_read_goes_through_the_descriptor() {
    let core = bus_core();
    assert_eq!(core.get_memory(0x100, 4), vec![8, 9, 10, 11]);
    assert_eq!(core.get_memory(0x104, 2), vec![12, 13]);
}

#[test]
fn bus_read_past_the_descriptor_is_truncated() {
    let core = bus_core();
    assert_eq!(core.get_memory(0x10d, 8), vec![21, 22, 23]);
    assert_eq!(core.get_memory(0x10f, 8), vec![23]);
    assert_eq!(core.get_memory(0x110, 8), Vec::<u8>::new());
    assert_eq!(core.get_memory(0xff, 8), Vec::<u8>::new());
}

#[test]
fn bus_write_past_the_descriptor_is_clamped() {
    let mut core = bus_core();
    assert_eq!(core.write_memory(0x10e, &[1, 2, 3, 4]), 2);
    let expected: Vec<u8> = (0u8..22).chain([1, 2]).chain(24u8..32).collect();
    assert_eq!(core.memory().buffer(0), Some(&expected[..]));
    assert_eq!(core.write_memory(0x110, &[1]), 0);
    assert_eq!(core.memory().buffer(0), Some(&expected[..]));
}

#[test]
fn bus_write_returns_the_bytes_written() {
    let mut core = bus_core();
    assert_eq!(core.write_memory(0x100, &[0xEE, 0xFF]), 2);
    assert_eq!(core.get_memory(0x100, 3), vec![0xEE, 0xFF, 10]);
    assert_eq!(core.write_memory(0x100, &[]), 0);
}

#[test]
fn rom_read_is_truncated_at_the_end() {
    let core = bus_core();
    assert_eq!(core.read_rom(0, 5), vec![0xA0, 0xA1, 0xA2, 0xA3, 0xA4]);
    assert_eq!(core.read_rom(3, 8), vec![0xA3, 0xA4]);
    assert_eq!(core.read_rom(5, 1), Vec::<u8>::new());
    assert_eq!(core.read_rom(9, 1), Vec::<u8>::new());
    assert_eq!(core.read_rom(1, usize::MAX), vec![0xA1, 0xA2, 0xA3, 0xA4]);
    assert_eq!(core.read_rom(usize::MAX, usize::MAX), Vec::<u8>::new());
}

#[test]
fn domains_are_named_exactly() {
    assert_eq!(Domain::from_name("ROM"), Some(Domain::Rom));
    assert_eq!(Domain::from_name("System Bus"), Some(Domain::SystemBus));
    assert_eq!(Domain::from_name("rom"), None);
    assert_eq!(Domain::from_name("System Bus "), None);
    assert_eq!(Domain::from_name(""), None);
}

#[test]
fn rom_domain_is_read_only() {
    let mut core = bus_core();
    assert_eq!(core.write_domain(Domain::Rom, 0, &[1, 2]), 0);
    assert_eq!(core.read_domain(Domain::Rom, 0, 2), vec![0xA0, 0xA1]);
    assert_eq!(core.write_domain(Domain::SystemBus, 0x100, &[1, 2]), 2);
    assert_eq!(core.read_domain(Domain::SystemBus, 0x100, 2), vec![1, 2]);
}

#[test]
fn rom_hash_is_the_sha1_of_the_image() {
    let mut state = State::new();
    state.set_rom(b"abc".to_vec());
    assert_eq!(state.rom, b"abc".to_vec());
    assert_eq!(state.sha1_romhash, "A9993E364706816ABA3E25717850C26C9CD0D89D");
    state.set_rom(Vec::new());
    assert_eq!(state.sha1_romhash, "DA39A3EE5E6B4B0D3255BFEF95601890AFD80709");
    let core = Core::new(state, Memory::new());
    assert_eq!(core.get_sha1_romhash(), "DA39A3EE5E6B4B0D3255BFEF95601890AFD80709");
    assert_eq!(core.rom(), &[] as &[u8]);
}

#[test]
fn pixel_formats_are_numbered_as_the_plugin_interface_numbers_them() {
    assert_eq!(PixelFormat::from_uint(0), Some(PixelFormat::ARGB1555));
    assert_eq!(PixelFormat::from_uint(1), Some(PixelFormat::ARGB8888));
    assert_eq!(PixelFormat::from_uint(2), Some(PixelFormat::RGB565));
    assert_eq!(PixelFormat::from_uint(3), None);
    for value in 0..3 {
        let ours = PixelFormat::from_uint(value).unwrap();
        assert_eq!(ours.to_uint(), value);
        let theirs = libretro_sys::PixelFormat::from_uint(value).unwrap();
        assert_eq!(format!("{:?}", ours), format!("{:?}", theirs));
    }
    assert!(libretro_sys::PixelFormat::from_uint(3).is_none());
}

#[test]
fn state_takes_only_formats_it_can_decode() {
    let mut state = State::new();
    assert!(state.set_pixel_format(PixelFormat::RGB565));
    assert_eq!(state.pixel_format, PixelFormat::RGB565);
    assert!(!state.set_pixel_format(PixelFormat::ARGB1555));
    assert_eq!(state.pixel_format, PixelFormat::RGB565);
    assert!(state.set_pixel_format(PixelFormat::ARGB8888));
    assert_eq!(state.pixel_format, PixelFormat::ARGB8888);
}

#[test]
fn runtime_parts_can_be_changed_in_place() {
    let mut core = bus_core();
    core.state_mut().pixel_format = PixelFormat::RGB565;
    assert_eq!(core.state().pixel_format, PixelFormat::RGB565);
    let id = core.memory_mut().add_buffer(vec![1]);
    assert_eq!(id, 1);
    let (state, memory) = core.into_parts();
    assert_eq!(state.pixel_format, PixelFormat::RGB565);
    assert_eq!(memory.len(), 2);
}

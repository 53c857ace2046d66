use ape::audio::RetroAudio;
use ape::environment::{Call, Environment, Variable, VariableError};
use ape::input::GamepadButton;
use ape::state::PixelFormat;
use ape::video::{Frame, Pixel};
use std::sync::mpsc::sync_channel;

const LITTLE: bool = true;
const BIG: bool = false;

fn frame(buffer: Vec<u8>, width: usize, height: usize, pitch: usize, format: PixelFormat) -> Frame {
    Frame { buffer, width, height, pitch, pixel_format: format }
}

#[test]
fn argb8888_words_are_read_in_machine_order() {
    let f = frame(vec![0x11, 0x22, 0x33, 0x44], 1, 1, 4, PixelFormat::ARGB8888);
    assert_eq!(
        f.pixels(LITTLE),
        Some(vec![Pixel { r: 0x33, g: 0x22, b: 0x11, a: 0x44 }])
    );
    assert_eq!(
        f.pixels(BIG),
        Some(vec![Pixel { r: 0x22, g: 0x33, b: 0x44, a: 0x11 }])
    );
    let native = u16::from_ne_bytes([1, 0]) == 1;
    let word = u32::from_ne_bytes([0x11, 0x22, 0x33, 0x44]);
    let [a, r, g, b] = word.to_be_bytes();
    assert_eq!(f.pixels(native), Some(vec![Pixel { r, g, b, a }]));
}

#[test]
fn rows_skip_the_padding_of_the_pitch() {
    let buffer: Vec<u8> = (0u8..24).collect();
    let f = frame(buffer, 2, 2, 12, PixelFormat::ARGB8888);
    let pixels = f.pixels(LITTLE).unwrap();
    assert_eq!(
        pixels,
        vec![
            Pixel { r: 2, g: 1, b: 0, a: 3 },
            Pixel { r: 6, g: 5, b: 4, a: 7 },
            Pixel { r: 14, g: 13, b: 12, a: 15 },
            Pixel { r: 18, g: 17, b: 16, a: 19 },
        ]
    );
    assert_eq!(
        f.buffer_to_packed_rgb888(LITTLE),
        Some(vec![2, 1, 0, 6, 5, 4, 14, 13, 12, 18, 17, 16])
    );
    assert_eq!(
        f.buffer_to_packed_argb32(LITTLE),
        Some(vec![0x03020100, 0x07060504, 0x0f0e0d0c, 0x13121110])
    );
}

#[test]
fn a_partial_last_row_is_left_out() {
    let f = frame(vec![0; 11], 1, 3, 4, PixelFormat::ARGB8888);
    assert_eq!(f.pixels(LITTLE).unwrap().len(), 2);
}

#[test]
fn rgb565_channels_are_widened_as_by_rounding() {
    for word in 0u32..=0xffff {
        let word = word as u16;
        let bytes = word.to_le_bytes();
        let f = frame(bytes.to_vec(), 1, 1, 2, PixelFormat::RGB565);
        let r = (((word >> 11) as f32 / 31.0) * 255.0).round() as u8;
        let g = ((((word >> 5) & 0b111111) as f32 / 63.0) * 255.0).round() as u8;
        let b = (((word & 0b11111) as f32 / 31.0) * 255.0).round() as u8;
        assert_eq!(f.pixels(LITTLE), Some(vec![Pixel { r, g, b, a: 0 }]), "{word:#06x}");
        let swapped = frame(word.to_be_bytes().to_vec(), 1, 1, 2, PixelFormat::RGB565);
        assert_eq!(swapped.pixels(BIG), Some(vec![Pixel { r, g, b, a: 0 }]));
    }
}

#[test]
fn rgb565_extremes_are_black_and_white() {
    let f = frame(vec![0xff, 0xff, 0x00, 0x00, 0x00, 0xf8], 3, 1, 6, PixelFormat::RGB565);
    assert_eq!(
        f.buffer_to_packed_rgb888(LITTLE),
        Some(vec![255, 255, 255, 0, 0, 0, 255, 0, 0])
    );
    assert_eq!(
        f.buffer_to_packed_argb32(LITTLE),
        Some(vec![0x00ffffff, 0x00000000, 0x00ff0000])
    );
}

#[test]
fn frames_that_cannot_be_decoded_give_nothing() {
    let old = frame(vec![0; 8], 2, 2, 4, PixelFormat::ARGB1555);
    assert!(!old.decodes());
    assert_eq!(old.pixels(LITTLE), None);
    assert_eq!(old.buffer_to_packed_rgb888(LITTLE), None);
    assert_eq!(old.buffer_to_packed_argb32(LITTLE), None);
    let narrow = frame(vec![0; 8], 2, 2, 4, PixelFormat::ARGB8888);
    assert!(!narrow.decodes());
    assert_eq!(narrow.pixels(LITTLE), None);
    assert!(!Frame::empty().decodes());
    assert_eq!(Frame::empty().buffer_to_packed_rgb888(LITTLE), None);
    let fits = frame(vec![0; 8], 2, 2, 4, PixelFormat::RGB565);
    assert!(fits.decodes());
    assert_eq!(fits.pixels(LITTLE).unwrap().len(), 4);
}

#[test]
fn option_descriptions_are_read() {
    let variable = Variable::parse("Colour correction; auto|on|off").unwrap();
    assert_eq!(variable.label, "Colour correction");
    assert_eq!(variable.options, vec!["auto", "on", "off"]);
    assert_eq!(variable.default, "auto");
    assert_eq!(variable.value, "auto");
    let single = Variable::parse("x; y").unwrap();
    assert_eq!(single.options, vec!["y"]);
    let empty = Variable::parse("; ").unwrap();
    assert_eq!(empty.label, "");
    assert_eq!(empty.options, vec![""]);
    assert_eq!(empty.value, "");
    let first = Variable::parse("a; b; c|d||").unwrap();
    assert_eq!(first.label, "a");
    assert_eq!(first.options, vec!["b; c", "d", "", ""]);
}

#[test]
fn option_descriptions_agree_with_std_splitting() {
    for s in ["a; b|c", "; |", "l;  x|y|", "no separator", "a;b", ";", "", "x; ", "é; ü|ö; ä"] {
        let ours = Variable::parse(s).ok().map(|v| (v.label, v.options));
        let theirs = s.split_once("; ").map(|(label, options)| {
            (label.to_string(), options.split('|').map(|o| o.to_string()).collect::<Vec<_>>())
        });
        assert_eq!(ours, theirs, "{s:?}");
    }
}

#[test]
fn option_descriptions_are_rejected_for_each_fault() {
    assert_eq!(Variable::parse("no separator").unwrap_err(), VariableError::MissingSeparator);
    assert_eq!(Variable::parse("a;b").unwrap_err(), VariableError::MissingSeparator);
    assert_eq!(Variable::parse("").unwrap_err(), VariableError::MissingSeparator);
    assert_eq!(Variable::parse("a; b\0|c").unwrap_err(), VariableError::ValueContainsNul);
    assert!(Variable::parse("a; b|c\0").is_ok());
}

#[test]
fn declared_options_keep_their_order_and_take_new_values() {
    let mut env = Environment::new();
    assert_eq!(env.get_variable("speed"), None);
    assert!(env.set_variable("speed".to_string(), "Speed; slow|fast"));
    assert!(env.set_variable("colour".to_string(), "Colour; on|off"));
    assert_eq!(env.get_variable("speed"), Some("slow"));
    assert_eq!(env.get_variable("colour"), Some("on"));
    assert!(env.set_variable("speed".to_string(), "Speed; fast|slow"));
    assert_eq!(env.get_variable("speed"), Some("fast"));
    assert_eq!(env.get_variable("colour"), Some("on"));
    assert!(!env.set_variable("colour".to_string(), "broken"));
    assert_eq!(env.get_variable("colour"), Some("on"));
    assert_eq!(env.get_variable("Speed"), None);
}

#[test]
fn options_are_declared_up_to_the_first_that_cannot_be_read() {
    let mut env = Environment::new();
    let pairs = |list: &[(&str, &str)]| -> Vec<(String, String)> {
        list.iter().map(|(k, v)| (k.to_string(), v.to_string())).collect()
    };
    assert!(env.set_variables(pairs(&[("a", "A; 1|2"), ("b", "B; 3")])));
    assert_eq!(env.get_variable("a"), Some("1"));
    assert_eq!(env.get_variable("b"), Some("3"));
    assert!(!env.set_variables(pairs(&[("c", "C; 4"), ("d", "bad"), ("e", "E; 5")])));
    assert_eq!(env.get_variable("c"), Some("4"));
    assert_eq!(env.get_variable("d"), None);
    assert_eq!(env.get_variable("e"), None);
    assert!(env.set_variables(Vec::new()));
}

#[test]
fn environment_takes_decodable_pixel_formats() {
    let mut env = Environment::new();
    assert_eq!(*env.pixel_format(), PixelFormat::ARGB1555);
    assert!(env.set_pixel_format(PixelFormat::RGB565));
    assert_eq!(*env.pixel_format(), PixelFormat::RGB565);
    assert!(!env.set_pixel_format(PixelFormat::ARGB1555));
    assert_eq!(*env.pixel_format(), PixelFormat::RGB565);
    assert!(env.set_pixel_format(PixelFormat::ARGB8888));
    assert_eq!(*env.pixel_format(), PixelFormat::ARGB8888);
}

#[test]
fn environment_keeps_the_plain_input_mask() {
    let mut env = Environment::new();
    assert_eq!(env.input_state(), 0);
    env.poll_input(GamepadButton::Start, false);
    env.poll_input(GamepadButton::DPadLeft, false);
    assert_eq!(env.input_state(), (1 << 3) | (1 << 6));
    env.poll_input(GamepadButton::Start, true);
    assert_eq!(env.input_state(), 1 << 6);
}

#[test]
fn samples_come_out_in_order_across_frames() {
    let (tx, rx) = sync_channel(8);
    tx.send(vec![1i16, 2, 3]).unwrap();
    tx.send(vec![4i16]).unwrap();
    tx.send(vec![5i16, 6]).unwrap();
    std::mem::drop(tx);
    let mut audio = RetroAudio::new(rx);
    assert_eq!(audio.channels(), 2);
    assert_eq!(audio.current_frame_len(), 1);
    assert_eq!(audio.next(), Some(1));
    assert_eq!(audio.current_frame_len(), 2);
    assert_eq!(audio.next(), Some(2));
    assert_eq!(audio.next(), Some(3));
    assert_eq!(audio.current_frame_len(), 1);
    assert_eq!(audio.next(), Some(4));
    assert_eq!(audio.current_frame_len(), 2);
    assert_eq!(audio.next(), Some(5));
    assert_eq!(audio.next(), None);
    assert_eq!(audio.next(), None);
}

#[test]
fn samples_can_be_taken_without_waiting() {
    let (tx, rx) = sync_channel::<Vec<i16>>(1);
    let mut audio = RetroAudio::new(rx);
    assert_eq!(audio.pop(), None);
    audio.refill(vec![7, 8]);
    assert_eq!(audio.current_frame_len(), 2);
    assert_eq!(audio.pop(), Some(7));
    assert_eq!(audio.pop(), Some(8));
    assert_eq!(audio.pop(), None);
    std::mem::drop(tx);
    assert_eq!(audio.next(), None);
}

#[test]
fn environment_serves_the_commands_it_knows() {
    let mut env = Environment::new();
    let set_format = env.environment_cb(10, Call::Uint(2));
    assert!(set_format.result);
    assert_eq!(*env.pixel_format(), PixelFormat::RGB565);
    assert!(!env.environment_cb(10, Call::Uint(0)).result);
    assert!(!env.environment_cb(10, Call::Uint(7)).result);
    assert!(!env.environment_cb(10, Call::Null).result);
    assert_eq!(*env.pixel_format(), PixelFormat::RGB565);

    let dupe = env.environment_cb(3, Call::BoolSlot);
    assert!(dupe.result);
    assert_eq!(dupe.write_bool, Some(true));
    let dupe = env.environment_cb(3, Call::Null);
    assert!(dupe.result);
    assert_eq!(dupe.write_bool, None);

    let pairs = vec![("speed".to_string(), "Speed; slow|fast".to_string())];
    assert!(env.environment_cb(16, Call::Variables(pairs)).result);
    let bad = vec![("x".to_string(), "unreadable".to_string())];
    assert!(!env.environment_cb(16, Call::Variables(bad)).result);
    assert!(!env.environment_cb(16, Call::Null).result);

    let known = env.environment_cb(15, Call::Key("speed".to_string()));
    assert!(known.result);
    assert_eq!(known.write_value, Some(Some("slow".to_string())));
    let unknown = env.environment_cb(15, Call::Key("x".to_string()));
    assert!(unknown.result);
    assert_eq!(unknown.write_value, Some(None));
    assert!(!env.environment_cb(15, Call::Null).result);

    for command in [0, 1, 9, 27, 0x10024, 4242] {
        let other = env.environment_cb(command, Call::Uint(1));
        assert!(!other.result);
        assert_eq!(other.write_bool, None);
        assert_eq!(other.write_value, None);
    }
}

//! Buttons of the emulated joypad, sets of them, and what a gamepad event
//! does to the set that is held down.

use vstd::prelude::*;

verus! {

pub const DEVICE_ID_JOYPAD_B: u32 = 0;
pub const DEVICE_ID_JOYPAD_Y: u32 = 1;
pub const DEVICE_ID_JOYPAD_SELECT: u32 = 2;
pub const DEVICE_ID_JOYPAD_START: u32 = 3;
pub const DEVICE_ID_JOYPAD_UP: u32 = 4;
pub const DEVICE_ID_JOYPAD_DOWN: u32 = 5;
pub const DEVICE_ID_JOYPAD_LEFT: u32 = 6;
pub const DEVICE_ID_JOYPAD_RIGHT: u32 = 7;
pub const DEVICE_ID_JOYPAD_A: u32 = 8;
pub const DEVICE_ID_JOYPAD_X: u32 = 9;
pub const DEVICE_ID_JOYPAD_L: u32 = 10;
pub const DEVICE_ID_JOYPAD_R: u32 = 11;
pub const DEVICE_ID_JOYPAD_L2: u32 = 12;
pub const DEVICE_ID_JOYPAD_R2: u32 = 13;
pub const DEVICE_ID_JOYPAD_L3: u32 = 14;
pub const DEVICE_ID_JOYPAD_R3: u32 = 15;

/// A button of the emulated joypad.
#[derive(Clone, Copy, Debug, PartialEq, Eq, Hash, Structural)]
pub enum Button {
    Up,
    Down,
    Left,
    Right,
    A,
    B,
    X,
    Y,
    Start,
    Select,
    L,
    L2,
    L3,
    R,
    R2,
    R3,
}

/// A button of a physical gamepad, as the gamepad library reports it.
#[derive(Clone, Copy, Debug, PartialEq, Eq, Hash, Structural)]
pub enum GamepadButton {
    South,
    East,
    North,
    West,
    C,
    Z,
    LeftTrigger,
    LeftTrigger2,
    RightTrigger,
    RightTrigger2,
    Select,
    Start,
    Mode,
    LeftThumb,
    RightThumb,
    DPadUp,
    DPadDown,
    DPadLeft,
    DPadRight,
    Unknown,
}

impl Button {
    /// The number by which the plugin interface asks for the button.
    pub open spec fn device_id(self) -> u32 {
        match self {
            Button::B => 0,
            Button::Y => 1,
            Button::Select => 2,
            Button::Start => 3,
            Button::Up => 4,
            Button::Down => 5,
            Button::Left => 6,
            Button::Right => 7,
            Button::A => 8,
            Button::X => 9,
            Button::L => 10,
            Button::R => 11,
            Button::L2 => 12,
            Button::R2 => 13,
            Button::L3 => 14,
            Button::R3 => 15,
        }
    }

    /// The button that the plugin interface numbers `device_id_joypad`, if
    /// there is one.
    pub fn from_raw_retro_joypad_device_id(device_id_joypad: u32) -> (r: Option<Button>)
        ensures
            match r {
                Some(button) => button.device_id() == device_id_joypad,
                None => forall|button: Button| #[trigger] button.device_id() != device_id_joypad,
            },
    {
        if device_id_joypad == DEVICE_ID_JOYPAD_UP {
            Some(Button::Up)
        } else if device_id_joypad == DEVICE_ID_JOYPAD_DOWN {
            Some(Button::Down)
        } else if device_id_joypad == DEVICE_ID_JOYPAD_LEFT {
            Some(Button::Left)
        } else if device_id_joypad == DEVICE_ID_JOYPAD_RIGHT {
            Some(Button::Right)
        } else if device_id_joypad == DEVICE_ID_JOYPAD_A {
            Some(Button::A)
        } else if device_id_joypad == DEVICE_ID_JOYPAD_B {
            Some(Button::B)
        } else if device_id_joypad == DEVICE_ID_JOYPAD_X {
            Some(Button::X)
        } else if device_id_joypad == DEVICE_ID_JOYPAD_Y {
            Some(Button::Y)
        } else if device_id_joypad == DEVICE_ID_JOYPAD_SELECT {
            Some(Button::Select)
        } else if device_id_joypad == DEVICE_ID_JOYPAD_START {
            Some(Button::Start)
        } else if device_id_joypad == DEVICE_ID_JOYPAD_L {
            Some(Button::L)
        } else if device_id_joypad == DEVICE_ID_JOYPAD_L2 {
            Some(Button::L2)
        } else if device_id_joypad == DEVICE_ID_JOYPAD_L3 {
            Some(Button::L3)
        } else if device_id_joypad == DEVICE_ID_JOYPAD_R {
            Some(Button::R)
        } else if device_id_joypad == DEVICE_ID_JOYPAD_R2 {
            Some(Button::R2)
        } else if device_id_joypad == DEVICE_ID_JOYPAD_R3 {
            Some(Button::R3)
        } else {
            None
        }
    }

    /// The number by which the plugin interface asks for the button.
    pub fn to_raw_retro_joypad_device_id(self) -> (r: u32)
        ensures
            r == self.device_id(),
            r < 16,
    {
        match self {
            Button::B => DEVICE_ID_JOYPAD_B,
            Button::Y => DEVICE_ID_JOYPAD_Y,
            Button::Select => DEVICE_ID_JOYPAD_SELECT,
            Button::Start => DEVICE_ID_JOYPAD_START,
            Button::Up => DEVICE_ID_JOYPAD_UP,
            Button::Down => DEVICE_ID_JOYPAD_DOWN,
            Button::Left => DEVICE_ID_JOYPAD_LEFT,
            Button::Right => DEVICE_ID_JOYPAD_RIGHT,
            Button::A => DEVICE_ID_JOYPAD_A,
            Button::X => DEVICE_ID_JOYPAD_X,
            Button::L => DEVICE_ID_JOYPAD_L,
            Button::R => DEVICE_ID_JOYPAD_R,
            Button::L2 => DEVICE_ID_JOYPAD_L2,
            Button::R2 => DEVICE_ID_JOYPAD_R2,
            Button::L3 => DEVICE_ID_JOYPAD_L3,
            Button::R3 => DEVICE_ID_JOYPAD_R3,
        }
    }

    /// The joypad button that a gamepad button stands for.
    pub open spec fn of_gamepad(button: GamepadButton) -> Option<Button> {
        match button {
            GamepadButton::DPadUp => Some(Button::Up),
            GamepadButton::DPadDown => Some(Button::Down),
            GamepadButton::DPadLeft => Some(Button::Left),
            GamepadButton::DPadRight => Some(Button::Right),
            GamepadButton::East => Some(Button::A),
            GamepadButton::South => Some(Button::B),
            GamepadButton::North => Some(Button::X),
            GamepadButton::West => Some(Button::Y),
            GamepadButton::Start => Some(Button::Start),
            GamepadButton::Select => Some(Button::Select),
            GamepadButton::LeftTrigger => Some(Button::L),
            GamepadButton::LeftTrigger2 => Some(Button::L2),
            GamepadButton::LeftThumb => Some(Button::L3),
            GamepadButton::RightTrigger => Some(Button::R),
            GamepadButton::RightTrigger2 => Some(Button::R2),
            GamepadButton::RightThumb => Some(Button::R3),
            _ => None,
        }
    }

    /// The joypad button that a gamepad button stands for: by position for
    /// the face buttons, by name for the rest. `C`, `Z`, `Mode` and
    /// `Unknown` stand for none.
    pub fn from_gilrs(button: GamepadButton) -> (r: Option<Button>)
        ensures
            r == Self::of_gamepad(button),
    {
        match button {
            GamepadButton::DPadUp => Some(Button::Up),
            GamepadButton::DPadDown => Some(Button::Down),
            GamepadButton::DPadLeft => Some(Button::Left),
            GamepadButton::DPadRight => Some(Button::Right),
            GamepadButton::East => Some(Button::A),
            GamepadButton::South => Some(Button::B),
            GamepadButton::North => Some(Button::X),
            GamepadButton::West => Some(Button::Y),
            GamepadButton::Start => Some(Button::Start),
            GamepadButton::Select => Some(Button::Select),
            GamepadButton::LeftTrigger => Some(Button::L),
            GamepadButton::LeftTrigger2 => Some(Button::L2),
            GamepadButton::LeftThumb => Some(Button::L3),
            GamepadButton::RightTrigger => Some(Button::R),
            GamepadButton::RightTrigger2 => Some(Button::R2),
            GamepadButton::RightThumb => Some(Button::R3),
            _ => None,
        }
    }
}

/// Whether bit `index` of `bits` is set.
pub open spec fn bit_set(bits: u16, index: u32) -> bool {
    bits & (1u16 << (index as u16)) != 0
}

proof fn lemma_bits(bits: u16, i: u16, j: u16)
    by (bit_vector)
    requires
        i < 16,
        j < 16,
    ensures
        ((bits | (1u16 << i)) & (1u16 << j) != 0) == (i == j || bits & (1u16 << j) != 0),
        ((bits & !(1u16 << i)) & (1u16 << j) != 0) == (i != j && bits & (1u16 << j) != 0),
        0u16 & (1u16 << j) == 0,
{
}

/// A set of joypad buttons.
#[derive(Clone, Copy, Debug, PartialEq, Eq)]
pub struct ButtonSet {
    bits: u16,
}

impl View for ButtonSet {
    type V = Set<Button>;

    closed spec fn view(&self) -> Set<Button> {
        Set::new(|button: Button| bit_set(self.bits, button.device_id()))
    }
}

impl ButtonSet {
    /// The set without buttons.
    pub fn empty() -> (r: ButtonSet)
        ensures
            r@ == Set::<Button>::empty(),
    {
        let r = ButtonSet { bits: 0 };
        proof {
            assert forall|button: Button| !r@.contains(button) by {
                lemma_bits(0, 0, button.device_id() as u16);
            }
            assert(r@ =~= Set::<Button>::empty());
        }
        r
    }

    /// Whether `button` is in the set.
    pub fn contains(&self, button: Button) -> (r: bool)
        ensures
            r == self@.contains(button),
    {
        let id = button.to_raw_retro_joypad_device_id();
        self.bits & (1u16 << (id as u16)) != 0
    }

    /// Puts `button` into the set.
    pub fn insert(&mut self, button: Button)
        ensures
            final(self)@ == old(self)@.insert(button),
    {
        let id = button.to_raw_retro_joypad_device_id();
        self.bits = self.bits | (1u16 << (id as u16));
        proof {
            assert forall|other: Button|
                self@.contains(other) == old(self)@.insert(button).contains(other) by {
                lemma_bits(old(self).bits, id as u16, other.device_id() as u16);
            }
            assert(self@ =~= old(self)@.insert(button));
        }
    }

    /// Takes `button` out of the set.
    pub fn remove(&mut self, button: Button)
        ensures
            final(self)@ == old(self)@.remove(button),
    {
        let id = button.to_raw_retro_joypad_device_id();
        self.bits = self.bits & !(1u16 << (id as u16));
        proof {
            assert forall|other: Button|
                self@.contains(other) == old(self)@.remove(button).contains(other) by {
                lemma_bits(old(self).bits, id as u16, other.device_id() as u16);
            }
            assert(self@ =~= old(self)@.remove(button));
        }
    }

    /// The set as the bit mask that the plugin interface reads: bit `n` is
    /// set where the button that the interface numbers `n` is in the set.
    pub fn bits(&self) -> (r: u16)
        ensures
            forall|button: Button| #[trigger] self@.contains(button) == bit_set(r, button.device_id()),
    {
        self.bits
    }
}

/// How fast the emulation runs.
#[derive(Clone, Copy, Debug, PartialEq, Eq, Structural)]
pub enum Speed {
    Normal,
    Fast,
}

/// The button that runs the emulation fast while it is held.
pub open spec fn speed_button() -> Button {
    Button::R
}

/// The joypad button that a press of `button` stands for under the
/// runtime's key bindings, if any: `B`, `Y` and `L` act as `A`, `B` and `X`;
/// `A` and `X` are not bound.
pub open spec fn bound_button(button: Button) -> Option<Button> {
    match button {
        Button::B => Some(Button::A),
        Button::Y => Some(Button::B),
        Button::L => Some(Button::X),
        Button::A => None,
        Button::X => None,
        _ => Some(button),
    }
}

/// The direction opposite to `button`, for the four directions.
pub open spec fn opposite(button: Button) -> Option<Button> {
    match button {
        Button::Down => Some(Button::Up),
        Button::Up => Some(Button::Down),
        Button::Left => Some(Button::Right),
        Button::Right => Some(Button::Left),
        _ => None,
    }
}

/// The buttons held after a press or release of `button`.
///
/// A direction, pressed or released, lets go of the opposite direction.
/// Then the key bindings apply. The speed button changes no button; any
/// other button enters the set when pressed and leaves it when released.
pub open spec fn buttons_after(held: Set<Button>, button: GamepadButton, released: bool) -> Set<
    Button,
> {
    match Button::of_gamepad(button) {
        None => held,
        Some(pressed) => {
            let cleared = match opposite(pressed) {
                Some(other) => held.remove(other),
                None => held,
            };
            match bound_button(pressed) {
                None => cleared,
                Some(bound) => if bound == speed_button() {
                    cleared
                } else if released {
                    cleared.remove(bound)
                } else {
                    cleared.insert(bound)
                },
            }
        },
    }
}

/// The speed that a press or release of `button` sets, if it sets one: fast
/// while the speed button is held, normal once it is released.
pub open spec fn speed_after(button: GamepadButton, released: bool) -> Option<Speed> {
    match Button::of_gamepad(button) {
        None => None,
        Some(pressed) => match bound_button(pressed) {
            Some(bound) => if bound == speed_button() {
                Some(
                    if released {
                        Speed::Normal
                    } else {
                        Speed::Fast
                    },
                )
            } else {
                None
            },
            None => None,
        },
    }
}

/// Applies one press or release of a gamepad button to the buttons held,
/// and returns the speed to run at from now on where the event changes it.
pub fn apply_button_event(held: &mut ButtonSet, button: GamepadButton, released: bool) -> (r:
    Option<Speed>)
    ensures
        final(held)@ == buttons_after(old(held)@, button, released),
        r == speed_after(button, released),
{
    let pressed = match Button::from_gilrs(button) {
        Some(pressed) => pressed,
        None => {
            return None;
        },
    };
    match pressed {
        Button::Down => held.remove(Button::Up),
        Button::Up => held.remove(Button::Down),
        Button::Left => held.remove(Button::Right),
        Button::Right => held.remove(Button::Left),
        _ => {},
    }
    let bound = match pressed {
        Button::B => Button::A,
        Button::Y => Button::B,
        Button::L => Button::X,
        Button::A => {
            return None;
        },
        Button::X => {
            return None;
        },
        _ => pressed,
    };
    if bound == Button::R {
        return Some(if released { Speed::Normal } else { Speed::Fast });
    }
    if released {
        held.remove(bound);
    } else {
        held.insert(bound);
    }
    None
}

/// The joypad bit that a gamepad button sets in the plain input mask, by
/// the number that the plugin interface gives the button; the buttons that
/// the interface does not know share bit 0.
pub open spec fn mask_bit(button: GamepadButton) -> u32 {
    match Button::of_gamepad(button) {
        Some(b) => b.device_id(),
        None => 0,
    }
}

/// The plain input mask after a press or release of `button`: its bit set
/// on a press, cleared on a release, every other bit as before.
pub open spec fn mask_after(mask: u16, button: GamepadButton, released: bool) -> u16 {
    if released {
        mask & !(1u16 << (mask_bit(button) as u16))
    } else {
        mask | (1u16 << (mask_bit(button) as u16))
    }
}

/// Applies one press or release of a gamepad button to the plain input
/// mask.
pub fn poll_input(mask: u16, button: GamepadButton, released: bool) -> (r: u16)
    ensures
        r == mask_after(mask, button, released),
        forall|index: u32|
            index < 16 ==> #[trigger] bit_set(r, index) == if index == mask_bit(button) {
                !released
            } else {
                bit_set(mask, index)
            },
{
    let bit: u32 = match Button::from_gilrs(button) {
        Some(b) => b.to_raw_retro_joypad_device_id(),
        None => 0,
    };
    let r = if released {
        mask & !(1u16 << (bit as u16))
    } else {
        mask | (1u16 << (bit as u16))
    };
    proof {
        assert forall|index: u32| index < 16 implies #[trigger] bit_set(r, index) == if index
            == mask_bit(button) {
            !released
        } else {
            bit_set(mask, index)
        } by {
            lemma_bits(mask, bit as u16, index as u16);
        }
    }
    r
}

} // verus!

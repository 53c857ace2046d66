//! The bridge between the plugin's callbacks, which carry no context, and
//! the handler that the frontend supplies.
//!
//! The bridge is only ever entered from inside a call into the plugin, on
//! the thread that owns the runtime. Nothing in the types enforces this:
//! whoever drives the plugin keeps to it.
//!
//! While no handler is registered the stub stands in. A call that reaches
//! it does nothing but is noted on the bridge, so that whoever keeps the log
//! can warn of each.

use vstd::prelude::*;
use vstd::string::StringExecFns;
use crate::environment_command::EnvironmentCommand;
use crate::input::{Button, ButtonSet};
use crate::state::{PixelFormat, State, StateView};
use crate::video::{data_view, delivered, Frame};

verus! {

/// What a frontend does with what the plugin produces and asks for.
pub trait Callbacks {
    /// A frame is ready; `None` repeats the frame before.
    fn video_refresh(&mut self, frame: Option<Frame>);

    /// Whether the frontend can show frames of this format.
    fn supports_pixel_format(&mut self, pixel_format: PixelFormat) -> bool;

    /// One stereo sample is ready.
    fn audio_sample(&mut self, left: i16, right: i16);

    /// Interleaved stereo samples are ready.
    fn audio_samples(&mut self, samples: &[i16]);

    /// The plugin is about to ask for input.
    fn input_poll(&mut self);

    /// The buttons held on the joypad in `port`.
    fn input_buttons(&self, port: u32) -> ButtonSet;

    /// Whether the frontend accepts a repeated frame.
    fn can_dupe_frames(&mut self) -> bool {
        false
    }

    /// The handler in a box, as the bridge takes it.
    fn boxed(self) -> (r: Box<Self>) where Self: Sized
        ensures
            *r == self,
    {
        Box::new(self)
    }
}

/// The handler that stands in when none is registered. It ignores what it
/// is given, supports no pixel format and reports no button.
#[derive(Clone, Copy, Debug)]
pub struct Stub;

impl Callbacks for Stub {
    fn video_refresh(&mut self, frame: Option<Frame>) {
    }

    fn supports_pixel_format(&mut self, pixel_format: PixelFormat) -> (r: bool)
        ensures
            !r,
    {
        false
    }

    fn audio_sample(&mut self, left: i16, right: i16) {
    }

    fn audio_samples(&mut self, samples: &[i16]) {
    }

    fn input_poll(&mut self) {
    }

    fn input_buttons(&self, port: u32) -> (r: ButtonSet)
        ensures
            r@ == Set::<Button>::empty(),
    {
        ButtonSet::empty()
    }
}

/// A call that arrived while no handler was registered, and so reached the
/// stub. Each is worth a warning: it means that the plugin called back
/// after the frontend had let go of it.
#[derive(Clone, Copy, Debug, PartialEq, Eq, Structural)]
pub enum StubbedCall {
    VideoRefresh,
    SupportsPixelFormat,
    AudioSample,
    AudioSamples,
    InputPoll,
    InputButtons,
}

impl StubbedCall {
    /// The warning that the call is worth.
    pub open spec fn warning(self) -> Seq<char> {
        match self {
            StubbedCall::VideoRefresh => "WARNING: video_refresh is stubbed"@,
            StubbedCall::SupportsPixelFormat => "WARNING: supports_pixel_format is stubbed"@,
            StubbedCall::AudioSample => "WARNING: audio_sample is stubbed"@,
            StubbedCall::AudioSamples => "WARNING: audio_samples is stubbed"@,
            StubbedCall::InputPoll => "WARNING: input_poll is stubbed"@,
            StubbedCall::InputButtons => "WARNING: input_buttons is stubbed"@,
        }
    }

    /// The warning that the call is worth, for whoever keeps the log.
    pub fn message(self) -> (r: String)
        ensures
            r@ == self.warning(),
    {
        match self {
            StubbedCall::VideoRefresh => String::from_str("WARNING: video_refresh is stubbed"),
            StubbedCall::SupportsPixelFormat => String::from_str(
                "WARNING: supports_pixel_format is stubbed",
            ),
            StubbedCall::AudioSample => String::from_str("WARNING: audio_sample is stubbed"),
            StubbedCall::AudioSamples => String::from_str("WARNING: audio_samples is stubbed"),
            StubbedCall::InputPoll => String::from_str("WARNING: input_poll is stubbed"),
            StubbedCall::InputButtons => String::from_str("WARNING: input_buttons is stubbed"),
        }
    }
}

/// The calls noted after `call` arrived: one more where it reached the
/// stub, the same where a handler took it.
pub open spec fn noted(before: Seq<StubbedCall>, registered: bool, call: StubbedCall) -> Seq<
    StubbedCall,
> {
    if registered {
        before
    } else {
        before.push(call)
    }
}

/// The slot that holds the current handler, with a note of every call that
/// found it empty.
pub struct Bridge {
    handler: Option<Box<dyn Callbacks>>,
    stubbed: Vec<StubbedCall>,
}

/// What the plugin passes along with an environment command.
#[derive(Clone, Copy, Debug, PartialEq, Eq, Structural)]
pub enum Payload {
    /// No data.
    Null,
    /// An unsigned number to read.
    Uint(u32),
    /// A place for a truth value to be written to.
    BoolSlot,
}

/// How the payload of an environment command is to be read.
#[derive(Clone, Copy, Debug, PartialEq, Eq, Structural)]
pub enum PayloadKind {
    /// The payload is not looked at.
    Ignored,
    /// The payload points to an unsigned number.
    Uint,
    /// The payload, unless null, points to where a truth value goes.
    BoolSlot,
}

/// The answer to an environment command.
#[derive(Clone, Copy, Debug, PartialEq, Eq, Structural)]
pub struct Answer {
    /// What the callback returns to the plugin.
    pub result: bool,
    /// The truth value to write to the payload's slot, if any.
    pub write_bool: Option<bool>,
}

/// The answer to a command that the runtime does not serve.
pub open spec fn rejected() -> Answer {
    Answer { result: false, write_bool: None }
}

/// How the payload of the command numbered `command` is to be read.
pub open spec fn payload_kind_of(command: u32) -> PayloadKind {
    if command == EnvironmentCommand::SET_PIXEL_FORMAT.code() {
        PayloadKind::Uint
    } else if command == EnvironmentCommand::GET_CAN_DUPE.code() {
        PayloadKind::BoolSlot
    } else {
        PayloadKind::Ignored
    }
}

/// How the payload of the command numbered `command` is to be read.
pub fn payload_kind(command: u32) -> (r: PayloadKind)
    ensures
        r == payload_kind_of(command),
{
    match EnvironmentCommand::from_repr(command) {
        Some(EnvironmentCommand::SET_PIXEL_FORMAT) => PayloadKind::Uint,
        Some(EnvironmentCommand::GET_CAN_DUPE) => PayloadKind::BoolSlot,
        _ => PayloadKind::Ignored,
    }
}

/// The pixel format that an environment command asks for: the command is
/// `SET_PIXEL_FORMAT`, its payload a number, and the number names a format.
pub open spec fn requested_format(command: u32, payload: Payload) -> Option<PixelFormat> {
    if command == EnvironmentCommand::SET_PIXEL_FORMAT.code() {
        match payload {
            Payload::Uint(value) => PixelFormat::spec_from_uint(value),
            _ => None,
        }
    } else {
        None
    }
}

/// Settles a request for a pixel format once the handler has said whether
/// it supports the format: a supported format becomes the format of the
/// state at once, an unsupported one changes nothing. Returns `supported`.
pub fn adopt_pixel_format(state: &mut State, pixel_format: PixelFormat, supported: bool) -> (r:
    bool)
    ensures
        r == supported,
        final(state)@ == if supported {
            StateView { pixel_format, ..old(state)@ }
        } else {
            old(state)@
        },
{
    if supported {
        state.pixel_format = pixel_format;
    }
    supported
}

/// The answer to `GET_CAN_DUPE` once the handler has said whether it
/// accepts repeated frames: the command succeeds, and the handler's word is
/// written where the payload has room for it.
pub fn answer_can_dupe(payload: Payload, can_dupe: bool) -> (r: Answer)
    ensures
        r == (Answer {
            result: true,
            write_bool: if payload == Payload::BoolSlot {
                Some(can_dupe)
            } else {
                None
            },
        }),
{
    match payload {
        Payload::BoolSlot => Answer { result: true, write_bool: Some(can_dupe) },
        _ => Answer { result: true, write_bool: None },
    }
}

/// Whether the button that the plugin interface numbers `id` is among
/// `held`.
pub open spec fn button_held(held: Set<Button>, id: u32) -> bool {
    exists|button: Button| #[trigger] button.device_id() == id && held.contains(button)
}

/// The state of the button that the plugin interface numbers `id`: 1 where
/// it is among `held`, 0 where it is not or where `id` numbers no button.
pub fn button_state(held: &ButtonSet, id: u32) -> (r: i16)
    ensures
        r == if button_held(held@, id) {
            1i16
        } else {
            0i16
        },
{
    match Button::from_raw_retro_joypad_device_id(id) {
        Some(button) => {
            if held.contains(button) {
                1
            } else {
                assert forall|other: Button| other.device_id() == id implies other == button by {}
                0
            }
        },
        None => 0,
    }
}

/// What an environment command may come to, whatever the handler says.
///
/// A request for a pixel format that no number names, or that comes without
/// a number, is rejected and changes nothing. One for a format that exists
/// either succeeds, and then the format is the state's format from now on,
/// or fails, and then the state is as before; without a registered handler
/// it fails. `GET_CAN_DUPE` succeeds, writes a truth value exactly where
/// the payload has room, and changes nothing. Every other command, and
/// every number that is no command, is rejected and changes nothing.
pub open spec fn environment_outcome(
    command: u32,
    payload: Payload,
    registered: bool,
    before: StateView,
    answer: Answer,
    after: StateView,
) -> bool {
    if command == EnvironmentCommand::SET_PIXEL_FORMAT.code() {
        match requested_format(command, payload) {
            Some(pixel_format) => {
                &&& answer.write_bool is None
                &&& answer.result ==> registered && after == StateView { pixel_format, ..before }
                &&& !answer.result ==> after == before
            },
            None => answer == rejected() && after == before,
        }
    } else if command == EnvironmentCommand::GET_CAN_DUPE.code() {
        &&& answer.result
        &&& answer.write_bool is Some <==> payload == Payload::BoolSlot
        &&& !registered ==> answer.write_bool != Some(true)
        &&& after == before
    } else {
        answer == rejected() && after == before
    }
}

impl Bridge {
    /// The handler that the slot holds, if it holds one. Where it holds
    /// none, the stub answers.
    pub closed spec fn slot(&self) -> Option<Box<dyn Callbacks>> {
        self.handler
    }

    /// Whether a handler is registered: whether the slot is filled.
    pub open spec fn is_registered(&self) -> bool {
        self.slot() is Some
    }

    /// The calls that reached the stub and were not yet taken off the
    /// bridge, oldest first.
    pub closed spec fn stubbed(&self) -> Seq<StubbedCall> {
        self.stubbed@
    }

    /// The bridge with no handler registered and no call noted.
    pub fn new() -> (r: Bridge)
        ensures
            !r.is_registered(),
            r.stubbed() == Seq::<StubbedCall>::empty(),
    {
        Bridge { handler: None, stubbed: Vec::new() }
    }

    /// Whether a handler is registered.
    pub fn has_handler(&self) -> (r: bool)
        ensures
            r == self.is_registered(),
    {
        self.handler.is_some()
    }

    /// Takes the notes of the calls that reached the stub off the bridge,
    /// oldest first, so that a warning can be logged for each.
    pub fn take_stubbed(&mut self) -> (r: Vec<StubbedCall>)
        ensures
            r@ == old(self).stubbed(),
            final(self).stubbed() == Seq::<StubbedCall>::empty(),
            final(self).is_registered() == old(self).is_registered(),
    {
        let mut taken: Vec<StubbedCall> = Vec::new();
        std::mem::swap(&mut self.stubbed, &mut taken);
        taken
    }

    /// Hands a frame to the handler: the frame that the plugin's call
    /// delivers, in the pixel format that the state holds. Without a
    /// handler the call is noted as stubbed.
    pub fn video_refresh(
        &mut self,
        state: &State,
        data: Option<&[u8]>,
        width: u32,
        height: u32,
        pitch: usize,
    )
        ensures
            final(self).is_registered() == old(self).is_registered(),
            final(self).stubbed() == noted(
                old(self).stubbed(),
                old(self).is_registered(),
                StubbedCall::VideoRefresh,
            ),
    {
        match &mut self.handler {
            Some(handler) => {
                let frame = Frame::from_raw(data, width, height, pitch, state.pixel_format);
                handler.video_refresh(frame);
            },
            None => {
                self.stubbed.push(StubbedCall::VideoRefresh);
            },
        }
    }

    /// Hands one stereo sample to the handler. Without a handler the call
    /// is noted as stubbed.
    pub fn audio_sample(&mut self, left: i16, right: i16)
        ensures
            final(self).is_registered() == old(self).is_registered(),
            final(self).stubbed() == noted(
                old(self).stubbed(),
                old(self).is_registered(),
                StubbedCall::AudioSample,
            ),
    {
        match &mut self.handler {
            Some(handler) => {
                handler.audio_sample(left, right);
            },
            None => {
                self.stubbed.push(StubbedCall::AudioSample);
            },
        }
    }

    /// Hands interleaved stereo samples to the handler and returns the
    /// number of frames, pairs of samples, that were taken: all of them.
    /// Without a handler the call is noted as stubbed.
    pub fn audio_sample_batch(&mut self, samples: &[i16]) -> (r: usize)
        ensures
            r == samples@.len() / 2,
            final(self).is_registered() == old(self).is_registered(),
            final(self).stubbed() == noted(
                old(self).stubbed(),
                old(self).is_registered(),
                StubbedCall::AudioSamples,
            ),
    {
        match &mut self.handler {
            Some(handler) => {
                handler.audio_samples(samples);
            },
            None => {
                self.stubbed.push(StubbedCall::AudioSamples);
            },
        }
        samples.len() / 2
    }

    /// Tells the handler that the plugin is about to ask for input. Without
    /// a handler the call is noted as stubbed.
    pub fn input_poll(&mut self)
        ensures
            final(self).is_registered() == old(self).is_registered(),
            final(self).stubbed() == noted(
                old(self).stubbed(),
                old(self).is_registered(),
                StubbedCall::InputPoll,
            ),
    {
        match &mut self.handler {
            Some(handler) => {
                handler.input_poll();
            },
            None => {
                self.stubbed.push(StubbedCall::InputPoll);
            },
        }
    }

    /// The state of the button that the plugin interface numbers `id`, on
    /// the joypad in `port`: 1 where the handler reports it held, else 0.
    /// Without a handler no button is held, and the call is noted as
    /// stubbed.
    pub fn input_state(&mut self, port: u32, device: u32, index: u32, id: u32) -> (r: i16)
        ensures
            r == 0 || r == 1,
            !old(self).is_registered() ==> r == 0,
            (forall|button: Button| #[trigger] button.device_id() != id) ==> r == 0,
            final(self).is_registered() == old(self).is_registered(),
            final(self).stubbed() == noted(
                old(self).stubbed(),
                old(self).is_registered(),
                StubbedCall::InputButtons,
            ),
    {
        match &self.handler {
            Some(handler) => {
                let held = handler.input_buttons(port);
                button_state(&held, id)
            },
            None => {
                self.stubbed.push(StubbedCall::InputButtons);
                0
            },
        }
    }

    /// Serves an environment command of the plugin.
    pub fn environment(&mut self, state: &mut State, command: u32, payload: Payload) -> (r: Answer)
        ensures
            final(self).is_registered() == old(self).is_registered(),
            final(self).stubbed() == if requested_format(command, payload) is Some {
                noted(
                    old(self).stubbed(),
                    old(self).is_registered(),
                    StubbedCall::SupportsPixelFormat,
                )
            } else {
                old(self).stubbed()
            },
            environment_outcome(
                command,
                payload,
                old(self).is_registered(),
                old(state)@,
                r,
                final(state)@,
            ),
    {
        let known = match EnvironmentCommand::from_repr(command) {
            Some(known) => known,
            None => {
                return Answer { result: false, write_bool: None };
            },
        };
        match known {
            EnvironmentCommand::SET_PIXEL_FORMAT => {
                let value = match payload {
                    Payload::Uint(value) => value,
                    _ => {
                        return Answer { result: false, write_bool: None };
                    },
                };
                let pixel_format = match PixelFormat::from_uint(value) {
                    Some(pixel_format) => pixel_format,
                    None => {
                        return Answer { result: false, write_bool: None };
                    },
                };
                let supported = match &mut self.handler {
                    Some(handler) => handler.supports_pixel_format(pixel_format),
                    None => {
                        self.stubbed.push(StubbedCall::SupportsPixelFormat);
                        false
                    },
                };
                let result = adopt_pixel_format(state, pixel_format, supported);
                Answer { result, write_bool: None }
            },
            EnvironmentCommand::GET_CAN_DUPE => {
                let can_dupe = match &mut self.handler {
                    Some(handler) => handler.can_dupe_frames(),
                    None => false,
                };
                answer_can_dupe(payload, can_dupe)
            },
            _ => Answer { result: false, write_bool: None },
        }
    }
}

/// Makes `callbacks` the handler that the bridge dispatches to, in place of
/// the one before: the slot holds `callbacks` from now on.
pub fn register(bridge: &mut Bridge, callbacks: Box<dyn Callbacks>)
    ensures
        final(bridge).slot() == Some(callbacks),
        final(bridge).stubbed() == old(bridge).stubbed(),
{
    let filled = Some(callbacks);
    bridge.handler = filled;
}

/// Empties the slot, which puts the stub in the handler's place: a call
/// that arrives after the plugin is gone reaches nothing, and is noted.
pub fn drop(bridge: &mut Bridge)
    ensures
        final(bridge).slot() is None,
        final(bridge).stubbed() == old(bridge).stubbed(),
{
    bridge.handler = None;
}

} // verus!

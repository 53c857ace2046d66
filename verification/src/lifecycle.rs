//! The life of a plugin instance, from the request to load it to the moment
//! nothing of it is left.
//!
//! The calls into the plugin are made by whoever owns the native library.
//! What is decided here is their order, and what each answer leads to:
//! after every `Event` the lifecycle names the one `Action` that comes
//! next.

use vstd::prelude::*;
use crate::callbacks::Bridge;
use crate::runtime::EXPECTED_LIB_RETRO_VERSION;
use crate::state::{State, StateView};

verus! {

/// Why a plugin could not be loaded.
#[derive(Clone, Copy, Debug, PartialEq, Eq, Structural)]
pub enum LoadError {
    /// The thread already hosts a plugin.
    AlreadyLoaded,
    /// The native library could not be opened.
    LibraryOpenFailed,
    /// The native library lacks an entry point of the plugin interface.
    SymbolMissing,
    /// The plugin speaks another version of the interface.
    VersionMismatch { found: u32 },
    /// The plugin rejected the content, or the content could not be read.
    ContentLoadFailed,
    /// An event arrived that the step before did not ask for.
    OutOfOrder,
}

/// Why the native library could not be used.
#[derive(Clone, Copy, Debug, PartialEq, Eq, Structural)]
pub enum OpenFault {
    LibraryOpenFailed,
    SymbolMissing,
}

/// Where an instance is in its life.
#[derive(Clone, Copy, Debug, PartialEq, Eq, Structural)]
pub enum Stage {
    /// No plugin is loaded.
    Unloaded,
    /// The native library is being opened and its entry points resolved.
    Opening,
    /// The plugin is being asked for its interface version.
    CheckingVersion,
    /// The callbacks are being handed to the plugin.
    Registering,
    /// The plugin is initialising.
    Initializing,
    /// The plugin is loading the content.
    LoadingGame,
    /// The caller's body runs against the loaded plugin.
    Running,
    /// The plugin is unloading the content.
    UnloadingGame,
    /// The plugin is shutting down; `failed` where it does so because it
    /// rejected the content.
    Deinitializing { failed: bool },
}

/// What happened outside.
#[derive(Clone, Copy, Debug, PartialEq, Eq, Structural)]
pub enum Event {
    /// A plugin is to be loaded.
    Load,
    /// The native library was opened and every entry point resolved.
    Opened,
    /// The native library could not be used.
    OpenFailed(OpenFault),
    /// The plugin reported its interface version.
    Version(u32),
    /// The step asked for was carried out.
    Completed,
    /// The plugin accepted or rejected the content.
    GameLoaded(bool),
    /// The caller's body returned, or was abandoned.
    BodyFinished,
}

/// What to do next.
#[derive(Clone, Copy, Debug, PartialEq, Eq, Structural)]
pub enum Action {
    OpenLibrary,
    QueryVersion,
    RegisterCallbacks,
    Init,
    LoadGame,
    RunBody,
    UnloadGame,
    Deinit,
    /// Nothing more: the instance has come and gone.
    Finished,
    /// Nothing more: the load failed, or the event was refused, for this
    /// reason.
    Failed(LoadError),
}

/// Whether the plugin has been told to initialise and not yet to shut down.
pub open spec fn owes_deinit(stage: Stage) -> bool {
    stage == Stage::Initializing || stage == Stage::LoadingGame || stage == Stage::Running
        || stage == Stage::UnloadingGame
}

/// Whether a plugin instance exists in this stage, so that a second one
/// must not be loaded.
pub open spec fn occupied(stage: Stage) -> bool {
    stage != Stage::Unloaded
}

/// The stage and the action that an event leads to.
pub open spec fn transition(stage: Stage, event: Event) -> (Stage, Action) {
    match (stage, event) {
        (Stage::Unloaded, Event::Load) => (Stage::Opening, Action::OpenLibrary),
        (Stage::Opening, Event::Opened) => (Stage::CheckingVersion, Action::QueryVersion),
        (Stage::Opening, Event::OpenFailed(fault)) => (
            Stage::Unloaded,
            Action::Failed(
                match fault {
                    OpenFault::LibraryOpenFailed => LoadError::LibraryOpenFailed,
                    OpenFault::SymbolMissing => LoadError::SymbolMissing,
                },
            ),
        ),
        (Stage::CheckingVersion, Event::Version(found)) => if found
            == EXPECTED_LIB_RETRO_VERSION {
            (Stage::Registering, Action::RegisterCallbacks)
        } else {
            (Stage::Unloaded, Action::Failed(LoadError::VersionMismatch { found }))
        },
        (Stage::Registering, Event::Completed) => (Stage::Initializing, Action::Init),
        (Stage::Initializing, Event::Completed) => (Stage::LoadingGame, Action::LoadGame),
        (Stage::LoadingGame, Event::GameLoaded(true)) => (Stage::Running, Action::RunBody),
        (Stage::LoadingGame, Event::GameLoaded(false)) => (
            Stage::Deinitializing { failed: true },
            Action::Deinit,
        ),
        (Stage::Running, Event::BodyFinished) => (Stage::UnloadingGame, Action::UnloadGame),
        (Stage::UnloadingGame, Event::Completed) => (
            Stage::Deinitializing { failed: false },
            Action::Deinit,
        ),
        (Stage::Deinitializing { failed }, Event::Completed) => (
            Stage::Unloaded,
            if failed {
                Action::Failed(LoadError::ContentLoadFailed)
            } else {
                Action::Finished
            },
        ),
        (Stage::Unloaded, _) => (Stage::Unloaded, Action::Failed(LoadError::OutOfOrder)),
        (_, Event::Load) => (stage, Action::Failed(LoadError::AlreadyLoaded)),
        _ => (stage, Action::Failed(LoadError::OutOfOrder)),
    }
}

/// The state of the owning thread once the transition is made: marked
/// loaded while an instance exists, and fresh once it is gone.
pub open spec fn state_after(stage: Stage, event: Event, state: StateView) -> StateView {
    let next = transition(stage, event).0;
    if !occupied(next) {
        if occupied(stage) {
            StateView::fresh()
        } else {
            state
        }
    } else {
        StateView { is_core_loaded: true, ..state }
    }
}

/// Checks the interface version that a plugin reports against the one this
/// runtime speaks.
pub fn check_api_version_match(api_version: u32) -> (r: Result<(), LoadError>)
    ensures
        r == if api_version == EXPECTED_LIB_RETRO_VERSION {
            Ok::<(), LoadError>(())
        } else {
            Err::<(), LoadError>(LoadError::VersionMismatch { found: api_version })
        },
{
    if api_version != EXPECTED_LIB_RETRO_VERSION {
        return Err(LoadError::VersionMismatch { found: api_version });
    }
    Ok(())
}

/// The lifecycle of the one plugin instance that a thread may host.
#[derive(Debug)]
pub struct Lifecycle {
    stage: Stage,
}

impl Lifecycle {
    /// The stage that the instance is in.
    pub closed spec fn spec_stage(&self) -> Stage {
        self.stage
    }

    /// The lifecycle of a thread that hosts no plugin.
    pub fn new() -> (r: Lifecycle)
        ensures
            r.spec_stage() == Stage::Unloaded,
    {
        Lifecycle { stage: Stage::Unloaded }
    }

    /// The stage that the instance is in.
    pub fn stage(&self) -> (r: Stage)
        ensures
            r == self.spec_stage(),
    {
        self.stage
    }

    /// Takes note of `event` and names what to do next.
    ///
    /// While an instance exists the state is marked as loaded. When the
    /// instance is gone, by whatever way, the bridge dispatches to the stub
    /// again and the state is fresh.
    pub fn advance(&mut self, state: &mut State, bridge: &mut Bridge, event: Event) -> (r: Action)
        ensures
            (final(self).spec_stage(), r) == transition(old(self).spec_stage(), event),
            final(state)@ == state_after(old(self).spec_stage(), event, old(state)@),
            occupied(old(self).spec_stage()) && !occupied(final(self).spec_stage())
                ==> !final(bridge).is_registered(),
            occupied(final(self).spec_stage()) || !occupied(old(self).spec_stage())
                ==> final(bridge).is_registered() == old(bridge).is_registered(),
            final(bridge).stubbed() == old(bridge).stubbed(),
    {
        let before = self.stage;
        let (next, action) = match (before, event) {
            (Stage::Unloaded, Event::Load) => (Stage::Opening, Action::OpenLibrary),
            (Stage::Opening, Event::Opened) => (Stage::CheckingVersion, Action::QueryVersion),
            (Stage::Opening, Event::OpenFailed(OpenFault::LibraryOpenFailed)) => (
                Stage::Unloaded,
                Action::Failed(LoadError::LibraryOpenFailed),
            ),
            (Stage::Opening, Event::OpenFailed(OpenFault::SymbolMissing)) => (
                Stage::Unloaded,
                Action::Failed(LoadError::SymbolMissing),
            ),
            (Stage::CheckingVersion, Event::Version(found)) => match check_api_version_match(
                found,
            ) {
                Ok(()) => (Stage::Registering, Action::RegisterCallbacks),
                Err(error) => (Stage::Unloaded, Action::Failed(error)),
            },
            (Stage::Registering, Event::Completed) => (Stage::Initializing, Action::Init),
            (Stage::Initializing, Event::Completed) => (Stage::LoadingGame, Action::LoadGame),
            (Stage::LoadingGame, Event::GameLoaded(true)) => (Stage::Running, Action::RunBody),
            (Stage::LoadingGame, Event::GameLoaded(false)) => (
                Stage::Deinitializing { failed: true },
                Action::Deinit,
            ),
            (Stage::Running, Event::BodyFinished) => (Stage::UnloadingGame, Action::UnloadGame),
            (Stage::UnloadingGame, Event::Completed) => (
                Stage::Deinitializing { failed: false },
                Action::Deinit,
            ),
            (Stage::Deinitializing { failed: true }, Event::Completed) => (
                Stage::Unloaded,
                Action::Failed(LoadError::ContentLoadFailed),
            ),
            (Stage::Deinitializing { failed: false }, Event::Completed) => (
                Stage::Unloaded,
                Action::Finished,
            ),
            (Stage::Unloaded, _) => (
                Stage::Unloaded,
                Action::Failed(LoadError::OutOfOrder),
            ),
            (_, Event::Load) => (before, Action::Failed(LoadError::AlreadyLoaded)),
            _ => (before, Action::Failed(LoadError::OutOfOrder)),
        };
        self.stage = next;
        let gone = match next {
            Stage::Unloaded => true,
            _ => false,
        };
        let was_gone = match before {
            Stage::Unloaded => true,
            _ => false,
        };
        if gone {
            if !was_gone {
                crate::callbacks::drop(bridge);
                *state = State::new();
            }
        } else {
            state.is_core_loaded = true;
        }
        action
    }
}

/// The plugin is told to shut down exactly when it was told to initialise:
/// `Init` leaves a shutdown owed, nothing but `Deinit` settles it, and the
/// life of an instance never finishes while a shutdown is owed.
pub proof fn lemma_init_and_deinit_pair(stage: Stage, event: Event)
    ensures
        ({
            let (next, action) = transition(stage, event);
            &&& action == Action::Init ==> !owes_deinit(stage) && owes_deinit(next)
            &&& action == Action::Deinit ==> owes_deinit(stage) && !owes_deinit(next)
            &&& action != Action::Init && action != Action::Deinit ==> owes_deinit(next)
                == owes_deinit(stage)
            &&& !occupied(next) ==> !owes_deinit(next)
            &&& owes_deinit(stage) && action is Failed ==> next == stage
            &&& action == Action::Finished ==> stage == (Stage::Deinitializing { failed: false })
        }),
{
}

/// A second load, while an instance exists, is refused and disturbs
/// nothing.
pub proof fn lemma_one_instance(stage: Stage)
    requires
        occupied(stage),
    ensures
        transition(stage, Event::Load) == (stage, Action::Failed(LoadError::AlreadyLoaded)),
{
}

/// Content that the plugin rejects is answered by a shutdown, and only
/// then by the error.
pub proof fn lemma_rejected_content_shuts_down()
    ensures
        transition(Stage::LoadingGame, Event::GameLoaded(false)) == (
            Stage::Deinitializing { failed: true },
            Action::Deinit,
        ),
        transition(Stage::Deinitializing { failed: true }, Event::Completed) == (
            Stage::Unloaded,
            Action::Failed(LoadError::ContentLoadFailed),
        ),
{
}

/// Why a saved state could not be made or taken back.
#[derive(Clone, Copy, Debug, PartialEq, Eq, Structural)]
pub enum StateError {
    /// The plugin reported a size and then refused to serialize.
    SerializationFailed,
    /// The plugin rejected the buffer.
    RestoreFailed,
}

/// Settles a serialization once the plugin has answered: the buffer where
/// it succeeded, the error where it did not.
pub fn serialized(buffer: Vec<u8>, success: bool) -> (r: Result<Vec<u8>, StateError>)
    ensures
        match r {
            Ok(state) => success && state == buffer,
            Err(error) => !success && error == StateError::SerializationFailed,
        },
{
    if !success {
        return Err(StateError::SerializationFailed);
    }
    Ok(buffer)
}

/// Settles a restore once the plugin has answered.
pub fn restored(success: bool) -> (r: Result<(), StateError>)
    ensures
        r == if success {
            Ok::<(), StateError>(())
        } else {
            Err::<(), StateError>(StateError::RestoreFailed)
        },
{
    if !success {
        return Err(StateError::RestoreFailed);
    }
    Ok(())
}

/// The save memory after `data` is restored into it: as many leading bytes
/// of `data` as fit take the place of the bytes there; the rest stays.
pub open spec fn save_ram_after(save_ram: Seq<u8>, data: Seq<u8>) -> Seq<u8> {
    Seq::new(
        save_ram.len(),
        |i: int|
            if i < data.len() {
                data[i]
            } else {
                save_ram[i]
            },
    )
}

/// Restores `data` into the save memory.
pub fn restore_save_ram(save_ram: &mut Vec<u8>, data: &[u8])
    ensures
        final(save_ram)@ == save_ram_after(old(save_ram)@, data@),
{
    let len = if save_ram.len() <= data.len() { save_ram.len() } else { data.len() };
    let mut i: usize = 0;
    while i < len
        invariant
            i <= len,
            len <= data@.len(),
            len <= save_ram@.len(),
            save_ram@.len() == old(save_ram)@.len(),
            forall|k: int| 0 <= k < i ==> save_ram@[k] == data@[k],
            forall|k: int| i <= k < save_ram@.len() ==> save_ram@[k] == old(save_ram)@[k],
        decreases len - i,
    {
        save_ram[i] = data[i];
        i += 1;
    }
    assert(save_ram@ =~= save_ram_after(old(save_ram)@, data@));
}

} // verus!

//! Loading an extension: reading the declared version from the module, and
//! the protocol that takes a module from bytes to a bound extension.
//!
//! The protocol is a state machine. The embedding program performs the
//! action of the current state (read the file, compile the bytes,
//! instantiate the component) and reports how it went; the machine decides
//! what follows. Its steps, each a distinct point of failure, are: read the
//! bytes, read the declared version, compile, select the adapter,
//! instantiate.

use vstd::prelude::*;
use crate::adapter::{adapter_for, Adapter};
use crate::extension::WasmExtension;
use crate::semver::{parse_version, SemanticVersion};

verus! {

/// Why a load attempt ended without an extension.
#[derive(Debug, Clone, Copy, PartialEq, Eq, Structural)]
pub enum LoadError {
    /// The module bytes could not be read.
    Io,
    /// The module declares no version, or one that is malformed.
    Metadata,
    /// The bytes are not a valid module.
    Compile,
    /// The declared version lies below every supported threshold.
    UnsupportedVersion(SemanticVersion),
    /// The module lacks what the selected interface requires.
    Instantiation,
}

/// Where a load attempt stands.
#[derive(Debug, Clone, Copy, PartialEq, Eq, Structural)]
pub enum LoadState {
    /// Waiting for the module bytes.
    Reading,
    /// The declared version is known; waiting for the bytes to compile.
    Compiling { version: SemanticVersion },
    /// The adapter is selected; waiting for the instance.
    Instantiating { version: SemanticVersion, adapter: Adapter },
    /// The extension is ready.
    Loaded { version: SemanticVersion, adapter: Adapter },
    /// The attempt is over, with the error.
    Failed(LoadError),
}

/// What the embedding program is to do in a state.
#[derive(Debug, Clone, Copy, PartialEq, Eq, Structural)]
pub enum LoadAction {
    /// Read the module file fully into memory.
    ReadFile,
    /// Compile the bytes against the engine.
    Compile,
    /// Build a fresh execution context with the host capabilities linked,
    /// and instantiate the component against the interface of the adapter.
    Instantiate(Adapter),
    /// Nothing: the attempt is over.
    Stop,
}

/// How an action went.
#[derive(Debug, Clone, PartialEq, Eq)]
pub enum LoadEvent {
    /// The file was read; these are its bytes.
    ReadDone(Vec<u8>),
    /// The file could not be read.
    ReadFailed,
    /// The bytes compiled.
    CompileDone,
    /// The bytes are no valid module.
    CompileFailed,
    /// The component was instantiated with every capability linked.
    InstantiateDone,
    /// A capability could not be linked, or the component lacks an export
    /// of the interface.
    InstantiateFailed,
}

/// The text of the version that a module binary declares in its metadata,
/// or `None` where the binary cannot be read for metadata or declares no
/// version.
pub uninterp spec fn declared_version(bytes: Seq<u8>) -> Option<Seq<char>>;

/// Calls `wasm_metadata::Payload::from_binary` and hands back the text of
/// the `version` field of the outermost metadata. The contract only names
/// the outcome: it is `declared_version` of the bytes, `None` standing for
/// a parse error as well as for a missing version.
#[verifier::external_body]
fn read_declared_version(bytes: &[u8]) -> (r: Option<String>)
    ensures
        r.deep_view() == declared_version(bytes@),
{
    match wasm_metadata::Payload::from_binary(bytes) {
        Ok(payload) => match &payload.metadata().version {
            Some(version) => Some(version.to_string()),
            None => None,
        },
        Err(_) => None,
    }
}

/// The version that a module declares: the declared text, read as a
/// version.
pub open spec fn version_of(bytes: Seq<u8>) -> Option<SemanticVersion> {
    match declared_version(bytes) {
        Some(text) => parse_version(text),
        None => None,
    }
}

/// The version for a declared text: `Metadata` when the text is missing or
/// is no version.
pub fn version_from_declared(declared: &Option<String>) -> (r: Result<
    SemanticVersion,
    LoadError,
>)
    ensures
        r == match declared.deep_view() {
            Some(text) => match parse_version(text) {
                Some(version) => Ok::<SemanticVersion, LoadError>(version),
                None => Err(LoadError::Metadata),
            },
            None => Err(LoadError::Metadata),
        },
{
    match declared {
        Some(text) => match SemanticVersion::parse(text.as_str()) {
            Some(version) => Ok(version),
            None => Err(LoadError::Metadata),
        },
        None => Err(LoadError::Metadata),
    }
}

/// Reads the declared version of a module from its bytes.
pub fn get_extension_version(bytes: &[u8]) -> (r: Result<SemanticVersion, LoadError>)
    ensures
        r == match version_of(bytes@) {
            Some(version) => Ok::<SemanticVersion, LoadError>(version),
            None => Err(LoadError::Metadata),
        },
{
    let declared = read_declared_version(bytes);
    version_from_declared(&declared)
}

/// The state that follows `state` on `event`. An event that does not
/// answer the action of the state changes nothing.
pub open spec fn next_state(state: LoadState, event: LoadEvent) -> LoadState {
    match state {
        LoadState::Reading => match event {
            LoadEvent::ReadFailed => LoadState::Failed(LoadError::Io),
            LoadEvent::ReadDone(bytes) => match version_of(bytes@) {
                Some(version) => LoadState::Compiling { version },
                None => LoadState::Failed(LoadError::Metadata),
            },
            _ => state,
        },
        LoadState::Compiling { version } => match event {
            LoadEvent::CompileFailed => LoadState::Failed(LoadError::Compile),
            LoadEvent::CompileDone => match adapter_for(version) {
                Some(adapter) => LoadState::Instantiating { version, adapter },
                None => LoadState::Failed(LoadError::UnsupportedVersion(version)),
            },
            _ => state,
        },
        LoadState::Instantiating { version, adapter } => match event {
            LoadEvent::InstantiateFailed => LoadState::Failed(LoadError::Instantiation),
            LoadEvent::InstantiateDone => LoadState::Loaded { version, adapter },
            _ => state,
        },
        LoadState::Loaded { .. } => state,
        LoadState::Failed(_) => state,
    }
}

/// The state after a sequence of events, taken in order.
pub open spec fn state_after(state: LoadState, events: Seq<LoadEvent>) -> LoadState
    decreases events.len(),
{
    if events.len() == 0 {
        state
    } else {
        next_state(state_after(state, events.drop_last()), events.last())
    }
}

impl LoadState {
    /// A state is consistent when the adapter it holds is the one its
    /// version selects.
    pub open spec fn consistent(self) -> bool {
        match self {
            LoadState::Instantiating { version, adapter } => adapter_for(version) == Some(
                adapter,
            ),
            LoadState::Loaded { version, adapter } => adapter_for(version) == Some(adapter),
            _ => true,
        }
    }

    /// What the embedding program is to do in a state.
    pub open spec fn spec_action(self) -> LoadAction {
        match self {
            LoadState::Reading => LoadAction::ReadFile,
            LoadState::Compiling { .. } => LoadAction::Compile,
            LoadState::Instantiating { adapter, .. } => LoadAction::Instantiate(adapter),
            LoadState::Loaded { .. } => LoadAction::Stop,
            LoadState::Failed(_) => LoadAction::Stop,
        }
    }

    /// The state in which every load attempt begins.
    pub fn begin() -> (state: LoadState)
        ensures
            state == LoadState::Reading,
    {
        LoadState::Reading
    }

    /// What the embedding program is to do now.
    pub fn action(&self) -> (action: LoadAction)
        ensures
            action == self.spec_action(),
    {
        match self {
            LoadState::Reading => LoadAction::ReadFile,
            LoadState::Compiling { .. } => LoadAction::Compile,
            LoadState::Instantiating { adapter, .. } => LoadAction::Instantiate(*adapter),
            LoadState::Loaded { .. } => LoadAction::Stop,
            LoadState::Failed(_) => LoadAction::Stop,
        }
    }

    /// Takes the report of an action and moves on.
    pub fn step(&self, event: &LoadEvent) -> (next: LoadState)
        ensures
            next == next_state(*self, *event),
    {
        match self {
            LoadState::Reading => match event {
                LoadEvent::ReadFailed => LoadState::Failed(LoadError::Io),
                LoadEvent::ReadDone(bytes) => match get_extension_version(bytes.as_slice()) {
                    Ok(version) => LoadState::Compiling { version },
                    Err(e) => LoadState::Failed(e),
                },
                _ => *self,
            },
            LoadState::Compiling { version } => match event {
                LoadEvent::CompileFailed => LoadState::Failed(LoadError::Compile),
                LoadEvent::CompileDone => match Adapter::for_version(version) {
                    Some(adapter) => LoadState::Instantiating { version: *version, adapter },
                    None => LoadState::Failed(LoadError::UnsupportedVersion(*version)),
                },
                _ => *self,
            },
            LoadState::Instantiating { version, adapter } => match event {
                LoadEvent::InstantiateFailed => LoadState::Failed(LoadError::Instantiation),
                LoadEvent::InstantiateDone => LoadState::Loaded {
                    version: *version,
                    adapter: *adapter,
                },
                _ => *self,
            },
            LoadState::Loaded { .. } => *self,
            LoadState::Failed(_) => *self,
        }
    }

    /// The outcome of the attempt: the extension once loaded, the error
    /// once failed, and nothing while the attempt is under way. A state
    /// that claims to be loaded with an adapter that its version does not
    /// select counts as unsupported.
    pub fn outcome(&self) -> (r: Option<Result<WasmExtension, LoadError>>)
        ensures
            match *self {
                LoadState::Loaded { version, adapter } => if adapter_for(version) == Some(
                    adapter,
                ) {
                    r matches Some(Ok(extension)) && extension.spec_version() == version
                        && extension.spec_adapter() == adapter
                } else {
                    r == Some(
                        Err::<WasmExtension, LoadError>(LoadError::UnsupportedVersion(version)),
                    )
                },
                LoadState::Failed(error) => r == Some(Err::<WasmExtension, LoadError>(error)),
                _ => r is None,
            },
    {
        match self {
            LoadState::Loaded { version, adapter } => match WasmExtension::bind(*version) {
                Some(extension) => {
                    if extension.adapter() == *adapter {
                        Some(Ok(extension))
                    } else {
                        Some(Err(LoadError::UnsupportedVersion(*version)))
                    }
                },
                None => Some(Err(LoadError::UnsupportedVersion(*version))),
            },
            LoadState::Failed(error) => Some(Err(*error)),
            _ => None,
        }
    }
}

/// How the outside world answers a load attempt: the bytes of the module
/// file if it can be read, whether the bytes compile, and whether the
/// component instantiates.
pub struct LoadWorld {
    pub file: Option<Vec<u8>>,
    pub compiles: bool,
    pub instantiates: bool,
}

/// The report of an action in a given world.
pub open spec fn report(action: LoadAction, world: LoadWorld) -> LoadEvent {
    match action {
        LoadAction::ReadFile => match world.file {
            Some(bytes) => LoadEvent::ReadDone(bytes),
            None => LoadEvent::ReadFailed,
        },
        LoadAction::Compile => if world.compiles {
            LoadEvent::CompileDone
        } else {
            LoadEvent::CompileFailed
        },
        LoadAction::Instantiate(_) => if world.instantiates {
            LoadEvent::InstantiateDone
        } else {
            LoadEvent::InstantiateFailed
        },
        LoadAction::Stop => LoadEvent::ReadFailed,
    }
}

/// The state reached from `state` when, `rounds` times over, the action of
/// the state is performed and reported.
pub open spec fn driven(state: LoadState, world: LoadWorld, rounds: nat) -> LoadState
    decreases rounds,
{
    if rounds == 0 {
        state
    } else {
        driven(next_state(state, report(state.spec_action(), world)), world, (rounds - 1) as nat)
    }
}

/// How a load attempt ends in a given world: with the first failure in the
/// order read, declared version, compile, adapter, instantiate; loaded when
/// nothing fails.
pub open spec fn load_result(world: LoadWorld) -> LoadState {
    match world.file {
        None => LoadState::Failed(LoadError::Io),
        Some(bytes) => match version_of(bytes@) {
            None => LoadState::Failed(LoadError::Metadata),
            Some(version) => if !world.compiles {
                LoadState::Failed(LoadError::Compile)
            } else {
                match adapter_for(version) {
                    None => LoadState::Failed(LoadError::UnsupportedVersion(version)),
                    Some(adapter) => if !world.instantiates {
                        LoadState::Failed(LoadError::Instantiation)
                    } else {
                        LoadState::Loaded { version, adapter }
                    },
                }
            },
        },
    }
}

/// A load attempt whose actions are performed and reported ends within
/// three rounds, in the state that the order of the failure points
/// prescribes, and stays there.
pub proof fn lemma_load_ends(world: LoadWorld, rounds: nat)
    requires
        rounds >= 3,
    ensures
        driven(LoadState::Reading, world, rounds) == load_result(world),
        load_result(world).spec_action() == LoadAction::Stop,
{
    let first = next_state(LoadState::Reading, report(LoadAction::ReadFile, world));
    let second = next_state(first, report(first.spec_action(), world));
    let third = next_state(second, report(second.spec_action(), world));
    assert(third == load_result(world));
    reveal_with_fuel(driven, 4);
    assert(driven(LoadState::Reading, world, rounds) == driven(third, world, (rounds - 3) as nat));
    lemma_ended_stays_driven(third, world, (rounds - 3) as nat);
}

/// Once an attempt is over, no event changes its state.
pub proof fn lemma_ended_stays(state: LoadState, event: LoadEvent)
    requires
        state.spec_action() == LoadAction::Stop,
    ensures
        next_state(state, event) == state,
{
}

/// Once an attempt is over, driving it further changes nothing.
pub proof fn lemma_ended_stays_driven(state: LoadState, world: LoadWorld, rounds: nat)
    requires
        state.spec_action() == LoadAction::Stop,
    ensures
        driven(state, world, rounds) == state,
    decreases rounds,
{
    if rounds > 0 {
        lemma_ended_stays_driven(state, world, (rounds - 1) as nat);
    }
}

/// No step binds an adapter other than the one the declared version
/// selects.
pub proof fn lemma_step_keeps_consistency(state: LoadState, event: LoadEvent)
    requires
        state.consistent(),
    ensures
        next_state(state, event).consistent(),
{
}

/// Whatever events arrive, in whatever order, the state of an attempt
/// holds no adapter other than the one the declared version selects.
pub proof fn lemma_every_run_is_consistent(events: Seq<LoadEvent>)
    ensures
        state_after(LoadState::Reading, events).consistent(),
    decreases events.len(),
{
    if events.len() > 0 {
        lemma_every_run_is_consistent(events.drop_last());
        lemma_step_keeps_consistency(
            state_after(LoadState::Reading, events.drop_last()),
            events.last(),
        );
    }
}

/// A module that can be read, declares a version at or above the lowest
/// threshold, compiles and instantiates is loaded, bound to the adapter
/// that its version selects. A module that declares `0.0.1` is bound to
/// the baseline adapter.
pub proof fn lemma_supported_module_loads(world: LoadWorld, version: SemanticVersion)
    requires
        world.file matches Some(bytes) && version_of(bytes@) == Some(version),
        world.compiles,
        world.instantiates,
        Adapter::V001.spec_min_version().spec_le(version),
    ensures
        load_result(world) matches LoadState::Loaded { version: v, adapter } && v == version
            && adapter_for(version) == Some(adapter),
        version == (SemanticVersion { major: 0, minor: 0, patch: 1 }) ==> load_result(world) == (
        LoadState::Loaded { version, adapter: Adapter::V001 }),
        driven(LoadState::Reading, world, 3) == load_result(world),
{
    lemma_load_ends(world, 3);
}

/// A module that declares a version below the lowest threshold is never
/// instantiated and never loaded: whatever events follow the reading of
/// its bytes, the attempt is still waiting for them to compile or has
/// failed, so it never asks for an instance; and once the bytes compile it
/// has failed as unsupported.
pub proof fn lemma_unsupported_version_never_loads(
    bytes: Vec<u8>,
    version: SemanticVersion,
    events: Seq<LoadEvent>,
)
    requires
        version_of(bytes@) == Some(version),
        !Adapter::V001.spec_min_version().spec_le(version),
    ensures
        state_after(LoadState::Compiling { version }, events) == (LoadState::Compiling {
            version,
        }) || state_after(LoadState::Compiling { version }, events) is Failed,
        state_after(LoadState::Compiling { version }, events).spec_action()
            != LoadAction::Instantiate(Adapter::V001),
        next_state(LoadState::Reading, LoadEvent::ReadDone(bytes)) == (LoadState::Compiling {
            version,
        }),
        next_state(LoadState::Compiling { version }, LoadEvent::CompileDone) == LoadState::Failed(
            LoadError::UnsupportedVersion(version),
        ),
        load_result(world_of(bytes)) == LoadState::Failed(
            LoadError::UnsupportedVersion(version),
        ),
    decreases events.len(),
{
    if events.len() > 0 {
        lemma_unsupported_version_never_loads(bytes, version, events.drop_last());
    }
}

/// The world in which a module with the given bytes is read, compiles and
/// instantiates.
pub open spec fn world_of(bytes: Vec<u8>) -> LoadWorld {
    LoadWorld { file: Some(bytes), compiles: true, instantiates: true }
}

} // verus!

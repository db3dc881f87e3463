//! The launch sequence of a pseudo-console session.
//!
//! Launching alternates host calls with decisions. The decisions live here,
//! as a step function from the current state and the outcome of the last
//! host call to the next state and the next host call to make:
//!
//! resolve the entry points, create the two pipe pairs, create the console,
//! probe the attribute-list size, fill the attribute list, bind the console
//! to it, spawn the child process, and hand out the session.
//!
//! When the entry points cannot be resolved the launch ends with no session
//! and no host resource touched; any other failure is fatal.
use vstd::prelude::*;

use crate::capability::ConptyApi;
use crate::geometry::{coord_from_sizeinfo, coord_of, Coord, SizeInfo};
use crate::session::Conpty;

verus! {

/// The status a console entry point returns on success.
pub const S_OK: i32 = 0;

/// The launch step at which a fatal failure occurred.
#[derive(Clone, Copy, Debug, PartialEq, Eq, Structural)]
pub enum LaunchStage {
    Pipes,
    Geometry,
    Session,
    AttributeProbe,
    AttributeFill,
    AttributeBind,
    Spawn,
}

/// Where a launch stands.
#[derive(Clone, Copy, Debug, PartialEq, Eq, Structural)]
pub enum LaunchState {
    ResolvingCapability { size: SizeInfo },
    CreatingPipes { size: SizeInfo, api: ConptyApi },
    CreatingSession { api: ConptyApi, geometry: Coord },
    ProbingAttributes { api: ConptyApi, geometry: Coord, handle: usize },
    FillingAttributes { api: ConptyApi, geometry: Coord, handle: usize },
    BindingSession { api: ConptyApi, geometry: Coord, handle: usize },
    SpawningProcess { api: ConptyApi, geometry: Coord, handle: usize },
    /// The session was handed out.
    Ready,
    /// The host has no pseudo-console support; another backend may be tried.
    Unavailable,
    /// A step failed; the launch cannot go on.
    Failed { stage: LaunchStage },
}

/// The outcome of the host call that the previous action asked for.
#[derive(Clone, Copy, Debug, PartialEq, Eq, Structural)]
pub enum LaunchEvent {
    CapabilityResolved { api: Option<ConptyApi> },
    PipesCreated { succeeded: bool },
    /// The status returned by the create entry point and the console handle
    /// it wrote.
    SessionCreated { status: i32, handle: usize },
    /// Whether the size probe of the attribute list reported success, and
    /// the byte size it wrote.
    AttributeSizeProbed { succeeded: bool, size: usize },
    AttributesFilled { succeeded: bool },
    SessionBound { succeeded: bool },
    ProcessSpawned { succeeded: bool },
}

/// The host call to make next, or how the launch ended.
#[derive(Debug, PartialEq, Eq, Structural)]
pub enum LaunchAction {
    ResolveCapability,
    /// Create the input and the output pipe pairs.
    CreatePipes,
    /// Call the create entry point at `entry` with geometry `size` and the
    /// child's ends of both pipes.
    CreateSession { entry: usize, size: Coord },
    /// Initialise an attribute list with no buffer, to learn its byte size.
    ProbeAttributeSize,
    /// Initialise an attribute list in a buffer of exactly `size` bytes.
    FillAttributes { size: usize },
    /// Register console `handle` as the list's pseudo-console attribute.
    BindSession { handle: usize },
    /// Create the child process with the attribute list attached.
    SpawnProcess,
    /// The launch succeeded: this is the session.
    Finish { session: Conpty },
    /// No pseudo-console support: report that there is no session.
    ReportNoSession,
    /// The launch failed fatally at `stage`.
    Abort { stage: LaunchStage },
    /// The launch has ended, or the event does not answer the pending call:
    /// nothing is to be done.
    Idle,
}

/// The state and the first action of a launch for an initial terminal size.
pub open spec fn start(size: SizeInfo) -> (LaunchState, LaunchAction) {
    (LaunchState::ResolvingCapability { size }, LaunchAction::ResolveCapability)
}

/// The next state and action of a launch, given the outcome of the last call.
pub open spec fn next(s: LaunchState, e: LaunchEvent) -> (LaunchState, LaunchAction) {
    match (s, e) {
        (
            LaunchState::ResolvingCapability { size },
            LaunchEvent::CapabilityResolved { api },
        ) => match api {
            Some(api) => (LaunchState::CreatingPipes { size, api }, LaunchAction::CreatePipes),
            None => (LaunchState::Unavailable, LaunchAction::ReportNoSession),
        },
        (LaunchState::CreatingPipes { size, api }, LaunchEvent::PipesCreated { succeeded }) => {
            if !succeeded {
                fail(LaunchStage::Pipes)
            } else {
                match coord_of(size) {
                    Some(geometry) => (
                        LaunchState::CreatingSession { api, geometry },
                        LaunchAction::CreateSession { entry: api.create, size: geometry },
                    ),
                    None => fail(LaunchStage::Geometry),
                }
            }
        },
        (
            LaunchState::CreatingSession { api, geometry },
            LaunchEvent::SessionCreated { status, handle },
        ) => if status == S_OK {
            (
                LaunchState::ProbingAttributes { api, geometry, handle },
                LaunchAction::ProbeAttributeSize,
            )
        } else {
            fail(LaunchStage::Session)
        },
        (
            LaunchState::ProbingAttributes { api, geometry, handle },
            LaunchEvent::AttributeSizeProbed { succeeded, size },
        ) => match probed_size(succeeded, size) {
            Some(size) => (
                LaunchState::FillingAttributes { api, geometry, handle },
                LaunchAction::FillAttributes { size },
            ),
            None => fail(LaunchStage::AttributeProbe),
        },
        (
            LaunchState::FillingAttributes { api, geometry, handle },
            LaunchEvent::AttributesFilled { succeeded },
        ) => if succeeded {
            (
                LaunchState::BindingSession { api, geometry, handle },
                LaunchAction::BindSession { handle },
            )
        } else {
            fail(LaunchStage::AttributeFill)
        },
        (
            LaunchState::BindingSession { api, geometry, handle },
            LaunchEvent::SessionBound { succeeded },
        ) => if succeeded {
            (LaunchState::SpawningProcess { api, geometry, handle }, LaunchAction::SpawnProcess)
        } else {
            fail(LaunchStage::AttributeBind)
        },
        (
            LaunchState::SpawningProcess { api, geometry, handle },
            LaunchEvent::ProcessSpawned { succeeded },
        ) => if succeeded {
            (
                LaunchState::Ready,
                LaunchAction::Finish { session: Conpty { handle, api, size: geometry } },
            )
        } else {
            fail(LaunchStage::Spawn)
        },
        _ => (s, LaunchAction::Idle),
    }
}

/// The buffer size learnt from the size probe of an attribute list. The
/// probe is made with no buffer and must report failure while writing the
/// byte size it needs; a probe that succeeds, or writes no size, breaks the
/// protocol.
pub open spec fn probed_size(succeeded: bool, size: usize) -> Option<usize> {
    if !succeeded && size > 0 {
        Some(size)
    } else {
        None
    }
}

/// The failed state and the abort for a stage.
pub open spec fn fail(stage: LaunchStage) -> (LaunchState, LaunchAction) {
    (LaunchState::Failed { stage }, LaunchAction::Abort { stage })
}

/// Whether a launch has ended.
pub open spec fn is_terminal(s: LaunchState) -> bool {
    s is Ready || s is Unavailable || s is Failed
}

/// The actions a launch takes from state `s` on the outcomes `events`.
pub open spec fn run(s: LaunchState, events: Seq<LaunchEvent>) -> Seq<LaunchAction>
    decreases events.len(),
{
    if events.len() == 0 {
        Seq::empty()
    } else {
        seq![next(s, events[0]).1] + run(next(s, events[0]).0, events.drop_first())
    }
}

/// Whether an action calls the host to create a pipe, a console or a process,
/// or to build the attribute list.
pub open spec fn touches_host(a: LaunchAction) -> bool {
    a is CreatePipes || a is CreateSession || a is ProbeAttributeSize || a is FillAttributes
        || a is BindSession || a is SpawnProcess
}

/// Starts a launch for an initial terminal size: the first call to make is
/// the resolution of the console entry points.
pub fn new(size: &SizeInfo) -> (r: (LaunchState, LaunchAction))
    ensures
        r == start(*size),
{
    (LaunchState::ResolvingCapability { size: *size }, LaunchAction::ResolveCapability)
}

/// Advances a launch by the outcome of the call that was last asked for.
pub fn step(state: LaunchState, event: LaunchEvent) -> (r: (LaunchState, LaunchAction))
    ensures
        r == next(state, event),
{
    match (state, event) {
        (
            LaunchState::ResolvingCapability { size },
            LaunchEvent::CapabilityResolved { api },
        ) => match api {
            Some(api) => (LaunchState::CreatingPipes { size, api }, LaunchAction::CreatePipes),
            None => (LaunchState::Unavailable, LaunchAction::ReportNoSession),
        },
        (LaunchState::CreatingPipes { size, api }, LaunchEvent::PipesCreated { succeeded }) => {
            if !succeeded {
                abort(LaunchStage::Pipes)
            } else {
                match coord_from_sizeinfo(&size) {
                    Some(geometry) => (
                        LaunchState::CreatingSession { api, geometry },
                        LaunchAction::CreateSession { entry: api.create, size: geometry },
                    ),
                    None => abort(LaunchStage::Geometry),
                }
            }
        },
        (
            LaunchState::CreatingSession { api, geometry },
            LaunchEvent::SessionCreated { status, handle },
        ) => if status == S_OK {
            (
                LaunchState::ProbingAttributes { api, geometry, handle },
                LaunchAction::ProbeAttributeSize,
            )
        } else {
            abort(LaunchStage::Session)
        },
        (
            LaunchState::ProbingAttributes { api, geometry, handle },
            LaunchEvent::AttributeSizeProbed { succeeded, size },
        ) => match attribute_buffer_size(succeeded, size) {
            Some(size) => (
                LaunchState::FillingAttributes { api, geometry, handle },
                LaunchAction::FillAttributes { size },
            ),
            None => abort(LaunchStage::AttributeProbe),
        },
        (
            LaunchState::FillingAttributes { api, geometry, handle },
            LaunchEvent::AttributesFilled { succeeded },
        ) => if succeeded {
            (
                LaunchState::BindingSession { api, geometry, handle },
                LaunchAction::BindSession { handle },
            )
        } else {
            abort(LaunchStage::AttributeFill)
        },
        (
            LaunchState::BindingSession { api, geometry, handle },
            LaunchEvent::SessionBound { succeeded },
        ) => if succeeded {
            (LaunchState::SpawningProcess { api, geometry, handle }, LaunchAction::SpawnProcess)
        } else {
            abort(LaunchStage::AttributeBind)
        },
        (
            LaunchState::SpawningProcess { api, geometry, handle },
            LaunchEvent::ProcessSpawned { succeeded },
        ) => if succeeded {
            (LaunchState::Ready, LaunchAction::Finish { session: Conpty::new(handle, api, geometry) })
        } else {
            abort(LaunchStage::Spawn)
        },
        _ => (state, LaunchAction::Idle),
    }
}

/// Reads the outcome of an attribute-list size probe: the size of the buffer
/// to allocate, or `None` when the probe broke the protocol.
pub fn attribute_buffer_size(succeeded: bool, size: usize) -> (r: Option<usize>)
    ensures
        r == probed_size(succeeded, size),
        r is Some <==> !succeeded && size > 0,
{
    if !succeeded && size > 0 {
        Some(size)
    } else {
        None
    }
}

fn abort(stage: LaunchStage) -> (r: (LaunchState, LaunchAction))
    ensures
        r == fail(stage),
{
    (LaunchState::Failed { stage }, LaunchAction::Abort { stage })
}

/// The message with which a launch that failed fatally is reported, given
/// the text of the last error the host reported.
pub fn panic_shell_spawn(os_error: &str) -> (r: String)
    ensures
        r@ == "Unable to spawn shell: "@ + os_error@,
{
    let prefix = String::from_str("Unable to spawn shell: ");
    prefix.concat(os_error)
}

/// Once a launch has ended, further outcomes change nothing and ask for
/// nothing.
pub proof fn lemma_terminal_absorbs(s: LaunchState, events: Seq<LaunchEvent>)
    requires
        is_terminal(s),
    ensures
        forall|i: int| 0 <= i < run(s, events).len() ==> run(s, events)[i] == LaunchAction::Idle,
        run(s, events).len() == events.len(),
    decreases events.len(),
{
    if events.len() > 0 {
        lemma_terminal_absorbs(s, events.drop_first());
    }
}

/// When the entry points cannot be resolved, the launch reports that there
/// is no session and never creates a pipe, a console or a process, whatever
/// outcomes follow.
pub proof fn lemma_unavailable_short_circuits(size: SizeInfo, events: Seq<LaunchEvent>)
    ensures
        ({
            let first = next(start(size).0, LaunchEvent::CapabilityResolved { api: None });
            &&& first == (LaunchState::Unavailable, LaunchAction::ReportNoSession)
            &&& forall|i: int|
                0 <= i < run(first.0, events).len() ==> !touches_host(#[trigger] run(first.0, events)[i])
        }),
{
    lemma_terminal_absorbs(LaunchState::Unavailable, events);
}

/// A size probe that reports success is fatal: the launch aborts at the
/// probe and makes no further host call, so no process is created.
pub proof fn lemma_probe_success_is_fatal(
    api: ConptyApi,
    geometry: Coord,
    handle: usize,
    size: usize,
    events: Seq<LaunchEvent>,
)
    ensures
        ({
            let s = LaunchState::ProbingAttributes { api, geometry, handle };
            let after = next(s, LaunchEvent::AttributeSizeProbed { succeeded: true, size });
            &&& after == fail(LaunchStage::AttributeProbe)
            &&& forall|i: int|
                0 <= i < run(after.0, events).len() ==> !touches_host(#[trigger] run(after.0, events)[i])
        }),
{
    lemma_terminal_absorbs(LaunchState::Failed { stage: LaunchStage::AttributeProbe }, events);
}

} // verus!

//! The mathematical model of the client: the capability registry, the
//! surface-negotiation phases, and the frame pacer, as one step
//! function from state and server event to next state and the ordered
//! actions the client must send. The executable handlers in
//! `app_state` are proved to follow this model exactly.

use vstd::prelude::*;

verus! {

/// The two capability kinds this client binds, plus everything else,
/// which is ignored.
#[derive(Clone, Copy, Debug, PartialEq, Eq, Structural)]
pub enum GlobalKind {
    SurfaceFactory,
    BackgroundLayer,
    Other,
}

/// The negotiation phase of the one background surface.
#[derive(Clone, Copy, Debug, PartialEq, Eq, Structural)]
pub enum Phase {
    /// No surface requested yet.
    Created,
    /// Surface and layer surface requested; first configure awaited.
    LayerRequested,
    /// First configure acknowledged; the engine exists and renders.
    Configured,
    /// The server closed the surface; terminal.
    Closed,
}

/// A server event, as the dispatch loop hands it to the model.
#[derive(Clone, Copy, Debug, PartialEq, Eq, Structural)]
pub enum Event {
    GlobalAnnounced { name: u32, kind: GlobalKind, version: u32 },
    GlobalWithdrawn { name: u32 },
    Configure { serial: u32, width: u32, height: u32 },
    SurfaceClosed,
    /// The one-shot frame-completion notification fired.
    FrameDone,
}

/// The parameters of the background-layer surface request.
#[derive(Clone, Copy, Debug, PartialEq, Eq, Structural)]
pub struct LayerConfig {
    pub anchor_top: bool,
    pub anchor_bottom: bool,
    pub anchor_left: bool,
    pub anchor_right: bool,
    /// -1 means "none": reserve no screen space, push nothing aside.
    pub exclusive_zone: i32,
    /// 0 in either dimension lets the server decide.
    pub width: u32,
    pub height: u32,
}

/// A request the client must send, or a local effect it must perform,
/// in the order returned.
#[derive(Clone, Copy, Debug, PartialEq, Eq, Structural)]
pub enum Action {
    /// Bind the announced surface-factory capability.
    BindSurfaceFactory { name: u32, version: u32 },
    /// Bind the announced background-layer capability.
    BindBackgroundLayer { name: u32, version: u32 },
    /// Request a drawable surface from the surface factory.
    CreateSurface,
    /// Request a background-layer surface wrapping the drawable.
    RequestLayerSurface { config: LayerConfig },
    /// Echo a configure event's serial back to the server.
    AckConfigure { serial: u32 },
    /// Construct the render engine at this size.
    CreateEngine { width: u32, height: u32 },
    /// Propagate a new size to the engine; never recreates it.
    Resize { width: u32, height: u32 },
    /// Render one frame at the current size.
    Render,
    /// Request one one-shot frame-completion notification.
    RequestFrame,
    /// Commit the drawable surface, publishing pending state.
    CommitSurface,
}

/// The abstract client state.
#[derive(Clone, Copy, Debug, PartialEq, Eq, Structural)]
pub struct ModelState {
    pub phase: Phase,
    /// Numeric name of the bound surface-factory capability, if any.
    pub surface_factory: Option<u32>,
    /// Numeric name of the bound background-layer capability, if any.
    pub background_layer: Option<u32>,
    /// Whether the render engine has been constructed.
    pub engine_exists: bool,
    /// Whether one frame-completion request is outstanding.
    pub frame_pending: bool,
    pub width: u32,
    pub height: u32,
}

/// Substituted when a first configure leaves a dimension to the
/// client: the surface needs some concrete non-zero size before the
/// server assigns one.
pub const FALLBACK_WIDTH: u32 = 640;

/// See `FALLBACK_WIDTH`.
pub const FALLBACK_HEIGHT: u32 = 480;

pub open spec fn init_state() -> ModelState {
    ModelState {
        phase: Phase::Created,
        surface_factory: None,
        background_layer: None,
        engine_exists: false,
        frame_pending: false,
        width: 0,
        height: 0,
    }
}

pub open spec fn both_capabilities_bound(s: ModelState) -> bool {
    s.surface_factory is Some && s.background_layer is Some
}

/// The layer surface is requested at the background layer, anchored to
/// all four output edges, with no exclusive zone and the size left to
/// the server.
pub open spec fn background_layer_config() -> LayerConfig {
    LayerConfig {
        anchor_top: true,
        anchor_bottom: true,
        anchor_left: true,
        anchor_right: true,
        exclusive_zone: -1i32,
        width: 0,
        height: 0,
    }
}

/// A global announcement binds the capability exactly when its kind is
/// required and that kind's slot is empty; any other announcement is
/// ignored.
pub open spec fn step_global_announced(
    s: ModelState,
    name: u32,
    kind: GlobalKind,
    version: u32,
) -> (ModelState, Seq<Action>) {
    match kind {
        GlobalKind::SurfaceFactory => if s.surface_factory is None {
            (
                ModelState { surface_factory: Some(name), ..s },
                seq![Action::BindSurfaceFactory { name, version }],
            )
        } else {
            (s, Seq::<Action>::empty())
        },
        GlobalKind::BackgroundLayer => if s.background_layer is None {
            (
                ModelState { background_layer: Some(name), ..s },
                seq![Action::BindBackgroundLayer { name, version }],
            )
        } else {
            (s, Seq::<Action>::empty())
        },
        GlobalKind::Other => (s, Seq::<Action>::empty()),
    }
}

/// A withdrawal clears whichever capability slot holds that numeric
/// name; the slot stays empty until the server announces a successor.
pub open spec fn step_global_withdrawn(s: ModelState, name: u32) -> (ModelState, Seq<Action>) {
    let cleared_factory = if s.surface_factory == Some(name) {
        ModelState { surface_factory: None, ..s }
    } else {
        s
    };
    let cleared = if cleared_factory.background_layer == Some(name) {
        ModelState { background_layer: None, ..cleared_factory }
    } else {
        cleared_factory
    };
    (cleared, Seq::<Action>::empty())
}

/// Negotiation proceeds only from `Created` and only once both
/// required capabilities are bound: the drawable surface is requested,
/// then the background-layer surface wrapping it, then the initial
/// commit that publishes this state. Otherwise nothing happens.
pub open spec fn step_start_negotiation(s: ModelState) -> (ModelState, Seq<Action>) {
    if s.phase is Created && both_capabilities_bound(s) {
        (
            ModelState { phase: Phase::LayerRequested, ..s },
            seq![
                Action::CreateSurface,
                Action::RequestLayerSurface { config: background_layer_config() },
                Action::CommitSurface,
            ],
        )
    } else {
        (s, Seq::<Action>::empty())
    }
}

/// Every configure is acknowledged first, by echoing its serial. The
/// first one (phase `LayerRequested`) then constructs the engine,
/// renders the first frame, arms the frame pacer and commits; later
/// ones (phase `Configured`) only propagate the size. A zero dimension
/// defers to the client: the previous size is kept, or the fallback
/// size on the first configure.
pub open spec fn step_configure(s: ModelState, serial: u32, width: u32, height: u32) -> (
    ModelState,
    Seq<Action>,
) {
    match s.phase {
        Phase::LayerRequested => {
            let w = if width == 0 { FALLBACK_WIDTH } else { width };
            let h = if height == 0 { FALLBACK_HEIGHT } else { height };
            (
                ModelState {
                    phase: Phase::Configured,
                    engine_exists: true,
                    frame_pending: true,
                    width: w,
                    height: h,
                    ..s
                },
                seq![
                    Action::AckConfigure { serial },
                    Action::CreateEngine { width: w, height: h },
                    Action::Render,
                    Action::RequestFrame,
                    Action::CommitSurface,
                ],
            )
        },
        Phase::Configured => {
            let w = if width == 0 { s.width } else { width };
            let h = if height == 0 { s.height } else { height };
            (
                ModelState { width: w, height: h, ..s },
                seq![Action::AckConfigure { serial }, Action::Resize { width: w, height: h }],
            )
        },
        Phase::Created => (s, seq![Action::AckConfigure { serial }]),
        Phase::Closed => (s, seq![Action::AckConfigure { serial }]),
    }
}

/// The closed event is terminal: the dispatch loop must stop. No
/// request is sent in reply.
pub open spec fn step_surface_closed(s: ModelState) -> (ModelState, Seq<Action>) {
    (ModelState { phase: Phase::Closed, ..s }, Seq::<Action>::empty())
}

/// A frame-completion notification re-renders and re-arms exactly when
/// a request was outstanding, the engine exists and the surface is
/// still configured; any other tick is skipped silently (a benign
/// event-ordering race, not an error). In every case the outstanding
/// request it answered is no longer outstanding unless a new one is
/// issued here.
pub open spec fn step_frame_done(s: ModelState) -> (ModelState, Seq<Action>) {
    if s.frame_pending && s.engine_exists && s.phase is Configured {
        (s, seq![Action::Render, Action::RequestFrame, Action::CommitSurface])
    } else {
        (ModelState { frame_pending: false, ..s }, Seq::<Action>::empty())
    }
}

/// One step of the machine: the next state and the actions the client
/// must perform, in order.
pub open spec fn step(s: ModelState, event: Event) -> (ModelState, Seq<Action>) {
    match event {
        Event::GlobalAnnounced { name, kind, version } => step_global_announced(
            s,
            name,
            kind,
            version,
        ),
        Event::GlobalWithdrawn { name } => step_global_withdrawn(s, name),
        Event::Configure { serial, width, height } => step_configure(s, serial, width, height),
        Event::SurfaceClosed => step_surface_closed(s),
        Event::FrameDone => step_frame_done(s),
    }
}

/// The machine run over a whole event sequence: the final state and
/// the concatenated action trace.
pub open spec fn run_events(s: ModelState, events: Seq<Event>) -> (ModelState, Seq<Action>)
    decreases events.len(),
{
    if events.len() == 0 {
        (s, Seq::<Action>::empty())
    } else {
        let first = step(s, events[0]);
        let rest = run_events(first.0, events.drop_first());
        (rest.0, first.1 + rest.1)
    }
}

/// The structural invariant every reachable state satisfies: before
/// the first configure there is no engine and no outstanding frame
/// request, a configured surface has an engine, an outstanding request
/// implies the engine exists, and an engine always has a non-zero
/// size.
pub open spec fn state_inv(s: ModelState) -> bool {
    &&& (s.phase is Created || s.phase is LayerRequested) ==> !s.engine_exists && !s.frame_pending
    &&& s.phase is Configured ==> s.engine_exists
    &&& s.frame_pending ==> s.engine_exists
    &&& s.engine_exists ==> s.width > 0 && s.height > 0
}

} // verus!

//! The executable client state and its event handlers. Each handler is
//! proved to compute exactly the step of the model in `model`: the new
//! state and the ordered actions the caller must perform against the
//! display server and the engine.

use crate::model::{
    Action, Event, GlobalKind, ModelState, Phase, background_layer_config,
    both_capabilities_bound, init_state, step, step_configure, step_frame_done,
    step_global_announced, step_global_withdrawn, step_start_negotiation, step_surface_closed,
};
use vstd::prelude::*;

verus! {

/// The client state: negotiation phase, bound capability names, engine
/// and frame-pacer flags, current surface size, and the two shader
/// sources handed over at construction (immutable thereafter).
pub struct AppState {
    pub phase: Phase,
    pub surface_factory: Option<u32>,
    pub background_layer: Option<u32>,
    pub engine_exists: bool,
    pub frame_pending: bool,
    pub width: u32,
    pub height: u32,
    pub vertex_shader: String,
    pub fragment_shader: String,
}

impl View for AppState {
    type V = ModelState;

    open spec fn view(&self) -> ModelState {
        ModelState {
            phase: self.phase,
            surface_factory: self.surface_factory,
            background_layer: self.background_layer,
            engine_exists: self.engine_exists,
            frame_pending: self.frame_pending,
            width: self.width,
            height: self.height,
        }
    }
}

/// The shader sources of this state are those given at construction.
pub open spec fn shaders_unchanged(pre: &AppState, post: &AppState) -> bool {
    post.vertex_shader == pre.vertex_shader && post.fragment_shader == pre.fragment_shader
}

impl AppState {
    /// A fresh client: nothing bound, nothing requested, nothing
    /// outstanding.
    pub fn new(vertex_shader: String, fragment_shader: String) -> (s: AppState)
        ensures
            s@ == init_state(),
            s.vertex_shader == vertex_shader,
            s.fragment_shader == fragment_shader,
    {
        AppState {
            phase: Phase::Created,
            surface_factory: None,
            background_layer: None,
            engine_exists: false,
            frame_pending: false,
            width: 0,
            height: 0,
            vertex_shader,
            fragment_shader,
        }
    }

    /// The dispatch loop keeps running until the server closes the
    /// surface.
    pub fn is_running(&self) -> (r: bool)
        ensures
            r == !(self@.phase is Closed),
    {
        match self.phase {
            Phase::Closed => false,
            _ => true,
        }
    }

    /// Whether both required capabilities are currently bound.
    pub fn ready_to_negotiate(&self) -> (r: bool)
        ensures
            r == both_capabilities_bound(self@),
    {
        self.surface_factory.is_some() && self.background_layer.is_some()
    }

    /// A capability announcement: binds the object exactly when its
    /// kind is required and not already bound.
    pub fn on_global_announced(&mut self, name: u32, kind: GlobalKind, version: u32) -> (acts: Vec<
        Action,
    >)
        ensures
            final(self)@ == step_global_announced(old(self)@, name, kind, version).0,
            acts@ == step_global_announced(old(self)@, name, kind, version).1,
            shaders_unchanged(old(self), final(self)),
    {
        let mut acts: Vec<Action> = Vec::new();
        match kind {
            GlobalKind::SurfaceFactory => {
                if self.surface_factory.is_none() {
                    self.surface_factory = Some(name);
                    acts.push(Action::BindSurfaceFactory { name, version });
                }
            },
            GlobalKind::BackgroundLayer => {
                if self.background_layer.is_none() {
                    self.background_layer = Some(name);
                    acts.push(Action::BindBackgroundLayer { name, version });
                }
            },
            GlobalKind::Other => {},
        }
        proof {
            assert(acts@ =~= step_global_announced(old(self)@, name, kind, version).1);
        }
        acts
    }

    /// A capability withdrawal: clears whichever slot holds that
    /// numeric name. No request is sent.
    pub fn on_global_withdrawn(&mut self, name: u32) -> (acts: Vec<Action>)
        ensures
            final(self)@ == step_global_withdrawn(old(self)@, name).0,
            acts@ == step_global_withdrawn(old(self)@, name).1,
            shaders_unchanged(old(self), final(self)),
    {
        let factory_matches = match self.surface_factory {
            Some(bound) => bound == name,
            None => false,
        };
        if factory_matches {
            self.surface_factory = None;
        }
        let layer_matches = match self.background_layer {
            Some(bound) => bound == name,
            None => false,
        };
        if layer_matches {
            self.background_layer = None;
        }
        let acts: Vec<Action> = Vec::new();
        proof {
            assert(acts@ =~= step_global_withdrawn(old(self)@, name).1);
        }
        acts
    }

    /// Attempts to start surface negotiation: proceeds exactly when
    /// nothing was requested yet and both capabilities are bound, in
    /// which case the drawable surface, the background-layer surface
    /// and the initial commit are requested, in that order.
    pub fn start_negotiation(&mut self) -> (acts: Vec<Action>)
        ensures
            final(self)@ == step_start_negotiation(old(self)@).0,
            acts@ == step_start_negotiation(old(self)@).1,
            shaders_unchanged(old(self), final(self)),
    {
        let mut acts: Vec<Action> = Vec::new();
        let in_created = match self.phase {
            Phase::Created => true,
            _ => false,
        };
        if in_created && self.surface_factory.is_some() && self.background_layer.is_some() {
            self.phase = Phase::LayerRequested;
            acts.push(Action::CreateSurface);
            acts.push(Action::RequestLayerSurface { config: background_layer_config_exec() });
            acts.push(Action::CommitSurface);
        }
        proof {
            assert(acts@ =~= step_start_negotiation(old(self)@).1);
        }
        acts
    }

    /// A configure event: acknowledged first in every phase; the first
    /// one constructs the engine, renders, arms the pacer and commits;
    /// later ones propagate the (possibly substituted) size.
    pub fn on_configure(&mut self, serial: u32, width: u32, height: u32) -> (acts: Vec<Action>)
        ensures
            final(self)@ == step_configure(old(self)@, serial, width, height).0,
            acts@ == step_configure(old(self)@, serial, width, height).1,
            shaders_unchanged(old(self), final(self)),
    {
        let mut acts: Vec<Action> = Vec::new();
        acts.push(Action::AckConfigure { serial });
        match self.phase {
            Phase::LayerRequested => {
                let w = if width == 0 {
                    crate::model::FALLBACK_WIDTH
                } else {
                    width
                };
                let h = if height == 0 {
                    crate::model::FALLBACK_HEIGHT
                } else {
                    height
                };
                self.phase = Phase::Configured;
                self.engine_exists = true;
                self.frame_pending = true;
                self.width = w;
                self.height = h;
                acts.push(Action::CreateEngine { width: w, height: h });
                acts.push(Action::Render);
                acts.push(Action::RequestFrame);
                acts.push(Action::CommitSurface);
            },
            Phase::Configured => {
                let w = if width == 0 {
                    self.width
                } else {
                    width
                };
                let h = if height == 0 {
                    self.height
                } else {
                    height
                };
                self.width = w;
                self.height = h;
                acts.push(Action::Resize { width: w, height: h });
            },
            Phase::Created => {},
            Phase::Closed => {},
        }
        proof {
            assert(acts@ =~= step_configure(old(self)@, serial, width, height).1);
        }
        acts
    }

    /// The closed event: terminal. The loop must stop; teardown is the
    /// caller's next step.
    pub fn on_surface_closed(&mut self) -> (acts: Vec<Action>)
        ensures
            final(self)@ == step_surface_closed(old(self)@).0,
            acts@ == step_surface_closed(old(self)@).1,
            shaders_unchanged(old(self), final(self)),
    {
        self.phase = Phase::Closed;
        let acts: Vec<Action> = Vec::new();
        proof {
            assert(acts@ =~= step_surface_closed(old(self)@).1);
        }
        acts
    }

    /// A frame-completion notification: re-renders and re-arms exactly
    /// when a request was outstanding and the surface is still
    /// configured with its engine; otherwise the tick is skipped.
    pub fn on_frame_done(&mut self) -> (acts: Vec<Action>)
        ensures
            final(self)@ == step_frame_done(old(self)@).0,
            acts@ == step_frame_done(old(self)@).1,
            shaders_unchanged(old(self), final(self)),
    {
        let mut acts: Vec<Action> = Vec::new();
        let configured = match self.phase {
            Phase::Configured => true,
            _ => false,
        };
        if self.frame_pending && self.engine_exists && configured {
            acts.push(Action::Render);
            acts.push(Action::RequestFrame);
            acts.push(Action::CommitSurface);
        } else {
            self.frame_pending = false;
        }
        proof {
            assert(acts@ =~= step_frame_done(old(self)@).1);
        }
        acts
    }

    /// One dispatch step: exactly the model's `step` on this event.
    pub fn handle_event(&mut self, event: Event) -> (acts: Vec<Action>)
        ensures
            final(self)@ == step(old(self)@, event).0,
            acts@ == step(old(self)@, event).1,
            shaders_unchanged(old(self), final(self)),
    {
        match event {
            Event::GlobalAnnounced { name, kind, version } => self.on_global_announced(
                name,
                kind,
                version,
            ),
            Event::GlobalWithdrawn { name } => self.on_global_withdrawn(name),
            Event::Configure { serial, width, height } => self.on_configure(serial, width, height),
            Event::SurfaceClosed => self.on_surface_closed(),
            Event::FrameDone => self.on_frame_done(),
        }
    }
}

/// Exec mirror of `background_layer_config`: the request parameters
/// for the background-layer surface.
pub fn background_layer_config_exec() -> (c: crate::model::LayerConfig)
    ensures
        c == background_layer_config(),
{
    crate::model::LayerConfig {
        anchor_top: true,
        anchor_bottom: true,
        anchor_left: true,
        anchor_right: true,
        exclusive_zone: -1,
        width: 0,
        height: 0,
    }
}

/// Maps a server-announced interface identifier to the capability kind
/// this client distinguishes.
pub open spec fn spec_kind_of_interface(s: Seq<char>) -> GlobalKind {
    if s == "wl_compositor"@ {
        GlobalKind::SurfaceFactory
    } else if s == "zwlr_layer_shell_v1"@ {
        GlobalKind::BackgroundLayer
    } else {
        GlobalKind::Other
    }
}

/// Exec mirror of `spec_kind_of_interface`.
pub fn kind_of_interface(interface: &String) -> (k: GlobalKind)
    ensures
        k == spec_kind_of_interface(interface@),
{
    let surface_factory_id = String::from_str("wl_compositor");
    let background_layer_id = String::from_str("zwlr_layer_shell_v1");
    if *interface == surface_factory_id {
        GlobalKind::SurfaceFactory
    } else if *interface == background_layer_id {
        GlobalKind::BackgroundLayer
    } else {
        GlobalKind::Other
    }
}

} // verus!

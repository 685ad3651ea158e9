use wayggle_bg::app_state::AppState;
use wayggle_bg::graphics::{GlCommand, Graphics, TeardownStep};
use wayggle_bg::model::{Action, Event, GlobalKind, LayerConfig, Phase};

fn fresh() -> AppState {
    AppState::new(String::from("vertex"), String::from("fragment"))
}

#[test]
fn layer_surface_is_requested_anchored_to_all_edges_with_no_exclusive_zone() {
    let mut st = fresh();
    st.on_global_announced(1, GlobalKind::SurfaceFactory, 4);
    st.on_global_announced(2, GlobalKind::BackgroundLayer, 1);
    let acts = st.start_negotiation();
    assert_eq!(
        acts,
        vec![
            Action::CreateSurface,
            Action::RequestLayerSurface {
                config: LayerConfig {
                    anchor_top: true,
                    anchor_bottom: true,
                    anchor_left: true,
                    anchor_right: true,
                    exclusive_zone: -1,
                    width: 0,
                    height: 0,
                },
            },
            Action::CommitSurface,
        ]
    );
    assert_eq!(st.phase, Phase::LayerRequested);
}

#[test]
fn configure_is_acknowledged_before_any_render() {
    let mut st = fresh();
    st.on_global_announced(1, GlobalKind::SurfaceFactory, 4);
    st.on_global_announced(2, GlobalKind::BackgroundLayer, 1);
    st.start_negotiation();
    let acts = st.on_configure(7, 1920, 1080);
    let ack_at = acts
        .iter()
        .position(|a| *a == Action::AckConfigure { serial: 7 })
        .unwrap();
    let render_at = acts.iter().position(|a| *a == Action::Render).unwrap();
    assert!(ack_at < render_at);
    assert_eq!(ack_at, 0);
}

#[test]
fn end_to_end_announce_configure_render_close() {
    let mut st = fresh();
    assert_eq!(
        st.handle_event(Event::GlobalAnnounced {
            name: 1,
            kind: GlobalKind::SurfaceFactory,
            version: 4,
        }),
        vec![Action::BindSurfaceFactory { name: 1, version: 4 }]
    );
    assert_eq!(
        st.handle_event(Event::GlobalAnnounced {
            name: 2,
            kind: GlobalKind::BackgroundLayer,
            version: 1,
        }),
        vec![Action::BindBackgroundLayer { name: 2, version: 1 }]
    );
    // The initial roundtrip has delivered all announcements; negotiate.
    assert!(st.ready_to_negotiate());
    let acts = st.start_negotiation();
    assert!(matches!(acts[1], Action::RequestLayerSurface { config }
        if config.exclusive_zone == -1
            && config.anchor_top && config.anchor_bottom
            && config.anchor_left && config.anchor_right));

    // First configure: ack before render, engine at the given size.
    let acts = st.handle_event(Event::Configure {
        serial: 7,
        width: 1920,
        height: 1080,
    });
    assert_eq!(
        acts,
        vec![
            Action::AckConfigure { serial: 7 },
            Action::CreateEngine {
                width: 1920,
                height: 1080,
            },
            Action::Render,
            Action::RequestFrame,
            Action::CommitSurface,
        ]
    );

    // The engine renders with the negotiated viewport.
    let engine = Graphics::new(1920, 1080, true, true);
    let cmds = engine.render(0);
    assert_eq!(
        cmds[1],
        GlCommand::Viewport {
            width: 1920,
            height: 1080,
        }
    );

    // The notification fires at t = 0.016 s: render again, same viewport.
    let acts = st.handle_event(Event::FrameDone);
    assert_eq!(
        acts,
        vec![Action::Render, Action::RequestFrame, Action::CommitSurface]
    );
    let cmds = engine.render(16);
    assert_eq!(
        cmds[1],
        GlCommand::Viewport {
            width: 1920,
            height: 1080,
        }
    );

    // Closed: the loop exits and teardown runs in the fixed order.
    let acts = st.handle_event(Event::SurfaceClosed);
    assert_eq!(acts, vec![]);
    assert!(!st.is_running());
    assert_eq!(
        engine.teardown_plan(),
        vec![
            TeardownStep::UnbindContext,
            TeardownStep::DeleteProgram,
            TeardownStep::DeleteBuffer,
            TeardownStep::DestroyTarget,
            TeardownStep::DestroyContext,
            TeardownStep::TerminateDisplay,
        ]
    );
}

#[test]
fn mid_session_configure_resizes_without_recreating_the_engine() {
    let mut st = fresh();
    st.on_global_announced(1, GlobalKind::SurfaceFactory, 4);
    st.on_global_announced(2, GlobalKind::BackgroundLayer, 1);
    st.start_negotiation();
    st.on_configure(7, 1920, 1080);
    let mut engine = Graphics::new(1920, 1080, true, true);

    let acts = st.on_configure(8, 2560, 1440);
    assert_eq!(
        acts,
        vec![
            Action::AckConfigure { serial: 8 },
            Action::Resize {
                width: 2560,
                height: 1440,
            },
        ]
    );
    // No engine construction happens on a later configure.
    assert!(acts
        .iter()
        .all(|a| !matches!(a, Action::CreateEngine { .. })));

    let uniforms_before = (engine.has_time_uniform, engine.has_resolution_uniform);
    engine.resize(2560, 1440);
    assert_eq!(
        (engine.has_time_uniform, engine.has_resolution_uniform),
        uniforms_before
    );
    let cmds = engine.render(100);
    assert_eq!(
        cmds[1],
        GlCommand::Viewport {
            width: 2560,
            height: 1440,
        }
    );
}

#[test]
fn zero_size_first_configure_substitutes_a_concrete_size() {
    let mut st = fresh();
    st.on_global_announced(1, GlobalKind::SurfaceFactory, 4);
    st.on_global_announced(2, GlobalKind::BackgroundLayer, 1);
    st.start_negotiation();
    let acts = st.on_configure(3, 0, 0);
    assert_eq!(acts[0], Action::AckConfigure { serial: 3 });
    assert!(matches!(acts[1], Action::CreateEngine { width, height }
        if width > 0 && height > 0));
    assert!(st.width > 0 && st.height > 0);
}

#[test]
fn zero_size_later_configure_keeps_the_previous_size() {
    let mut st = fresh();
    st.on_global_announced(1, GlobalKind::SurfaceFactory, 4);
    st.on_global_announced(2, GlobalKind::BackgroundLayer, 1);
    st.start_negotiation();
    st.on_configure(3, 1920, 1080);
    let acts = st.on_configure(4, 0, 0);
    assert_eq!(
        acts,
        vec![
            Action::AckConfigure { serial: 4 },
            Action::Resize {
                width: 1920,
                height: 1080,
            },
        ]
    );
}

#[test]
fn configure_after_close_is_still_acknowledged_but_does_nothing_else() {
    let mut st = fresh();
    st.on_global_announced(1, GlobalKind::SurfaceFactory, 4);
    st.on_global_announced(2, GlobalKind::BackgroundLayer, 1);
    st.start_negotiation();
    st.on_configure(3, 800, 600);
    st.on_surface_closed();
    let acts = st.on_configure(9, 1024, 768);
    assert_eq!(acts, vec![Action::AckConfigure { serial: 9 }]);
}

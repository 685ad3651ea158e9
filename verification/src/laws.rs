//! The laws the model obeys, proved once and for all event sequences:
//! the registry binds exactly what was announced, every configure is
//! acknowledged before any render it triggers, at most one
//! frame-completion request is ever outstanding, a resize pins the
//! next viewport, a missing uniform is skipped and never an error, and
//! the structural state invariant is preserved by every step.

use crate::graphics::{GlCommand, Graphics, spec_render_commands};
use crate::model::{
    Action, Event, GlobalKind, ModelState, init_state, run_events, state_inv, step,
    step_configure, step_start_negotiation,
};
use vstd::prelude::*;

verus! {

/// The event announces a global of this kind.
pub open spec fn announces(event: Event, kind: GlobalKind) -> bool {
    event matches Event::GlobalAnnounced { kind: announced, .. } && announced == kind
}

/// Every event of the sequence is a global announcement.
pub open spec fn all_announcements(events: Seq<Event>) -> bool {
    forall|i: int| 0 <= i < events.len() ==> events[i] is GlobalAnnounced
}

/// Some event of the sequence announces a global of this kind.
pub open spec fn has_announcement_of(events: Seq<Event>, kind: GlobalKind) -> bool {
    exists|i: int| 0 <= i < events.len() && #[trigger] announces(events[i], kind)
}

proof fn lemma_has_announcement_unfold(events: Seq<Event>, kind: GlobalKind)
    requires
        events.len() > 0,
    ensures
        has_announcement_of(events, kind) <==> (announces(events[0], kind)
            || has_announcement_of(events.drop_first(), kind)),
{
    if has_announcement_of(events, kind) {
        let i = choose|i: int| 0 <= i < events.len() && #[trigger] announces(events[i], kind);
        if i > 0 {
            assert(announces(events.drop_first()[i - 1], kind));
        }
    }
    if announces(events[0], kind) {
        assert(announces(events[0], kind));
    }
    if has_announcement_of(events.drop_first(), kind) {
        let j = choose|j: int|
            0 <= j < events.drop_first().len() && #[trigger] announces(
                events.drop_first()[j],
                kind,
            );
        assert(announces(events[j + 1], kind));
    }
}

proof fn lemma_bound_iff_announced_from(s: ModelState, events: Seq<Event>)
    requires
        all_announcements(events),
    ensures
        run_events(s, events).0.surface_factory is Some <==> (s.surface_factory is Some
            || has_announcement_of(events, GlobalKind::SurfaceFactory)),
        run_events(s, events).0.background_layer is Some <==> (s.background_layer is Some
            || has_announcement_of(events, GlobalKind::BackgroundLayer)),
    decreases events.len(),
{
    if events.len() == 0 {
    } else {
        assert(events[0] is GlobalAnnounced);
        let after_first = step(s, events[0]).0;
        assert(all_announcements(events.drop_first())) by {
            assert forall|i: int|
                0 <= i < events.drop_first().len() implies events.drop_first()[i]
                is GlobalAnnounced by {
                assert(events.drop_first()[i] == events[i + 1]);
            }
        }
        lemma_bound_iff_announced_from(after_first, events.drop_first());
        lemma_has_announcement_unfold(events, GlobalKind::SurfaceFactory);
        lemma_has_announcement_unfold(events, GlobalKind::BackgroundLayer);
    }
}

/// After any sequence of global announcements from the initial state,
/// each required capability slot is bound if and only if the server
/// announced at least one global of that kind (each slot holds at most
/// one binding by construction); and unless both are bound, attempting
/// to start surface negotiation changes nothing and sends nothing.
pub proof fn lemma_registry_after_roundtrip(events: Seq<Event>)
    requires
        all_announcements(events),
    ensures
        run_events(init_state(), events).0.surface_factory is Some <==> has_announcement_of(
            events,
            GlobalKind::SurfaceFactory,
        ),
        run_events(init_state(), events).0.background_layer is Some <==> has_announcement_of(
            events,
            GlobalKind::BackgroundLayer,
        ),
        !(has_announcement_of(events, GlobalKind::SurfaceFactory) && has_announcement_of(
            events,
            GlobalKind::BackgroundLayer,
        )) ==> step_start_negotiation(run_events(init_state(), events).0) == (
            run_events(init_state(), events).0,
            Seq::<Action>::empty(),
        ),
{
    lemma_bound_iff_announced_from(init_state(), events);
}

/// Every configure event is acknowledged first: the acknowledgment
/// carrying the event's serial is the first action of the step, so any
/// render the step triggers comes strictly after it.
pub proof fn lemma_configure_acked_before_render(
    s: ModelState,
    serial: u32,
    width: u32,
    height: u32,
)
    ensures
        ({
            let acts = step_configure(s, serial, width, height).1;
            &&& acts.len() > 0
            &&& acts[0] == (Action::AckConfigure { serial })
            &&& forall|i: int| 0 <= i < acts.len() && acts[i] is Render ==> 0 < i
        }),
{
}

/// How many frame-completion requests a sequence of actions issues.
pub open spec fn count_frame_requests(acts: Seq<Action>) -> nat
    decreases acts.len(),
{
    if acts.len() == 0 {
        0
    } else {
        (if acts[0] is RequestFrame {
            1nat
        } else {
            0nat
        }) + count_frame_requests(acts.drop_first())
    }
}

/// How many frame-completion notifications a sequence of events
/// delivers.
pub open spec fn count_frame_dones(events: Seq<Event>) -> nat
    decreases events.len(),
{
    if events.len() == 0 {
        0
    } else {
        (if events[0] is FrameDone {
            1nat
        } else {
            0nat
        }) + count_frame_dones(events.drop_first())
    }
}

/// The frame-completion requests the state believes outstanding: one
/// or none.
pub open spec fn outstanding_requests(s: ModelState) -> nat {
    if s.frame_pending {
        1nat
    } else {
        0nat
    }
}

/// The server fires a frame-completion notification only if one was
/// requested: an event sequence is consistent from a state when every
/// `FrameDone` arrives while a request is outstanding.
pub open spec fn consistent_from(s: ModelState, events: Seq<Event>) -> bool
    decreases events.len(),
{
    events.len() == 0 || ((events[0] is FrameDone ==> s.frame_pending) && consistent_from(
        step(s, events[0]).0,
        events.drop_first(),
    ))
}

proof fn lemma_count_requests_add(a: Seq<Action>, b: Seq<Action>)
    ensures
        count_frame_requests(a + b) == count_frame_requests(a) + count_frame_requests(b),
    decreases a.len(),
{
    if a.len() == 0 {
        assert(a + b =~= b);
    } else {
        assert((a + b).drop_first() =~= a.drop_first() + b);
        lemma_count_requests_add(a.drop_first(), b);
    }
}

proof fn lemma_step_request_balance(s: ModelState, event: Event)
    requires
        state_inv(s),
        event is FrameDone ==> s.frame_pending,
    ensures
        count_frame_requests(step(s, event).1) <= 1,
        count_frame_requests(step(s, event).1) + outstanding_requests(s) == (if event
            is FrameDone {
            1nat
        } else {
            0nat
        }) + outstanding_requests(step(s, event).0),
{
    reveal_with_fuel(count_frame_requests, 7);
}

/// One request in flight, never two: over any event sequence in which
/// notifications fire only when requested, the requests issued balance
/// the notifications received plus the one request still outstanding.
pub proof fn lemma_frame_request_balance(s: ModelState, events: Seq<Event>)
    requires
        state_inv(s),
        consistent_from(s, events),
    ensures
        count_frame_requests(run_events(s, events).1) + outstanding_requests(s)
            == count_frame_dones(events) + outstanding_requests(run_events(s, events).0),
    decreases events.len(),
{
    if events.len() == 0 {
    } else {
        let first = step(s, events[0]);
        lemma_step_request_balance(s, events[0]);
        lemma_state_invariant_step(s, events[0]);
        lemma_frame_request_balance(first.0, events.drop_first());
        lemma_count_requests_add(first.1, run_events(first.0, events.drop_first()).1);
    }
}

proof fn lemma_consistent_prefix(s: ModelState, events: Seq<Event>, i: int)
    requires
        consistent_from(s, events),
        0 <= i <= events.len(),
    ensures
        consistent_from(s, events.take(i)),
    decreases events.len(),
{
    if i == 0 || events.len() == 0 {
    } else {
        assert(events.take(i)[0] == events[0]);
        assert(events.take(i).drop_first() =~= events.drop_first().take(i - 1));
        lemma_consistent_prefix(step(s, events[0]).0, events.drop_first(), i - 1);
    }
}

/// At every instant — after any prefix of any consistent event
/// sequence run from the initial state — the frame-completion requests
/// issued so far exceed the notifications received so far by at most
/// one: a second request is never in flight beside the first.
pub proof fn lemma_at_most_one_outstanding_request(events: Seq<Event>, i: int)
    requires
        consistent_from(init_state(), events),
        0 <= i <= events.len(),
    ensures
        count_frame_requests(run_events(init_state(), events.take(i)).1) <= count_frame_dones(
            events.take(i),
        ) + 1,
{
    lemma_consistent_prefix(init_state(), events, i);
    lemma_frame_request_balance(init_state(), events.take(i));
}

/// A resize followed by a render sets the viewport to exactly the new
/// size, whatever the engine's prior state and however many frames
/// were rendered before: the render commands contain a viewport
/// command for that size and no other.
pub proof fn lemma_resize_then_render_sets_viewport(
    g: Graphics,
    width: u32,
    height: u32,
    elapsed_millis: u64,
)
    ensures
        ({
            let resized = Graphics { width, height, ..g };
            let cmds = spec_render_commands(resized, elapsed_millis);
            &&& cmds[1] == (GlCommand::Viewport { width, height })
            &&& forall|i: int|
                0 <= i < cmds.len() && cmds[i] is Viewport ==> cmds[i] == (GlCommand::Viewport {
                    width,
                    height,
                })
        }),
{
    let resized = Graphics { width, height, ..g };
    let cmds = spec_render_commands(resized, elapsed_millis);
    assert forall|i: int|
        0 <= i < cmds.len() && cmds[i] is Viewport implies cmds[i] == (GlCommand::Viewport {
        width,
        height,
    }) by {
        if resized.has_time_uniform {
            if resized.has_resolution_uniform {
                assert(cmds =~= seq![
                    GlCommand::MakeCurrent,
                    GlCommand::Viewport { width, height },
                    GlCommand::UseProgram,
                    GlCommand::SetTimeUniform { elapsed_millis },
                    GlCommand::SetResolutionUniform { width, height },
                    GlCommand::DrawQuad,
                    GlCommand::SwapBuffers,
                ]);
            } else {
                assert(cmds =~= seq![
                    GlCommand::MakeCurrent,
                    GlCommand::Viewport { width, height },
                    GlCommand::UseProgram,
                    GlCommand::SetTimeUniform { elapsed_millis },
                    GlCommand::DrawQuad,
                    GlCommand::SwapBuffers,
                ]);
            }
        } else {
            if resized.has_resolution_uniform {
                assert(cmds =~= seq![
                    GlCommand::MakeCurrent,
                    GlCommand::Viewport { width, height },
                    GlCommand::UseProgram,
                    GlCommand::SetResolutionUniform { width, height },
                    GlCommand::DrawQuad,
                    GlCommand::SwapBuffers,
                ]);
            } else {
                assert(cmds =~= seq![
                    GlCommand::MakeCurrent,
                    GlCommand::Viewport { width, height },
                    GlCommand::UseProgram,
                    GlCommand::DrawQuad,
                    GlCommand::SwapBuffers,
                ]);
            }
        }
    }
}

/// A program without a time uniform still renders — the command
/// sequence is always defined — and simply never sets that uniform.
pub proof fn lemma_render_skips_absent_time_uniform(g: Graphics, elapsed_millis: u64)
    requires
        !g.has_time_uniform,
    ensures
        ({
            let cmds = spec_render_commands(g, elapsed_millis);
            forall|i: int| 0 <= i < cmds.len() ==> !(cmds[i] is SetTimeUniform)
        }),
{
    let cmds = spec_render_commands(g, elapsed_millis);
    assert forall|i: int| 0 <= i < cmds.len() implies !(cmds[i] is SetTimeUniform) by {
        if g.has_resolution_uniform {
            assert(cmds =~= seq![
                GlCommand::MakeCurrent,
                GlCommand::Viewport { width: g.width, height: g.height },
                GlCommand::UseProgram,
                GlCommand::SetResolutionUniform { width: g.width, height: g.height },
                GlCommand::DrawQuad,
                GlCommand::SwapBuffers,
            ]);
        } else {
            assert(cmds =~= seq![
                GlCommand::MakeCurrent,
                GlCommand::Viewport { width: g.width, height: g.height },
                GlCommand::UseProgram,
                GlCommand::DrawQuad,
                GlCommand::SwapBuffers,
            ]);
        }
    }
}

/// The structural invariant holds initially and is preserved by every
/// event step and by starting negotiation: the engine exists exactly
/// from the first acknowledged configure on, an outstanding frame
/// request implies the engine exists, and an engine always has a
/// non-zero size.
pub proof fn lemma_state_invariant_init()
    ensures
        state_inv(init_state()),
{
}

/// See `lemma_state_invariant_init`.
pub proof fn lemma_state_invariant_step(s: ModelState, event: Event)
    requires
        state_inv(s),
    ensures
        state_inv(step(s, event).0),
{
}

/// See `lemma_state_invariant_init`: every state reachable by a run of
/// events from an invariant state satisfies the invariant too.
pub proof fn lemma_state_invariant_run(s: ModelState, events: Seq<Event>)
    requires
        state_inv(s),
    ensures
        state_inv(run_events(s, events).0),
    decreases events.len(),
{
    if events.len() == 0 {
    } else {
        lemma_state_invariant_step(s, events[0]);
        lemma_state_invariant_run(step(s, events[0]).0, events.drop_first());
    }
}

/// See `lemma_state_invariant_init`.
pub proof fn lemma_state_invariant_start_negotiation(s: ModelState)
    requires
        state_inv(s),
    ensures
        state_inv(step_start_negotiation(s).0),
{
}

} // verus!

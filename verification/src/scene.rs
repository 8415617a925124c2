use vstd::prelude::*;
use crate::transition::Transition;

verus! {

/// One state of the application, owned by the scene stack.
///
/// Each callback comes with a spec function that names what the
/// callback leaves behind: the scene after the call, the context after the
/// call, and the value returned. An implementation promises that its
/// callback does what its spec function says; the stack manager
/// builds on nothing else. Unless an implementation says otherwise, a
/// spec function describes a callback that changes nothing,
/// succeeds, asks for no transition, consumes no event and does not let
/// the scene below take part.
pub trait Scene: Sized {
    /// The state shared by all scenes and handed to every callback.
    type Context;

    /// The time that has passed since the last frame.
    type Time;

    /// An input event delivered by the host.
    type Event;

    /// The failure a callback may report.
    type Error;

    /// The scene, the context and the result after `on_enter`.
    open spec fn enter_spec(&self, ctx: Self::Context) -> (
        Self,
        Self::Context,
        Result<(), Self::Error>,
    ) {
        (*self, ctx, Ok(()))
    }

    /// The scene, the context and the result after `on_leave`.
    open spec fn leave_spec(&self, ctx: Self::Context) -> (
        Self,
        Self::Context,
        Result<(), Self::Error>,
    ) {
        (*self, ctx, Ok(()))
    }

    /// The scene, the context and the result after `on_pause`.
    open spec fn pause_spec(&self, ctx: Self::Context, should_draw: bool) -> (
        Self,
        Self::Context,
        Result<(), Self::Error>,
    ) {
        (*self, ctx, Ok(()))
    }

    /// The scene, the context and the result after `on_unpause`.
    open spec fn unpause_spec(&self, ctx: Self::Context) -> (
        Self,
        Self::Context,
        Result<(), Self::Error>,
    ) {
        (*self, ctx, Ok(()))
    }

    /// The scene, the context and the requested transition after `on_update`.
    open spec fn update_spec(&self, ctx: Self::Context, elapsed_time: Self::Time) -> (
        Self,
        Self::Context,
        Result<Transition<Self>, Self::Error>,
    ) {
        (*self, ctx, Ok(Transition::Nothing))
    }

    /// The scene, the context, and whether the event was consumed together
    /// with the requested transition, after `on_event`.
    open spec fn event_spec(&self, ctx: Self::Context, event: Self::Event) -> (
        Self,
        Self::Context,
        Result<(bool, Transition<Self>), Self::Error>,
    ) {
        (*self, ctx, Ok((false, Transition::Nothing)))
    }

    /// The context after `draw_next`, and its answer.
    open spec fn draw_next_spec(&self, ctx: Self::Context) -> (Self::Context, bool) {
        (ctx, false)
    }

    /// Called when the scene is put on the stack.
    fn on_enter(&mut self, ctx: &mut Self::Context) -> (r: Result<(), Self::Error>)
        ensures
            (*final(self), *final(ctx), r) == old(self).enter_spec(*old(ctx)),
    ;

    /// Called when the scene is taken off the stack.
    fn on_leave(&mut self, ctx: &mut Self::Context) -> (r: Result<(), Self::Error>)
        ensures
            (*final(self), *final(ctx), r) == old(self).leave_spec(*old(ctx)),
    ;

    /// Called when another scene is about to be put on top of this one.
    /// `should_draw` tells whether the incoming scene lets this one be
    /// processed along with it.
    fn on_pause(&mut self, ctx: &mut Self::Context, should_draw: bool) -> (r: Result<
        (),
        Self::Error,
    >)
        ensures
            (*final(self), *final(ctx), r) == old(self).pause_spec(*old(ctx), should_draw),
    ;

    /// Called when the scene above this one has left and this one is the
    /// top again.
    fn on_unpause(&mut self, ctx: &mut Self::Context) -> (r: Result<(), Self::Error>)
        ensures
            (*final(self), *final(ctx), r) == old(self).unpause_spec(*old(ctx)),
    ;

    /// Called once per frame; returns the stack change the scene asks for.
    fn on_update(&mut self, ctx: &mut Self::Context, elapsed_time: &Self::Time) -> (r: Result<
        Transition<Self>,
        Self::Error,
    >)
        ensures
            (*final(self), *final(ctx), r) == old(self).update_spec(*old(ctx), *elapsed_time),
    ;

    /// Called once per input event; returns whether the scene consumed the
    /// event, and the stack change the scene asks for.
    fn on_event(&mut self, ctx: &mut Self::Context, event: &Self::Event) -> (r: Result<
        (bool, Transition<Self>),
        Self::Error,
    >)
        ensures
            (*final(self), *final(ctx), r) == old(self).event_spec(*old(ctx), *event),
    ;

    /// Whether the scene below this one is processed in the same frame.
    fn draw_next(&self, ctx: &mut Self::Context) -> (r: bool)
        ensures
            (*final(ctx), r) == self.draw_next_spec(*old(ctx)),
    ;
}

} // verus!

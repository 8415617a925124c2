use vstd::prelude::*;
use crate::scene::Scene;

verus! {

/// A change of the scene stack that a scene asks for. It is made by a
/// callback and used up when it is applied.
pub enum Transition<S> {
    /// Leave the stack as it is.
    Nothing,
    /// Put a scene on top of the stack.
    Push(S),
    /// Take the top scene off the stack.
    Pop,
    /// Put a scene in the place of the top scene.
    Replace(S),
}

/// The stack with its top scene exchanged for `top`.
pub open spec fn with_top<S>(scenes: Seq<S>, top: S) -> Seq<S>
    recommends
        scenes.len() > 0,
{
    scenes.update(scenes.len() - 1, top)
}

/// The incoming scene asks whether the scene below it is still drawn, and
/// the current top is paused with that answer.
pub open spec fn pause_top_spec<S: Scene>(scenes: Seq<S>, ctx: S::Context, new: S) -> (
    Seq<S>,
    S::Context,
    Result<(), S::Error>,
)
    recommends
        scenes.len() > 0,
{
    let (ctx1, should_draw) = new.draw_next_spec(ctx);
    let (top, ctx2, paused) = scenes.last().pause_spec(ctx1, should_draw);
    (with_top(scenes, top), ctx2, paused)
}

/// The incoming scene is entered; if that succeeds it becomes the new top.
/// If it fails the scene is dropped and the stack stays as it is.
pub open spec fn enter_top_spec<S: Scene>(scenes: Seq<S>, ctx: S::Context, new: S) -> (
    Seq<S>,
    S::Context,
    Result<(), S::Error>,
) {
    let (entered, ctx1, r) = new.enter_spec(ctx);
    match r {
        Ok(_) => (scenes.push(entered), ctx1, r),
        Err(_) => (scenes, ctx1, r),
    }
}

/// What `Push(new)` does: pause the current top, if there is one, then
/// enter the new scene and put it on the stack.
pub open spec fn push_spec<S: Scene>(scenes: Seq<S>, ctx: S::Context, new: S) -> (
    Seq<S>,
    S::Context,
    Result<(), S::Error>,
) {
    if scenes.len() > 0 {
        let (scenes1, ctx1, paused) = pause_top_spec(scenes, ctx, new);
        match paused {
            Ok(_) => enter_top_spec(scenes1, ctx1, new),
            Err(_) => (scenes1, ctx1, paused),
        }
    } else {
        enter_top_spec(scenes, ctx, new)
    }
}

/// What `Pop` does: take the top off and let it leave, then unpause the
/// scene that is the top now, if there is one. Nothing on an empty stack.
pub open spec fn pop_spec<S: Scene>(scenes: Seq<S>, ctx: S::Context) -> (
    Seq<S>,
    S::Context,
    Result<(), S::Error>,
) {
    if scenes.len() > 0 {
        let rest = scenes.drop_last();
        let (_gone, ctx1, left) = scenes.last().leave_spec(ctx);
        match left {
            Ok(_) => if rest.len() > 0 {
                let (top, ctx2, unpaused) = rest.last().unpause_spec(ctx1);
                (with_top(rest, top), ctx2, unpaused)
            } else {
                (rest, ctx1, left)
            },
            Err(_) => (rest, ctx1, left),
        }
    } else {
        (scenes, ctx, Ok(()))
    }
}

/// What `Replace(new)` does on a stack that is not empty: pause the top,
/// enter the new scene, put it in the top's place, and only then let the
/// old top leave.
pub open spec fn replace_spec<S: Scene>(scenes: Seq<S>, ctx: S::Context, new: S) -> (
    Seq<S>,
    S::Context,
    Result<(), S::Error>,
)
    recommends
        scenes.len() > 0,
{
    let (scenes1, ctx1, paused) = pause_top_spec(scenes, ctx, new);
    match paused {
        Ok(_) => {
            let (entered, ctx2, r) = new.enter_spec(ctx1);
            match r {
                Ok(_) => {
                    let (_gone, ctx3, left) = scenes1.last().leave_spec(ctx2);
                    (with_top(scenes1, entered), ctx3, left)
                },
                Err(_) => (scenes1, ctx2, r),
            }
        },
        Err(_) => (scenes1, ctx1, paused),
    }
}

/// The stack, the context and the result after a transition was applied.
/// A failing callback ends the transition where it stands: what was done
/// before it stays done.
pub open spec fn apply_spec<S: Scene>(t: Transition<S>, scenes: Seq<S>, ctx: S::Context) -> (
    Seq<S>,
    S::Context,
    Result<(), S::Error>,
)
    recommends
        t is Replace ==> scenes.len() > 0,
{
    match t {
        Transition::Nothing => (scenes, ctx, Ok(())),
        Transition::Push(new) => push_spec(scenes, ctx, new),
        Transition::Pop => pop_spec(scenes, ctx),
        Transition::Replace(new) => replace_spec(scenes, ctx, new),
    }
}

impl<S: Scene> Transition<S> {
    /// A transition that puts `s` on top of the stack.
    pub fn push(s: S) -> (t: Self)
        ensures
            t == Transition::Push(s),
    {
        Transition::Push(s)
    }

    /// A transition that puts `s` in the place of the top scene.
    pub fn replace(s: S) -> (t: Self)
        ensures
            t == Transition::Replace(s),
    {
        Transition::Replace(s)
    }

    /// Applies the transition to a stack and its context. A `Replace`
    /// needs a scene to replace.
    pub fn apply_to(self, scenes: &mut Vec<S>, ctx: &mut S::Context) -> (r: Result<(), S::Error>)
        requires
            self is Replace ==> old(scenes)@.len() > 0,
        ensures
            (final(scenes)@, *final(ctx), r) == apply_spec(self, old(scenes)@, *old(ctx)),
    {
        match self {
            Transition::Nothing => Ok(()),
            Transition::Push(new) => {
                let mut new = new;
                let n: usize = scenes.len();
                if n > 0 {
                    let should_draw = new.draw_next(ctx);
                    let paused = scenes[n - 1].on_pause(ctx, should_draw);
                    if let Err(e) = paused {
                        return Err(e);
                    }
                }
                let entered = new.on_enter(ctx);
                if entered.is_ok() {
                    scenes.push(new);
                }
                entered
            },
            Transition::Pop => {
                match scenes.pop() {
                    Some(gone) => {
                        let mut gone = gone;
                        let left = gone.on_leave(ctx);
                        let n: usize = scenes.len();
                        if left.is_ok() && n > 0 {
                            scenes[n - 1].on_unpause(ctx)
                        } else {
                            left
                        }
                    },
                    None => Ok(()),
                }
            },
            Transition::Replace(new) => {
                let mut new = new;
                let n: usize = scenes.len();
                let should_draw = new.draw_next(ctx);
                let paused = scenes[n - 1].on_pause(ctx, should_draw);
                if let Err(e) = paused {
                    return Err(e);
                }
                let entered = new.on_enter(ctx);
                if let Err(e) = entered {
                    return Err(e);
                }
                std::mem::swap(&mut scenes[n - 1], &mut new);
                new.on_leave(ctx)
            },
        }
    }
}

} // verus!

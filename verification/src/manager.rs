use vstd::prelude::*;
use crate::scene::Scene;
use crate::transition::{apply_spec, enter_top_spec, with_top, Transition};

verus! {

/// The scene stack, the context shared by its scenes, and the transitions
/// gathered during a walk over the stack. Index 0 of the stack is its
/// bottom; the last scene is the top.
pub struct SceneManager<S: Scene> {
    scenes: Vec<S>,
    operations: Vec<Transition<S>>,
    /// The context, passed to every callback.
    pub ctx: S::Context,
}

/// What a direct `pop` does: the top is taken off and leaves. It is handed
/// out if it left without failure. Nothing on an empty stack.
pub open spec fn leave_top_spec<S: Scene>(scenes: Seq<S>, ctx: S::Context) -> (
    Seq<S>,
    S::Context,
    Result<Option<S>, S::Error>,
) {
    if scenes.len() > 0 {
        let (gone, ctx1, left) = scenes.last().leave_spec(ctx);
        match left {
            Ok(_) => (scenes.drop_last(), ctx1, Ok(Some(gone))),
            Err(e) => (scenes.drop_last(), ctx1, Err(e)),
        }
    } else {
        (scenes, ctx, Ok(None))
    }
}

/// What a direct `replace` does on a stack that is not empty: the new scene
/// is entered and put in the top's place, then the old top leaves and is
/// handed out. If entering fails the stack stays as it is.
pub open spec fn swap_top_spec<S: Scene>(scenes: Seq<S>, ctx: S::Context, new: S) -> (
    Seq<S>,
    S::Context,
    Result<S, S::Error>,
)
    recommends
        scenes.len() > 0,
{
    let (entered, ctx1, r) = new.enter_spec(ctx);
    match r {
        Ok(_) => {
            let (gone, ctx2, left) = scenes.last().leave_spec(ctx1);
            match left {
                Ok(_) => (with_top(scenes, entered), ctx2, Ok(gone)),
                Err(e) => (with_top(scenes, entered), ctx2, Err(e)),
            }
        },
        Err(e) => (scenes, ctx1, Err(e)),
    }
}

/// The walk of a frame update over the scenes below index `unvisited`,
/// from the top down, with the transitions gathered so far in `ops`. Each
/// visited scene is updated and its transition is recorded; then the scene
/// is asked whether the one below it takes part in the frame. A failing
/// update ends the walk with the failure.
pub open spec fn update_walk_spec<S: Scene>(
    scenes: Seq<S>,
    ctx: S::Context,
    elapsed_time: S::Time,
    unvisited: nat,
    ops: Seq<Transition<S>>,
) -> (Seq<S>, S::Context, Result<Seq<Transition<S>>, S::Error>)
    recommends
        unvisited <= scenes.len(),
    decreases unvisited,
{
    if unvisited == 0 {
        (scenes, ctx, Ok(ops))
    } else {
        let i = unvisited - 1;
        let (scene, ctx1, updated) = scenes[i].update_spec(ctx, elapsed_time);
        let scenes1 = scenes.update(i, scene);
        match updated {
            Ok(t) => {
                let (ctx2, goes_on) = scene.draw_next_spec(ctx1);
                if goes_on {
                    update_walk_spec(scenes1, ctx2, elapsed_time, i as nat, ops.push(t))
                } else {
                    (scenes1, ctx2, Ok(ops.push(t)))
                }
            },
            Err(e) => (scenes1, ctx1, Err(e)),
        }
    }
}

/// The walk of an event over the scenes below index `unvisited`, from the
/// top down. Each visited scene gets the event and its transition is
/// recorded. The walk ends at the scene that consumes the event, without
/// asking that scene anything more; otherwise it goes on while the visited
/// scene lets the one below it take part. The result tells whether a
/// visited scene consumed the event.
pub open spec fn event_walk_spec<S: Scene>(
    scenes: Seq<S>,
    ctx: S::Context,
    event: S::Event,
    unvisited: nat,
    ops: Seq<Transition<S>>,
) -> (Seq<S>, S::Context, Result<(bool, Seq<Transition<S>>), S::Error>)
    recommends
        unvisited <= scenes.len(),
    decreases unvisited,
{
    if unvisited == 0 {
        (scenes, ctx, Ok((false, ops)))
    } else {
        let i = unvisited - 1;
        let (scene, ctx1, answered) = scenes[i].event_spec(ctx, event);
        let scenes1 = scenes.update(i, scene);
        match answered {
            Ok((handled, t)) => {
                if handled {
                    (scenes1, ctx1, Ok((true, ops.push(t))))
                } else {
                    let (ctx2, goes_on) = scene.draw_next_spec(ctx1);
                    if goes_on {
                        event_walk_spec(scenes1, ctx2, event, i as nat, ops.push(t))
                    } else {
                        (scenes1, ctx2, Ok((false, ops.push(t))))
                    }
                }
            },
            Err(e) => (scenes1, ctx1, Err(e)),
        }
    }
}

/// The transitions of `ops` applied one after the other, first to last.
/// The first failure ends it: the transitions after it are dropped.
pub open spec fn apply_all_spec<S: Scene>(
    ops: Seq<Transition<S>>,
    scenes: Seq<S>,
    ctx: S::Context,
) -> (Seq<S>, S::Context, Result<(), S::Error>)
    decreases ops.len(),
{
    if ops.len() == 0 {
        (scenes, ctx, Ok(()))
    } else {
        let (scenes1, ctx1, applied) = apply_spec(ops[0], scenes, ctx);
        match applied {
            Ok(_) => apply_all_spec(ops.drop_first(), scenes1, ctx1),
            Err(e) => (scenes1, ctx1, Err(e)),
        }
    }
}

/// A whole frame update: the walk from the top, then the gathered
/// transitions in the order in which the scenes were visited. The result
/// tells whether a scene is left on the stack. If the walk fails no
/// transition is applied.
pub open spec fn frame_update_spec<S: Scene>(
    scenes: Seq<S>,
    ctx: S::Context,
    elapsed_time: S::Time,
) -> (Seq<S>, S::Context, Result<bool, S::Error>) {
    let (scenes1, ctx1, walked) = update_walk_spec(
        scenes,
        ctx,
        elapsed_time,
        scenes.len(),
        Seq::empty(),
    );
    match walked {
        Ok(ops) => {
            let (scenes2, ctx2, applied) = apply_all_spec(ops, scenes1, ctx1);
            match applied {
                Ok(_) => (scenes2, ctx2, Ok(scenes2.len() > 0)),
                Err(e) => (scenes2, ctx2, Err(e)),
            }
        },
        Err(e) => (scenes1, ctx1, Err(e)),
    }
}

/// A whole event dispatch: the walk from the top, then the gathered
/// transitions in the order in which the scenes were visited. The result
/// tells whether a scene consumed the event. If the walk fails no
/// transition is applied.
pub open spec fn frame_event_spec<S: Scene>(scenes: Seq<S>, ctx: S::Context, event: S::Event) -> (
    Seq<S>,
    S::Context,
    Result<bool, S::Error>,
) {
    let (scenes1, ctx1, walked) = event_walk_spec(scenes, ctx, event, scenes.len(), Seq::empty());
    match walked {
        Ok((handled, ops)) => {
            let (scenes2, ctx2, applied) = apply_all_spec(ops, scenes1, ctx1);
            match applied {
                Ok(_) => (scenes2, ctx2, Ok(handled)),
                Err(e) => (scenes2, ctx2, Err(e)),
            }
        },
        Err(e) => (scenes1, ctx1, Err(e)),
    }
}

/// A transition takes at most one scene off the stack and puts at most one
/// on it; a `Replace` or a `Nothing` leaves as many scenes as there were.
pub proof fn lemma_apply_len<S: Scene>(t: Transition<S>, scenes: Seq<S>, ctx: S::Context)
    requires
        t is Replace ==> scenes.len() > 0,
    ensures
        scenes.len() - 1 <= apply_spec(t, scenes, ctx).0.len() <= scenes.len() + 1,
        t is Replace || t is Nothing ==> apply_spec(t, scenes, ctx).0.len() == scenes.len(),
        t is Pop && scenes.len() > 0 ==> apply_spec(t, scenes, ctx).0.len() == scenes.len() - 1,
{
}

impl<S: Scene> SceneManager<S> {
    /// The scenes on the stack, bottom first.
    pub closed spec fn stack(&self) -> Seq<S> {
        self.scenes@
    }

    /// The context as it stands.
    pub closed spec fn context(&self) -> S::Context {
        self.ctx
    }

    /// A manager with the given context and no scene.
    pub fn new(ctx: S::Context) -> (m: Self)
        ensures
            m.stack() == Seq::<S>::empty(),
            m.context() == ctx,
    {
        SceneManager { scenes: Vec::new(), operations: Vec::new(), ctx }
    }

    /// Applies one transition to the stack at once. A `Replace` needs a
    /// scene to replace.
    pub fn apply(&mut self, trans: Transition<S>) -> (r: Result<(), S::Error>)
        requires
            trans is Replace ==> old(self).stack().len() > 0,
        ensures
            (final(self).stack(), final(self).context(), r) == apply_spec(
                trans,
                old(self).stack(),
                old(self).context(),
            ),
    {
        trans.apply_to(&mut self.scenes, &mut self.ctx)
    }

    /// Enters `new` and puts it on top of the stack. The scene below it is
    /// not told. If entering fails the scene is dropped.
    pub fn push(&mut self, new: S) -> (r: Result<(), S::Error>)
        ensures
            (final(self).stack(), final(self).context(), r) == enter_top_spec(
                old(self).stack(),
                old(self).context(),
                new,
            ),
    {
        let mut new = new;
        let entered = new.on_enter(&mut self.ctx);
        if entered.is_ok() {
            self.scenes.push(new);
        }
        entered
    }

    /// Takes the top scene off the stack, lets it leave and hands it out.
    /// On an empty stack nothing happens and nothing is handed out.
    pub fn pop(&mut self) -> (r: Result<Option<S>, S::Error>)
        ensures
            (final(self).stack(), final(self).context(), r) == leave_top_spec(
                old(self).stack(),
                old(self).context(),
            ),
    {
        match self.scenes.pop() {
            Some(gone) => {
                let mut gone = gone;
                let left = gone.on_leave(&mut self.ctx);
                match left {
                    Ok(_) => Ok(Some(gone)),
                    Err(e) => Err(e),
                }
            },
            None => Ok(None),
        }
    }

    /// Enters `new`, puts it in the place of the top scene, lets the old
    /// top leave and hands it out. There must be a scene to replace.
    pub fn replace(&mut self, new: S) -> (r: Result<S, S::Error>)
        requires
            old(self).stack().len() > 0,
        ensures
            (final(self).stack(), final(self).context(), r) == swap_top_spec(
                old(self).stack(),
                old(self).context(),
                new,
            ),
    {
        let mut new = new;
        let n: usize = self.scenes.len();
        let entered = new.on_enter(&mut self.ctx);
        if let Err(e) = entered {
            return Err(e);
        }
        std::mem::swap(&mut self.scenes[n - 1], &mut new);
        let left = new.on_leave(&mut self.ctx);
        match left {
            Ok(_) => Ok(new),
            Err(e) => Err(e),
        }
    }

    /// Whether the application should start running: whether a scene is on
    /// the stack.
    pub fn on_create(&mut self) -> (r: bool)
        ensures
            r == (old(self).stack().len() > 0),
            final(self).stack() == old(self).stack(),
            final(self).context() == old(self).context(),
    {
        !self.scenes.is_empty()
    }

    /// Applies the gathered transitions, first to last, and leaves the
    /// buffer empty.
    fn apply_operations(&mut self) -> (r: Result<(), S::Error>)
        requires
            old(self).operations@.len() <= old(self).scenes@.len(),
        ensures
            (final(self).scenes@, final(self).context(), r) == apply_all_spec(
                old(self).operations@,
                old(self).scenes@,
                old(self).context(),
            ),
            final(self).operations@.len() == 0,
    {
        while self.operations.len() > 0
            invariant
                self.operations@.len() <= self.scenes@.len(),
                apply_all_spec(self.operations@, self.scenes@, self.ctx) == apply_all_spec(
                    old(self).operations@,
                    old(self).scenes@,
                    old(self).context(),
                ),
            decreases self.operations@.len(),
        {
            let op = self.operations.remove(0);
            proof {
                lemma_apply_len(op, self.scenes@, self.ctx);
            }
            let applied = op.apply_to(&mut self.scenes, &mut self.ctx);
            if let Err(e) = applied {
                self.operations.clear();
                return Err(e);
            }
        }
        Ok(())
    }

    /// One frame: the scenes are updated from the top down, as far as each
    /// visited scene lets the one below it take part; then the transitions
    /// they asked for are applied in the order of the visits. Returns
    /// whether the application should keep running, that is whether a
    /// scene is left. A failure of a callback ends the frame at once.
    pub fn on_update(&mut self, elapsed_time: &S::Time) -> (r: Result<bool, S::Error>)
        ensures
            (final(self).stack(), final(self).context(), r) == frame_update_spec(
                old(self).stack(),
                old(self).context(),
                *elapsed_time,
            ),
    {
        self.operations.clear();
        let mut i: usize = self.scenes.len();
        let mut walking = true;
        while walking && i > 0
            invariant
                i <= self.scenes@.len(),
                self.scenes@.len() == old(self).scenes@.len(),
                self.operations@.len() + i <= self.scenes@.len(),
                update_walk_spec(
                    old(self).scenes@,
                    old(self).context(),
                    *elapsed_time,
                    old(self).scenes@.len(),
                    Seq::empty(),
                ) == if walking {
                    update_walk_spec(
                        self.scenes@,
                        self.ctx,
                        *elapsed_time,
                        i as nat,
                        self.operations@,
                    )
                } else {
                    (self.scenes@, self.ctx, Ok(self.operations@))
                },
            decreases i,
        {
            i = i - 1;
            let updated = self.scenes[i].on_update(&mut self.ctx, elapsed_time);
            match updated {
                Ok(t) => {
                    self.operations.push(t);
                },
                Err(e) => {
                    self.operations.clear();
                    return Err(e);
                },
            }
            walking = self.scenes[i].draw_next(&mut self.ctx);
        }
        let applied = self.apply_operations();
        match applied {
            Ok(_) => Ok(!self.scenes.is_empty()),
            Err(e) => Err(e),
        }
    }

    /// One input event: the scenes get the event from the top down, until
    /// one consumes it or does not let the one below it take part; then the
    /// transitions they asked for are applied in the order of the visits.
    /// Returns whether a scene consumed the event. A failure of a callback
    /// ends the dispatch at once.
    pub fn on_event(&mut self, event: &S::Event) -> (r: Result<bool, S::Error>)
        ensures
            (final(self).stack(), final(self).context(), r) == frame_event_spec(
                old(self).stack(),
                old(self).context(),
                *event,
            ),
    {
        self.operations.clear();
        let mut was_handled = false;
        let mut i: usize = self.scenes.len();
        let mut walking = true;
        while walking && i > 0
            invariant
                i <= self.scenes@.len(),
                self.scenes@.len() == old(self).scenes@.len(),
                self.operations@.len() + i <= self.scenes@.len(),
                walking ==> !was_handled,
                event_walk_spec(
                    old(self).scenes@,
                    old(self).context(),
                    *event,
                    old(self).scenes@.len(),
                    Seq::empty(),
                ) == if walking {
                    event_walk_spec(self.scenes@, self.ctx, *event, i as nat, self.operations@)
                } else {
                    (self.scenes@, self.ctx, Ok((was_handled, self.operations@)))
                },
            decreases i,
        {
            i = i - 1;
            let answered = self.scenes[i].on_event(&mut self.ctx, event);
            match answered {
                Ok((handled, t)) => {
                    was_handled = was_handled || handled;
                    self.operations.push(t);
                    if handled {
                        walking = false;
                    } else {
                        walking = self.scenes[i].draw_next(&mut self.ctx);
                    }
                },
                Err(e) => {
                    self.operations.clear();
                    return Err(e);
                },
            }
        }
        let applied = self.apply_operations();
        match applied {
            Ok(_) => Ok(was_handled),
            Err(e) => Err(e),
        }
    }
}

} // verus!

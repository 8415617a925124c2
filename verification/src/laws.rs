use vstd::prelude::*;
use crate::scene::Scene;
use crate::transition::{apply_spec, enter_top_spec, pop_spec, push_spec, replace_spec, with_top, Transition};
use crate::manager::{
    apply_all_spec,
    lemma_apply_len,
    event_walk_spec,
    frame_event_spec,
    frame_update_spec,
    leave_top_spec,
    update_walk_spec,
};

verus! {

/// Pushing onto an empty stack runs `on_enter` of the new scene and nothing
/// else: the outcome is that of `on_enter` on the context as it was. If
/// the scene entered it is the only scene afterwards.
pub proof fn law_push_on_empty_only_enters<S: Scene>(new: S, ctx: S::Context)
    ensures
        ({
            let (entered, ctx1, r) = new.enter_spec(ctx);
            let after = apply_spec(Transition::Push(new), Seq::empty(), ctx);
            &&& after.1 == ctx1
            &&& after.2 == r
            &&& r is Ok ==> after.0 == seq![entered]
            &&& r is Err ==> after.0 == Seq::<S>::empty()
        }),
{
    let (entered, ctx1, r) = new.enter_spec(ctx);
    assert(Seq::<S>::empty().push(entered) =~= seq![entered]);
}

/// Pushing `new` over a top scene asks `new.draw_next` first, pauses the
/// top with that answer on the context that `draw_next` left, and then
/// enters `new` on the context that the pause left. With both callbacks
/// succeeding, `new` is the top afterwards and the paused scene lies right
/// below it.
pub proof fn law_push_pauses_then_enters<S: Scene>(scenes: Seq<S>, new: S, ctx: S::Context)
    requires
        scenes.len() > 0,
    ensures
        ({
            let (ctx1, should_draw) = new.draw_next_spec(ctx);
            let (paused, ctx2, r1) = scenes.last().pause_spec(ctx1, should_draw);
            let (entered, ctx3, r2) = new.enter_spec(ctx2);
            let after = push_spec(scenes, ctx, new);
            &&& r1 is Err ==> after == (with_top(scenes, paused), ctx2, r1)
            &&& r1 is Ok && r2 is Err ==> after == (with_top(scenes, paused), ctx3, r2)
            &&& r1 is Ok && r2 is Ok ==> {
                &&& after == (with_top(scenes, paused).push(entered), ctx3, r2)
                &&& after.0.len() == scenes.len() + 1
                &&& after.0.last() == entered
                &&& after.0[scenes.len() - 1] == paused
            }
        }),
{
}

/// Replacing the top asks `new.draw_next`, pauses the top with that
/// answer, enters `new`, and lets the old top leave last of all, on the
/// context that `on_enter` left. With pause and enter succeeding, `new`
/// stands in the top's place whether or not the leave succeeds.
pub proof fn law_replace_leaves_last<S: Scene>(scenes: Seq<S>, new: S, ctx: S::Context)
    requires
        scenes.len() > 0,
    ensures
        ({
            let (ctx1, should_draw) = new.draw_next_spec(ctx);
            let (paused, ctx2, r1) = scenes.last().pause_spec(ctx1, should_draw);
            let (entered, ctx3, r2) = new.enter_spec(ctx2);
            let (_gone, ctx4, r3) = paused.leave_spec(ctx3);
            let after = replace_spec(scenes, ctx, new);
            &&& r1 is Err ==> after == (with_top(scenes, paused), ctx2, r1)
            &&& r1 is Ok && r2 is Err ==> after == (with_top(scenes, paused), ctx3, r2)
            &&& r1 is Ok && r2 is Ok ==> {
                &&& after == (with_top(scenes, entered), ctx4, r3)
                &&& after.0.len() == scenes.len()
                &&& after.0.last() == entered
            }
        }),
{
    let (ctx1, should_draw) = new.draw_next_spec(ctx);
    let (paused, ctx2, r1) = scenes.last().pause_spec(ctx1, should_draw);
    let (entered, ctx3, r2) = new.enter_spec(ctx2);
    assert(with_top(with_top(scenes, paused), entered) =~= with_top(scenes, entered));
}

/// Popping the only scene runs its `on_leave` and leaves the stack empty;
/// a pop after that changes nothing and succeeds. A direct pop of an
/// empty stack hands out nothing.
pub proof fn law_pop_only_scene<S: Scene>(only: S, ctx: S::Context)
    ensures
        ({
            let (_gone, ctx1, r) = only.leave_spec(ctx);
            let after = pop_spec(seq![only], ctx);
            &&& after == (Seq::<S>::empty(), ctx1, r)
            &&& pop_spec(after.0, ctx1) == (Seq::<S>::empty(), ctx1, Ok::<(), S::Error>(()))
            &&& leave_top_spec(after.0, ctx1) == (
                Seq::<S>::empty(),
                ctx1,
                Ok::<Option<S>, S::Error>(None),
            )
        }),
{
    assert(seq![only].drop_last() =~= Seq::<S>::empty());
}

/// Popping with a scene below runs `on_leave` of the removed scene and
/// then `on_unpause` of the new top, on the context that the leave left.
/// If the leave fails the scene is gone all the same and nothing is
/// unpaused.
pub proof fn law_pop_leaves_then_unpauses<S: Scene>(scenes: Seq<S>, ctx: S::Context)
    requires
        scenes.len() >= 2,
    ensures
        ({
            let (_gone, ctx1, r1) = scenes.last().leave_spec(ctx);
            let rest = scenes.drop_last();
            let (unpaused, ctx2, r2) = rest.last().unpause_spec(ctx1);
            let after = pop_spec(scenes, ctx);
            &&& r1 is Err ==> after == (rest, ctx1, r1)
            &&& r1 is Ok ==> after == (with_top(rest, unpaused), ctx2, r2)
            &&& after.0.len() == scenes.len() - 1
        }),
{
}

/// An update walk neither adds nor removes a scene, and it gathers at most
/// one transition for each scene it could visit.
pub proof fn law_update_walk_keeps_len<S: Scene>(
    scenes: Seq<S>,
    ctx: S::Context,
    elapsed_time: S::Time,
    unvisited: nat,
    ops: Seq<Transition<S>>,
)
    requires
        unvisited <= scenes.len(),
    ensures
        update_walk_spec(scenes, ctx, elapsed_time, unvisited, ops).0.len() == scenes.len(),
        update_walk_spec(scenes, ctx, elapsed_time, unvisited, ops).2 is Ok ==> update_walk_spec(
            scenes,
            ctx,
            elapsed_time,
            unvisited,
            ops,
        ).2->Ok_0.len() <= ops.len() + unvisited,
    decreases unvisited,
{
    if unvisited > 0 {
        let i = unvisited - 1;
        let (scene, ctx1, updated) = scenes[i].update_spec(ctx, elapsed_time);
        if let Ok(t) = updated {
            let (ctx2, goes_on) = scene.draw_next_spec(ctx1);
            if goes_on {
                law_update_walk_keeps_len(
                    scenes.update(i, scene),
                    ctx2,
                    elapsed_time,
                    i as nat,
                    ops.push(t),
                );
            }
        }
    }
}

/// An event walk neither adds nor removes a scene, and it gathers at most
/// one transition for each scene it could visit.
pub proof fn law_event_walk_keeps_len<S: Scene>(
    scenes: Seq<S>,
    ctx: S::Context,
    event: S::Event,
    unvisited: nat,
    ops: Seq<Transition<S>>,
)
    requires
        unvisited <= scenes.len(),
    ensures
        event_walk_spec(scenes, ctx, event, unvisited, ops).0.len() == scenes.len(),
        event_walk_spec(scenes, ctx, event, unvisited, ops).2 is Ok ==> (event_walk_spec(
            scenes,
            ctx,
            event,
            unvisited,
            ops,
        ).2->Ok_0).1.len() <= ops.len() + unvisited,
    decreases unvisited,
{
    if unvisited > 0 {
        let i = unvisited - 1;
        let (scene, ctx1, answered) = scenes[i].event_spec(ctx, event);
        if let Ok((handled, t)) = answered {
            let (ctx2, goes_on) = scene.draw_next_spec(ctx1);
            if !handled && goes_on {
                law_event_walk_keeps_len(
                    scenes.update(i, scene),
                    ctx2,
                    event,
                    i as nat,
                    ops.push(t),
                );
            }
        }
    }
}

/// Whether every `Replace` among `ops` finds a scene to replace when the
/// transitions are applied in order, starting from the given stack and
/// going on as long as they succeed.
pub open spec fn replaces_find_a_scene<S: Scene>(
    ops: Seq<Transition<S>>,
    scenes: Seq<S>,
    ctx: S::Context,
) -> bool
    decreases ops.len(),
{
    ops.len() == 0 || {
        let (scenes1, ctx1, applied) = apply_spec(ops[0], scenes, ctx);
        &&& ops[0] is Replace ==> scenes.len() > 0
        &&& applied is Ok ==> replaces_find_a_scene(ops.drop_first(), scenes1, ctx1)
    }
}

/// On a stack with at least as many scenes as there are transitions to
/// apply, no `Replace` meets an empty stack.
pub proof fn law_enough_scenes_for_replaces<S: Scene>(
    ops: Seq<Transition<S>>,
    scenes: Seq<S>,
    ctx: S::Context,
)
    requires
        ops.len() <= scenes.len(),
    ensures
        replaces_find_a_scene(ops, scenes, ctx),
    decreases ops.len(),
{
    if ops.len() > 0 {
        lemma_apply_len(ops[0], scenes, ctx);
        let (scenes1, ctx1, _applied) = apply_spec(ops[0], scenes, ctx);
        law_enough_scenes_for_replaces(ops.drop_first(), scenes1, ctx1);
    }
}

/// Replacing on an empty stack is a fault of the caller, and a frame never
/// commits it: whatever the scenes ask for during an update or an event,
/// every `Replace` among the gathered transitions finds a scene to
/// replace.
pub proof fn law_frames_never_replace_on_empty<S: Scene>(
    scenes: Seq<S>,
    ctx: S::Context,
    elapsed_time: S::Time,
    event: S::Event,
)
    ensures
        ({
            let walked = update_walk_spec(scenes, ctx, elapsed_time, scenes.len(), Seq::empty());
            walked.2 is Ok ==> replaces_find_a_scene(walked.2->Ok_0, walked.0, walked.1)
        }),
        ({
            let walked = event_walk_spec(scenes, ctx, event, scenes.len(), Seq::empty());
            walked.2 is Ok ==> replaces_find_a_scene((walked.2->Ok_0).1, walked.0, walked.1)
        }),
{
    law_update_walk_keeps_len(scenes, ctx, elapsed_time, scenes.len(), Seq::empty());
    law_event_walk_keeps_len(scenes, ctx, event, scenes.len(), Seq::empty());
    let updated = update_walk_spec(scenes, ctx, elapsed_time, scenes.len(), Seq::empty());
    if updated.2 is Ok {
        law_enough_scenes_for_replaces(updated.2->Ok_0, updated.0, updated.1);
    }
    let sent = event_walk_spec(scenes, ctx, event, scenes.len(), Seq::empty());
    if sent.2 is Ok {
        law_enough_scenes_for_replaces((sent.2->Ok_0).1, sent.0, sent.1);
    }
}

/// When the top scene lets the scene below it take part and that scene
/// does not, a frame update visits these two, the top first, and no scene
/// further down. Their transitions are applied after the walk, that of
/// the top first.
pub proof fn law_update_stops_below_last_draw_through<S: Scene>(
    scenes: Seq<S>,
    ctx: S::Context,
    elapsed_time: S::Time,
)
    requires
        scenes.len() >= 2,
        scenes.last().update_spec(ctx, elapsed_time).2 is Ok,
        ({
            let (top, ctx1, _r) = scenes.last().update_spec(ctx, elapsed_time);
            let (ctx2, goes_on) = top.draw_next_spec(ctx1);
            let (second, ctx3, r) = scenes[scenes.len() - 2].update_spec(ctx2, elapsed_time);
            goes_on && r is Ok && !second.draw_next_spec(ctx3).1
        }),
    ensures
        ({
            let n = scenes.len() as int;
            let (top, ctx1, r1) = scenes.last().update_spec(ctx, elapsed_time);
            let (ctx2, _d1) = top.draw_next_spec(ctx1);
            let (second, ctx3, r2) = scenes[n - 2].update_spec(ctx2, elapsed_time);
            let (ctx4, _d2) = second.draw_next_spec(ctx3);
            let walked = scenes.update(n - 1, top).update(n - 2, second);
            let ops = seq![r1->Ok_0, r2->Ok_0];
            let (scenes5, ctx5, a1) = apply_spec(r1->Ok_0, walked, ctx4);
            let (scenes6, ctx6, a2) = apply_spec(r2->Ok_0, scenes5, ctx5);
            &&& update_walk_spec(scenes, ctx, elapsed_time, scenes.len(), Seq::empty()) == (
                walked,
                ctx4,
                Ok::<Seq<Transition<S>>, S::Error>(ops),
            )
            &&& a1 is Err ==> frame_update_spec(scenes, ctx, elapsed_time) == (
                scenes5,
                ctx5,
                Err::<bool, S::Error>(a1->Err_0),
            )
            &&& a1 is Ok && a2 is Err ==> frame_update_spec(scenes, ctx, elapsed_time) == (
                scenes6,
                ctx6,
                Err::<bool, S::Error>(a2->Err_0),
            )
            &&& a1 is Ok && a2 is Ok ==> frame_update_spec(scenes, ctx, elapsed_time) == (
                scenes6,
                ctx6,
                Ok::<bool, S::Error>(scenes6.len() > 0),
            )
        }),
{
    reveal_with_fuel(update_walk_spec, 3);
    reveal_with_fuel(apply_all_spec, 3);
    let n = scenes.len() as int;
    let (top, ctx1, r1) = scenes.last().update_spec(ctx, elapsed_time);
    let (second, ctx3, r2) = scenes[n - 2].update_spec(top.draw_next_spec(ctx1).0, elapsed_time);
    let ops = seq![r1->Ok_0, r2->Ok_0];
    assert(Seq::<Transition<S>>::empty().push(r1->Ok_0).push(r2->Ok_0) =~= ops);
    assert(ops.drop_first() =~= seq![r2->Ok_0]);
    assert(ops.drop_first().drop_first() =~= Seq::<Transition<S>>::empty());
    assert(scenes.update(n - 1, top)[n - 2] == scenes[n - 2]);
}

/// When the top scene consumes an event the walk ends there, whatever the
/// scene's `draw_next` would say: no other scene gets the event, only the
/// transition of the top is applied, and the dispatch reports the event
/// as consumed.
pub proof fn law_handled_event_stops_walk<S: Scene>(scenes: Seq<S>, ctx: S::Context, event: S::Event)
    requires
        scenes.len() > 0,
        scenes.last().event_spec(ctx, event).2 is Ok,
        (scenes.last().event_spec(ctx, event).2->Ok_0).0,
    ensures
        ({
            let (top, ctx1, r) = scenes.last().event_spec(ctx, event);
            let t = (r->Ok_0).1;
            let (scenes2, ctx2, applied) = apply_spec(t, with_top(scenes, top), ctx1);
            &&& event_walk_spec(scenes, ctx, event, scenes.len(), Seq::empty()) == (
                with_top(scenes, top),
                ctx1,
                Ok::<(bool, Seq<Transition<S>>), S::Error>((true, seq![t])),
            )
            &&& applied is Ok ==> frame_event_spec(scenes, ctx, event) == (
                scenes2,
                ctx2,
                Ok::<bool, S::Error>(true),
            )
            &&& applied is Err ==> frame_event_spec(scenes, ctx, event) == (
                scenes2,
                ctx2,
                Err::<bool, S::Error>(applied->Err_0),
            )
        }),
{
    reveal_with_fuel(apply_all_spec, 2);
    let (top, ctx1, r) = scenes.last().event_spec(ctx, event);
    let t = (r->Ok_0).1;
    assert(Seq::<Transition<S>>::empty().push(t) =~= seq![t]);
    assert(seq![t].drop_first() =~= Seq::<Transition<S>>::empty());
}

/// When an update fails during the walk, the frame ends with that failure
/// and with the stack and context as the walk left them: no transition
/// gathered before the failure is applied, so no scene is added or
/// removed.
pub proof fn law_failed_update_applies_nothing<S: Scene>(
    scenes: Seq<S>,
    ctx: S::Context,
    elapsed_time: S::Time,
)
    requires
        update_walk_spec(scenes, ctx, elapsed_time, scenes.len(), Seq::empty()).2 is Err,
    ensures
        ({
            let walked = update_walk_spec(scenes, ctx, elapsed_time, scenes.len(), Seq::empty());
            &&& frame_update_spec(scenes, ctx, elapsed_time) == (
                walked.0,
                walked.1,
                Err::<bool, S::Error>(walked.2->Err_0),
            )
            &&& frame_update_spec(scenes, ctx, elapsed_time).0.len() == scenes.len()
        }),
{
    law_update_walk_keeps_len(scenes, ctx, elapsed_time, scenes.len(), Seq::empty());
}

/// When a scene fails on an event during the walk, the dispatch ends with
/// that failure and with the stack and context as the walk left them: no
/// gathered transition is applied.
pub proof fn law_failed_event_applies_nothing<S: Scene>(
    scenes: Seq<S>,
    ctx: S::Context,
    event: S::Event,
)
    requires
        event_walk_spec(scenes, ctx, event, scenes.len(), Seq::empty()).2 is Err,
    ensures
        ({
            let walked = event_walk_spec(scenes, ctx, event, scenes.len(), Seq::empty());
            &&& frame_event_spec(scenes, ctx, event) == (
                walked.0,
                walked.1,
                Err::<bool, S::Error>(walked.2->Err_0),
            )
            &&& frame_event_spec(scenes, ctx, event).0.len() == scenes.len()
        }),
{
    law_event_walk_keeps_len(scenes, ctx, event, scenes.len(), Seq::empty());
}

/// When the update of a scene fails, the scenes below it are not visited:
/// here the top lets the scene below it take part and asks for a
/// transition, the update of that scene fails, and the frame ends with
/// only these two scenes touched and the transition of the top dropped.
pub proof fn law_failed_update_ends_walk<S: Scene>(
    scenes: Seq<S>,
    ctx: S::Context,
    elapsed_time: S::Time,
)
    requires
        scenes.len() >= 2,
        scenes.last().update_spec(ctx, elapsed_time).2 is Ok,
        ({
            let (top, ctx1, _r) = scenes.last().update_spec(ctx, elapsed_time);
            let (ctx2, goes_on) = top.draw_next_spec(ctx1);
            goes_on && scenes[scenes.len() - 2].update_spec(ctx2, elapsed_time).2 is Err
        }),
    ensures
        ({
            let n = scenes.len() as int;
            let (top, ctx1, _r) = scenes.last().update_spec(ctx, elapsed_time);
            let (ctx2, _d) = top.draw_next_spec(ctx1);
            let (second, ctx3, r) = scenes[n - 2].update_spec(ctx2, elapsed_time);
            frame_update_spec(scenes, ctx, elapsed_time) == (
                scenes.update(n - 1, top).update(n - 2, second),
                ctx3,
                Err::<bool, S::Error>(r->Err_0),
            )
        }),
{
    reveal_with_fuel(update_walk_spec, 3);
    let n = scenes.len() as int;
    let (top, ctx1, _r) = scenes.last().update_spec(ctx, elapsed_time);
    assert(scenes.update(n - 1, top)[n - 2] == scenes[n - 2]);
}

/// A frame on an empty stack visits nothing, changes nothing and tells the
/// host to stop; an event on an empty stack is not consumed.
pub proof fn law_empty_stack_frames<S: Scene>(
    ctx: S::Context,
    elapsed_time: S::Time,
    event: S::Event,
)
    ensures
        frame_update_spec(Seq::<S>::empty(), ctx, elapsed_time) == (
            Seq::<S>::empty(),
            ctx,
            Ok::<bool, S::Error>(false),
        ),
        frame_event_spec(Seq::<S>::empty(), ctx, event) == (
            Seq::<S>::empty(),
            ctx,
            Ok::<bool, S::Error>(false),
        ),
{
}

/// A push that succeeds leaves a stack that is not empty, so that the
/// manager tells the host to run; this holds of the direct push and of
/// the `Push` transition.
pub proof fn law_pushed_stack_is_not_empty<S: Scene>(scenes: Seq<S>, new: S, ctx: S::Context)
    ensures
        enter_top_spec(scenes, ctx, new).2 is Ok ==> enter_top_spec(scenes, ctx, new).0.len()
            == scenes.len() + 1,
        push_spec(scenes, ctx, new).2 is Ok ==> push_spec(scenes, ctx, new).0.len() == scenes.len()
            + 1,
{
}

} // verus!

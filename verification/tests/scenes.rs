use scene_manager::{Scene, SceneManager, Transition};

/// What a recording scene answers on its next update or event.
enum Plan {
    Stay,
    Pop,
    Push(Box<Rec>),
    Replace(Box<Rec>),
    Fail,
}

/// A scene that writes every callback it gets into the context.
struct Rec {
    name: &'static str,
    draws: bool,
    handles: bool,
    plan: Plan,
    failing: &'static str,
}

fn rec(name: &'static str) -> Rec {
    Rec { name, draws: false, handles: false, plan: Plan::Stay, failing: "" }
}

impl Rec {
    fn draws(mut self, draws: bool) -> Rec {
        self.draws = draws;
        self
    }

    fn handles(mut self, handles: bool) -> Rec {
        self.handles = handles;
        self
    }

    fn plan(mut self, plan: Plan) -> Rec {
        self.plan = plan;
        self
    }

    fn failing(mut self, callback: &'static str) -> Rec {
        self.failing = callback;
        self
    }

    fn note(&self, ctx: &mut Vec<String>, callback: &str) -> Result<(), String> {
        let line = format!("{}.{}", self.name, callback);
        ctx.push(line.clone());
        if self.failing == callback {
            Err(line)
        } else {
            Ok(())
        }
    }

    fn next(&mut self, what: &str) -> Result<Transition<Rec>, String> {
        match std::mem::replace(&mut self.plan, Plan::Stay) {
            Plan::Stay => Ok(Transition::Nothing),
            Plan::Pop => Ok(Transition::Pop),
            Plan::Push(s) => Ok(Transition::push(*s)),
            Plan::Replace(s) => Ok(Transition::replace(*s)),
            Plan::Fail => Err(format!("{}.{}", self.name, what)),
        }
    }
}

impl Scene for Rec {
    type Context = Vec<String>;
    type Time = f64;
    type Event = u32;
    type Error = String;

    fn on_enter(&mut self, ctx: &mut Vec<String>) -> Result<(), String> {
        self.note(ctx, "on_enter")
    }

    fn on_leave(&mut self, ctx: &mut Vec<String>) -> Result<(), String> {
        self.note(ctx, "on_leave")
    }

    fn on_pause(&mut self, ctx: &mut Vec<String>, should_draw: bool) -> Result<(), String> {
        ctx.push(format!("{}.on_pause({})", self.name, should_draw));
        if self.failing == "on_pause" {
            Err(format!("{}.on_pause", self.name))
        } else {
            Ok(())
        }
    }

    fn on_unpause(&mut self, ctx: &mut Vec<String>) -> Result<(), String> {
        self.note(ctx, "on_unpause")
    }

    fn on_update(&mut self, ctx: &mut Vec<String>, elapsed_time: &f64) -> Result<Transition<Rec>, String> {
        ctx.push(format!("{}.on_update({})", self.name, elapsed_time));
        self.next("on_update")
    }

    fn on_event(&mut self, ctx: &mut Vec<String>, event: &u32) -> Result<(bool, Transition<Rec>), String> {
        ctx.push(format!("{}.on_event({})", self.name, event));
        let t = self.next("on_event")?;
        Ok((self.handles, t))
    }

    fn draw_next(&self, ctx: &mut Vec<String>) -> bool {
        ctx.push(format!("{}.draw_next", self.name));
        self.draws
    }
}

fn manager_with(scenes: Vec<Rec>) -> SceneManager<Rec> {
    let mut m = SceneManager::new(Vec::new());
    for s in scenes {
        m.push(s).unwrap();
    }
    m.ctx.clear();
    m
}

/// The names of the scenes on the stack, top first. Empties the stack.
fn unstack(m: &mut SceneManager<Rec>) -> Vec<&'static str> {
    let mut names = Vec::new();
    while let Some(s) = m.pop().unwrap() {
        names.push(s.name);
    }
    names
}

#[test]
fn new_manager_has_no_scene_and_keeps_its_context() {
    let mut m: SceneManager<Rec> = SceneManager::new(vec!["start".to_string()]);
    assert_eq!(m.ctx, vec!["start"]);
    assert!(!m.on_create());
    assert!(m.pop().unwrap().is_none());
}

#[test]
fn push_transition_on_empty_stack_only_enters() {
    let mut m = manager_with(vec![]);
    assert_eq!(m.apply(Transition::push(rec("A").draws(true))), Ok(()));
    assert_eq!(m.ctx, vec!["A.on_enter"]);
    assert_eq!(unstack(&mut m), vec!["A"]);
}

#[test]
fn direct_push_only_enters_even_over_a_scene() {
    let mut m = manager_with(vec![rec("A")]);
    assert_eq!(m.push(rec("B").draws(true)), Ok(()));
    assert_eq!(m.ctx, vec!["B.on_enter"]);
    assert_eq!(unstack(&mut m), vec!["B", "A"]);
}

#[test]
fn push_transition_pauses_top_with_the_answer_of_the_new_scene() {
    let mut m = manager_with(vec![rec("A")]);
    assert_eq!(m.apply(Transition::push(rec("B").draws(true))), Ok(()));
    assert_eq!(m.ctx, vec!["B.draw_next", "A.on_pause(true)", "B.on_enter"]);
    assert_eq!(unstack(&mut m), vec!["B", "A"]);

    let mut m = manager_with(vec![rec("A")]);
    assert_eq!(m.apply(Transition::push(rec("B"))), Ok(()));
    assert_eq!(m.ctx, vec!["B.draw_next", "A.on_pause(false)", "B.on_enter"]);
}

#[test]
fn push_transition_stops_when_pause_fails() {
    let mut m = manager_with(vec![rec("A").failing("on_pause")]);
    assert_eq!(m.apply(Transition::push(rec("B"))), Err("A.on_pause".to_string()));
    assert_eq!(m.ctx, vec!["B.draw_next", "A.on_pause(false)"]);
    assert_eq!(unstack(&mut m), vec!["A"]);
}

#[test]
fn push_transition_drops_a_scene_that_fails_to_enter() {
    let mut m = manager_with(vec![rec("A")]);
    assert_eq!(
        m.apply(Transition::push(rec("B").failing("on_enter"))),
        Err("B.on_enter".to_string())
    );
    assert_eq!(m.ctx, vec!["B.draw_next", "A.on_pause(false)", "B.on_enter"]);
    assert_eq!(unstack(&mut m), vec!["A"]);
}

#[test]
fn direct_push_drops_a_scene_that_fails_to_enter() {
    let mut m = manager_with(vec![]);
    assert_eq!(m.push(rec("A").failing("on_enter")), Err("A.on_enter".to_string()));
    assert!(!m.on_create());
}

#[test]
fn replace_transition_pauses_enters_then_leaves() {
    let mut m = manager_with(vec![rec("Z"), rec("A")]);
    assert_eq!(m.apply(Transition::replace(rec("B").draws(true))), Ok(()));
    assert_eq!(m.ctx, vec!["B.draw_next", "A.on_pause(true)", "B.on_enter", "A.on_leave"]);
    assert_eq!(unstack(&mut m), vec!["B", "Z"]);
}

#[test]
fn replace_transition_keeps_the_top_when_enter_fails() {
    let mut m = manager_with(vec![rec("A")]);
    assert_eq!(
        m.apply(Transition::replace(rec("B").failing("on_enter"))),
        Err("B.on_enter".to_string())
    );
    assert_eq!(m.ctx, vec!["B.draw_next", "A.on_pause(false)", "B.on_enter"]);
    assert_eq!(unstack(&mut m), vec!["A"]);
}

#[test]
fn replace_transition_has_swapped_when_leave_fails() {
    let mut m = manager_with(vec![rec("A").failing("on_leave")]);
    assert_eq!(m.apply(Transition::replace(rec("B"))), Err("A.on_leave".to_string()));
    assert_eq!(m.ctx.len(), 4);
    let top = m.pop().unwrap().unwrap();
    assert_eq!(top.name, "B");
}

#[test]
fn direct_replace_enters_then_leaves_and_hands_out_the_old_top() {
    let mut m = manager_with(vec![rec("Z"), rec("A")]);
    let old = m.replace(rec("B")).unwrap();
    assert_eq!(old.name, "A");
    assert_eq!(m.ctx, vec!["B.on_enter", "A.on_leave"]);
    assert_eq!(unstack(&mut m), vec!["B", "Z"]);
}

#[test]
fn direct_replace_keeps_the_top_when_enter_fails() {
    let mut m = manager_with(vec![rec("A")]);
    let r = m.replace(rec("B").failing("on_enter"));
    assert_eq!(r.err(), Some("B.on_enter".to_string()));
    assert_eq!(m.ctx, vec!["B.on_enter"]);
    assert_eq!(unstack(&mut m), vec!["A"]);
}

#[test]
fn popping_the_only_scene_leaves_and_empties_the_stack() {
    let mut m = manager_with(vec![rec("A")]);
    let gone = m.pop().unwrap();
    assert_eq!(gone.map(|s| s.name), Some("A"));
    assert_eq!(m.ctx, vec!["A.on_leave"]);
    assert!(!m.on_create());

    let again = m.pop().unwrap();
    assert!(again.is_none());
    assert_eq!(m.ctx, vec!["A.on_leave"]);
}

#[test]
fn pop_transition_on_only_scene_then_on_empty_stack() {
    let mut m = manager_with(vec![rec("A")]);
    assert_eq!(m.apply(Transition::Pop), Ok(()));
    assert_eq!(m.ctx, vec!["A.on_leave"]);
    assert!(!m.on_create());
    assert_eq!(m.apply(Transition::Pop), Ok(()));
    assert_eq!(m.ctx, vec!["A.on_leave"]);
}

#[test]
fn pop_transition_leaves_then_unpauses_the_new_top() {
    let mut m = manager_with(vec![rec("A"), rec("B")]);
    assert_eq!(m.apply(Transition::Pop), Ok(()));
    assert_eq!(m.ctx, vec!["B.on_leave", "A.on_unpause"]);
    assert_eq!(unstack(&mut m), vec!["A"]);
}

#[test]
fn pop_transition_has_removed_the_scene_when_leave_fails() {
    let mut m = manager_with(vec![rec("A"), rec("B").failing("on_leave")]);
    assert_eq!(m.apply(Transition::Pop), Err("B.on_leave".to_string()));
    assert_eq!(m.ctx, vec!["B.on_leave"]);
    assert_eq!(unstack(&mut m), vec!["A"]);
}

#[test]
fn direct_pop_does_not_unpause() {
    let mut m = manager_with(vec![rec("A"), rec("B")]);
    let gone = m.pop().unwrap();
    assert_eq!(gone.map(|s| s.name), Some("B"));
    assert_eq!(m.ctx, vec!["B.on_leave"]);
}

#[test]
fn direct_pop_surfaces_a_failing_leave() {
    let mut m = manager_with(vec![rec("A").failing("on_leave")]);
    assert_eq!(m.pop().err(), Some("A.on_leave".to_string()));
    assert!(!m.on_create());
}

#[test]
fn nothing_transition_changes_nothing() {
    let mut m = manager_with(vec![rec("A")]);
    assert_eq!(m.apply(Transition::Nothing), Ok(()));
    assert!(m.ctx.is_empty());
    assert_eq!(unstack(&mut m), vec!["A"]);
}

#[test]
fn update_walks_down_while_scenes_draw_through() {
    let a = rec("A").plan(Plan::Pop);
    let b = rec("B").plan(Plan::Push(Box::new(rec("D"))));
    let c = rec("C").draws(true).plan(Plan::Pop);
    let mut m = manager_with(vec![a, b, c]);
    assert_eq!(m.on_update(&0.5), Ok(true));
    assert_eq!(
        m.ctx,
        vec![
            "C.on_update(0.5)",
            "C.draw_next",
            "B.on_update(0.5)",
            "B.draw_next",
            "C.on_leave",
            "B.on_unpause",
            "D.draw_next",
            "B.on_pause(false)",
            "D.on_enter",
        ]
    );
    assert_eq!(unstack(&mut m), vec!["D", "B", "A"]);
}

#[test]
fn update_visits_only_the_top_by_default() {
    let mut m = manager_with(vec![rec("A"), rec("B")]);
    assert_eq!(m.on_update(&1.0), Ok(true));
    assert_eq!(m.ctx, vec!["B.on_update(1)", "B.draw_next"]);
}

#[test]
fn update_asks_the_bottom_scene_too() {
    let mut m = manager_with(vec![rec("A").draws(true), rec("B").draws(true)]);
    assert_eq!(m.on_update(&2.0), Ok(true));
    assert_eq!(
        m.ctx,
        vec!["B.on_update(2)", "B.draw_next", "A.on_update(2)", "A.draw_next"]
    );
}

#[test]
fn update_reports_an_emptied_stack() {
    let mut m = manager_with(vec![rec("A").plan(Plan::Pop)]);
    assert_eq!(m.on_update(&0.0), Ok(false));
    assert_eq!(m.ctx, vec!["A.on_update(0)", "A.draw_next", "A.on_leave"]);
    assert_eq!(m.on_update(&0.0), Ok(false));
    assert_eq!(m.ctx.len(), 3);
}

#[test]
fn update_replaces_from_within_a_frame() {
    let mut m = manager_with(vec![rec("A").plan(Plan::Replace(Box::new(rec("B"))))]);
    assert_eq!(m.on_update(&0.0), Ok(true));
    assert_eq!(
        m.ctx,
        vec![
            "A.on_update(0)",
            "A.draw_next",
            "B.draw_next",
            "A.on_pause(false)",
            "B.on_enter",
            "A.on_leave",
        ]
    );
    assert_eq!(unstack(&mut m), vec!["B"]);
}

#[test]
fn failing_update_ends_the_walk_and_applies_nothing() {
    let a = rec("A");
    let b = rec("B").draws(true).plan(Plan::Fail);
    let c = rec("C").draws(true).plan(Plan::Push(Box::new(rec("D"))));
    let mut m = manager_with(vec![a, b, c]);
    assert_eq!(m.on_update(&3.0), Err("B.on_update".to_string()));
    assert_eq!(m.ctx, vec!["C.on_update(3)", "C.draw_next", "B.on_update(3)"]);

    m.ctx.clear();
    assert_eq!(m.on_update(&4.0), Ok(true));
    assert_eq!(
        m.ctx,
        vec![
            "C.on_update(4)",
            "C.draw_next",
            "B.on_update(4)",
            "B.draw_next",
            "A.on_update(4)",
            "A.draw_next",
        ]
    );
    assert_eq!(unstack(&mut m), vec!["C", "B", "A"]);
}

#[test]
fn failing_transition_drops_the_transitions_after_it() {
    let a = rec("A").plan(Plan::Push(Box::new(rec("E"))));
    let b = rec("B").draws(true).plan(Plan::Push(Box::new(rec("D").failing("on_enter"))));
    let mut m = manager_with(vec![a, b]);
    assert_eq!(m.on_update(&0.0), Err("D.on_enter".to_string()));
    m.ctx.clear();
    assert_eq!(m.on_update(&0.0), Ok(true));
    assert_eq!(unstack(&mut m), vec!["B", "A"]);
}

#[test]
fn handled_event_stops_the_walk_whatever_draw_next_says() {
    let b = rec("B");
    let c = rec("C").draws(true).handles(true).plan(Plan::Pop);
    let mut m = manager_with(vec![b, c]);
    assert_eq!(m.on_event(&7), Ok(true));
    assert_eq!(m.ctx, vec!["C.on_event(7)", "C.on_leave", "B.on_unpause"]);
    assert_eq!(unstack(&mut m), vec!["B"]);
}

#[test]
fn unhandled_event_goes_down_while_scenes_draw_through() {
    let a = rec("A").handles(true);
    let b = rec("B");
    let c = rec("C").draws(true);
    let mut m = manager_with(vec![a, b, c]);
    assert_eq!(m.on_event(&1), Ok(false));
    assert_eq!(
        m.ctx,
        vec!["C.on_event(1)", "C.draw_next", "B.on_event(1)", "B.draw_next"]
    );
}

#[test]
fn event_handled_further_down_counts_as_handled() {
    let b = rec("B").handles(true).plan(Plan::Push(Box::new(rec("D"))));
    let c = rec("C").draws(true).plan(Plan::Pop);
    let mut m = manager_with(vec![b, c]);
    assert_eq!(m.on_event(&2), Ok(true));
    assert_eq!(
        m.ctx,
        vec![
            "C.on_event(2)",
            "C.draw_next",
            "B.on_event(2)",
            "C.on_leave",
            "B.on_unpause",
            "D.draw_next",
            "B.on_pause(false)",
            "D.on_enter",
        ]
    );
    assert_eq!(unstack(&mut m), vec!["D", "B"]);
}

#[test]
fn event_that_empties_the_stack_is_still_reported_by_its_handling() {
    let mut m = manager_with(vec![rec("A").handles(true).plan(Plan::Pop)]);
    assert_eq!(m.on_event(&3), Ok(true));
    assert!(!m.on_create());
    assert_eq!(m.on_event(&3), Ok(false));
}

#[test]
fn failing_event_ends_the_walk_and_applies_nothing() {
    let b = rec("B").plan(Plan::Fail);
    let c = rec("C").draws(true).plan(Plan::Pop);
    let mut m = manager_with(vec![b, c]);
    assert_eq!(m.on_event(&9), Err("B.on_event".to_string()));
    assert_eq!(m.ctx, vec!["C.on_event(9)", "C.draw_next", "B.on_event(9)"]);
    m.ctx.clear();
    assert_eq!(m.on_event(&9), Ok(false));
    assert_eq!(unstack(&mut m), vec!["C", "B"]);
}

#[test]
fn on_create_tells_whether_a_scene_was_pushed() {
    let mut m: SceneManager<Rec> = SceneManager::new(Vec::new());
    assert!(!m.on_create());
    m.push(rec("A")).unwrap();
    assert!(m.on_create());
    assert_eq!(m.ctx, vec!["A.on_enter"]);
}

#[test]
fn constructors_make_the_matching_variants() {
    assert!(matches!(Transition::push(rec("A")), Transition::Push(s) if s.name == "A"));
    assert!(matches!(Transition::replace(rec("B")), Transition::Replace(s) if s.name == "B"));
}

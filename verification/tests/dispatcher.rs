use panekit::action::Action;
use panekit::components::{Home, Keys, Note, Panel};
use panekit::dispatch::{active_for, Dispatcher, Phase};
use panekit::layout::Rect;
use panekit::mode::Mode;

fn three_panel_dispatcher() -> Dispatcher {
    let mut d = Dispatcher::new(Mode::Home);
    d.register(Panel::Keys(Keys::new()));
    d.register(Panel::Home(Home::new()));
    d.register(Panel::Note(Note::new()));
    d
}

#[test]
fn registration_order_is_kept() {
    let d = three_panel_dispatcher();
    assert_eq!(d.panels.len(), 3);
    assert!(matches!(d.panels[0], Panel::Keys(_)));
    assert!(matches!(d.panels[1], Panel::Home(_)));
    assert!(matches!(d.panels[2], Panel::Note(_)));
}

#[test]
fn actions_are_processed_in_fifo_order() {
    // two switches cancel out only if both are applied, in order, once each
    let mut d = three_panel_dispatcher();
    d.update_phase(vec![Action::Switch, Action::Tick, Action::Switch]);
    assert_eq!(d.mode, Mode::Home);
    match &d.panels[0] {
        Panel::Keys(k) => assert_eq!(k.mode, Mode::Home),
        _ => panic!("first panel must be the status panel"),
    }
    d.update_phase(vec![Action::Switch]);
    assert_eq!(d.mode, Mode::Note);
    match &d.panels[0] {
        Panel::Keys(k) => assert_eq!(k.mode, Mode::Note),
        _ => panic!("first panel must be the status panel"),
    }
}

#[test]
fn switch_scenario_changes_the_active_set() {
    // initial mode Home, one Switch arrives: mode becomes Note, the note
    // panel becomes active next frame and the home panel inactive
    let mut d = three_panel_dispatcher();
    d.update_phase(vec![Action::Switch]);
    assert_eq!(d.mode, Mode::Note);
    let plan = d.draw_plan(Rect::new(0, 0, 20, 12));
    let drawn: Vec<usize> = plan.iter().map(|s| s.index).collect();
    // the status panel's cached mode followed the switch, so it stays active
    assert_eq!(drawn, vec![0, 2]);
}

#[test]
fn active_panels_share_the_frame_without_overlap() {
    // two active panels on a 10x10 frame get the two disjoint halves
    let mut d = Dispatcher::new(Mode::Home);
    d.register(Panel::Keys(Keys::new()));
    d.register(Panel::Home(Home::new()));
    let plan = d.draw_plan(Rect::new(0, 0, 10, 10));
    assert_eq!(plan.len(), 2);
    assert_eq!(plan[0].index, 0);
    assert_eq!(plan[0].area, Rect { x: 0, y: 0, width: 10, height: 5 });
    assert_eq!(plan[1].index, 1);
    assert_eq!(plan[1].area, Rect { x: 0, y: 5, width: 10, height: 5 });
    assert!(plan[0].area.y + plan[0].area.height <= plan[1].area.y);
}

#[test]
fn three_bands_use_the_remainder() {
    let mut d = Dispatcher::new(Mode::Home);
    d.register(Panel::Keys(Keys::new()));
    d.register(Panel::Home(Home::new()));
    d.register(Panel::Keys(Keys::new()));
    let plan = d.draw_plan(Rect::new(0, 0, 12, 10));
    assert_eq!(plan.len(), 3);
    assert_eq!(plan[0].area, Rect { x: 0, y: 0, width: 12, height: 3 });
    assert_eq!(plan[1].area, Rect { x: 0, y: 3, width: 12, height: 3 });
    assert_eq!(plan[2].area, Rect { x: 0, y: 6, width: 12, height: 4 });
}

#[test]
fn mode_agnostic_panels_are_always_drawn() {
    // the active-set rule itself: no identity means always drawn, a matching
    // identity means drawn, a differing one means not drawn
    assert!(active_for(None, Mode::Home));
    assert!(active_for(None, Mode::Note));
    assert!(active_for(Some(Mode::Home), Mode::Home));
    assert!(!active_for(Some(Mode::Note), Mode::Home));
    assert!(!active_for(Some(Mode::Home), Mode::Note));
}

#[test]
fn inactive_panels_get_no_rectangle() {
    let d = three_panel_dispatcher();
    let plan = d.draw_plan(Rect::new(0, 0, 20, 12));
    let drawn: Vec<usize> = plan.iter().map(|s| s.index).collect();
    // under Home the note panel stays undrawn
    assert_eq!(drawn, vec![0, 1]);
}

#[test]
fn deferred_actions_run_at_the_start_of_the_next_cycle() {
    // whatever sits in the pending queue is processed before the incoming
    // batch of the cycle that drains it
    let mut d = three_panel_dispatcher();
    d.pending = vec![Action::Switch];
    d.update_phase(vec![Action::Quit]);
    assert_eq!(d.mode, Mode::Note);
    assert_eq!(d.phase, Phase::ShutDown);
}

#[test]
fn no_follow_ups_are_produced_by_the_current_panels() {
    let mut d = three_panel_dispatcher();
    d.update_phase(vec![Action::Tick, Action::Render, Action::Switch]);
    assert!(d.pending.is_empty());
}

#[test]
fn quit_shuts_down_and_later_batches_are_ignored() {
    let mut d = three_panel_dispatcher();
    d.update_phase(vec![Action::Quit]);
    assert_eq!(d.phase, Phase::ShutDown);
    d.update_phase(vec![Action::Switch]);
    assert_eq!(d.mode, Mode::Home);
    assert_eq!(d.phase, Phase::ShutDown);
}

#[test]
fn end_of_stream_shuts_down() {
    let mut d = three_panel_dispatcher();
    d.channel_closed();
    assert_eq!(d.phase, Phase::ShutDown);
    d.update_phase(vec![Action::Switch]);
    assert_eq!(d.mode, Mode::Home);
}

#[test]
fn empty_frame_plan_for_no_panels() {
    let d = Dispatcher::new(Mode::Home);
    let plan = d.draw_plan(Rect::new(0, 0, 10, 10));
    assert!(plan.is_empty());
}

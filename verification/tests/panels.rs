use panekit::action::Action;
use panekit::components::{
    Home, HomeLayout, Keys, KeysLayout, Note, NoteLayout, Panel, PanelError, PanelLayout,
};
use panekit::config::{Binding, Config, KeyBindings, KeyChord, KeyMod};
use panekit::layout::Rect;
use panekit::mode::Mode;

#[test]
fn new_panels_are_unregistered() {
    let h = Home::new();
    assert!(h.command_tx.is_none());
    assert!(h.config.is_none());
    let k = Keys::new();
    assert!(k.command_tx.is_none());
    assert!(k.config.is_none());
    assert_eq!(k.mode, Mode::Home);
    let n = Note::new();
    assert!(n.command_tx.is_none());
    assert!(n.config.is_none());
}

#[test]
fn registration_stores_both_handles() {
    let (tx, _rx) = tokio::sync::mpsc::unbounded_channel::<Action>();
    let mut h = Home::new();
    assert!(h.register_action_handler(tx.clone()).is_ok());
    assert!(h.register_config_handler(Config::default()).is_ok());
    assert!(h.command_tx.is_some());
    assert!(h.config.is_some());
    let mut k = Keys::new();
    assert!(k.register_action_handler(tx.clone()).is_ok());
    assert!(k.register_config_handler(Config::default()).is_ok());
    let mut n = Note::new();
    assert!(n.register_action_handler(tx).is_ok());
    assert!(n.register_config_handler(Config::default()).is_ok());
}

#[test]
fn mode_identities() {
    assert_eq!(Home::new().mode(), Some(Mode::Home));
    assert_eq!(Note::new().mode(), Some(Mode::Note));
    let mut k = Keys::new();
    assert_eq!(k.mode(), Some(Mode::Home));
    k.update(Action::Switch).unwrap();
    assert_eq!(k.mode(), Some(Mode::Note));
}

#[test]
fn update_before_registration_is_a_defined_no_op() {
    // a fresh, unregistered panel takes updates without any fault
    let mut h = Home::new();
    assert_eq!(h.update(Action::Tick), Ok(None));
    assert_eq!(h.update(Action::Render), Ok(None));
    let mut n = Note::new();
    assert_eq!(n.update(Action::Switch), Ok(None));
    let mut k = Keys::new();
    assert_eq!(k.update(Action::Quit), Ok(None));
}

#[test]
fn draw_before_registration_is_defined() {
    // a fresh, unregistered panel plans its draw without any fault
    let area = Rect::new(0, 0, 20, 12);
    assert!(Home::new().draw_plan(area).is_ok());
    assert!(Keys::new().draw_plan(area).is_ok());
    assert!(Note::new().draw_plan(area).is_ok());
}

#[test]
fn binding_rows_are_empty_before_registration() {
    // acting on configuration before registration is a defined no-op
    assert!(Home::new().binding_rows().is_empty());
}

#[test]
fn binding_rows_come_from_the_registered_config() {
    let config = Config {
        keybindings: KeyBindings {
            home: vec![Binding {
                keys: vec![KeyChord { modifier: KeyMod::Plain, code: 'q' }],
                action: Action::Quit,
            }],
            note: Vec::new(),
        },
    };
    let mut h = Home::new();
    h.register_config_handler(config).unwrap();
    let rows = h.binding_rows();
    assert_eq!(rows.len(), 1);
    assert_eq!(rows[0].action, Action::Quit);
    assert_eq!(rows[0].chords, vec![KeyChord { modifier: KeyMod::Plain, code: 'q' }]);
}

#[test]
fn keys_update_ignores_everything_but_switch() {
    let mut k = Keys::new();
    assert_eq!(k.update(Action::Tick), Ok(None));
    assert_eq!(k.mode, Mode::Home);
    assert_eq!(k.update(Action::Switch), Ok(None));
    assert_eq!(k.mode, Mode::Note);
}

#[test]
fn home_draw_plan_layout() {
    let area = Rect::new(0, 0, 10, 14);
    let l = Home::new().draw_plan(area).unwrap();
    assert_eq!(
        l,
        HomeLayout {
            tabs: area,
            text: Rect { x: 0, y: 2, width: 10, height: 5 },
            keys: Rect { x: 0, y: 7, width: 10, height: 5 },
        }
    );
}

#[test]
fn keys_draw_plan_is_the_first_row() {
    let area = Rect::new(0, 0, 30, 10);
    let l = Keys::new().draw_plan(area).unwrap();
    assert_eq!(l, KeysLayout { status: Rect { x: 0, y: 0, width: 30, height: 1 } });
}

#[test]
fn note_draw_plan_layout() {
    let area = Rect::new(0, 0, 9, 10);
    let l = Note::new().draw_plan(area).unwrap();
    assert_eq!(
        l,
        NoteLayout {
            tabs: area,
            text: Rect { x: 0, y: 2, width: 3, height: 6 },
            side: Rect { x: 3, y: 2, width: 6, height: 6 },
        }
    );
}

#[test]
fn zero_area_draw_is_the_one_recoverable_error() {
    let empty = Rect::new(4, 4, 0, 3);
    assert_eq!(Home::new().draw_plan(empty), Err(PanelError::UnusableArea));
    assert_eq!(Keys::new().draw_plan(empty), Err(PanelError::UnusableArea));
    assert_eq!(Note::new().draw_plan(empty), Err(PanelError::UnusableArea));
    let flat = Rect::new(0, 0, 10, 0);
    assert_eq!(Home::new().draw_plan(flat), Err(PanelError::UnusableArea));
}

#[test]
fn panel_union_dispatches_uniformly() {
    let mut p = Panel::Keys(Keys::new());
    assert_eq!(p.mode(), Some(Mode::Home));
    assert_eq!(p.update(Action::Switch), Ok(None));
    assert_eq!(p.mode(), Some(Mode::Note));
    let area = Rect::new(0, 0, 8, 6);
    match p.draw_plan(area) {
        Ok(PanelLayout::Keys(l)) => {
            assert_eq!(l.status, Rect { x: 0, y: 0, width: 8, height: 1 });
        }
        other => panic!("unexpected plan: {other:?}"),
    }
    let hp = Panel::Home(Home::new());
    assert!(matches!(hp.draw_plan(area), Ok(PanelLayout::Home(_))));
}

use panekit::action::Action;
use panekit::config::{
    grouped_bindings, Binding, Config, KeyBindings, KeyChord, KeyMod,
};
use panekit::mode::Mode;

fn chord(modifier: KeyMod, code: char) -> KeyChord {
    KeyChord { modifier, code }
}

#[test]
fn default_config_has_no_bindings() {
    let c = Config::default();
    assert!(c.keybindings.home.is_empty());
    assert!(c.keybindings.note.is_empty());
}

#[test]
fn for_mode_picks_the_right_list() {
    let kb = KeyBindings {
        home: vec![Binding { keys: vec![chord(KeyMod::Plain, 'q')], action: Action::Quit }],
        note: vec![Binding { keys: vec![chord(KeyMod::Plain, 's')], action: Action::Switch }],
    };
    assert_eq!(kb.for_mode(Mode::Home).len(), 1);
    assert_eq!(kb.for_mode(Mode::Home)[0].action, Action::Quit);
    assert_eq!(kb.for_mode(Mode::Note)[0].action, Action::Switch);
}

#[test]
fn grouping_orders_and_merges_chords() {
    // two bindings for Switch merge into one row; display order puts Quit first
    let bindings = vec![
        Binding { keys: vec![chord(KeyMod::Plain, 's')], action: Action::Switch },
        Binding { keys: vec![chord(KeyMod::Plain, 'q')], action: Action::Quit },
        Binding { keys: vec![chord(KeyMod::Ctrl, 'w')], action: Action::Switch },
    ];
    let groups = grouped_bindings(&bindings);
    assert_eq!(groups.len(), 2);
    assert_eq!(groups[0].action, Action::Quit);
    assert_eq!(groups[0].chords, vec![chord(KeyMod::Plain, 'q')]);
    assert_eq!(groups[1].action, Action::Switch);
    assert_eq!(
        groups[1].chords,
        vec![chord(KeyMod::Plain, 's'), chord(KeyMod::Ctrl, 'w')]
    );
}

#[test]
fn grouping_skips_unlistable_modifiers() {
    // a chord with another modifier is held but never listed
    let bindings = vec![
        Binding { keys: vec![chord(KeyMod::Other, 't')], action: Action::Tick },
        Binding {
            keys: vec![chord(KeyMod::Other, 'r'), chord(KeyMod::Plain, 'r')],
            action: Action::Render,
        },
    ];
    let groups = grouped_bindings(&bindings);
    assert_eq!(groups.len(), 1);
    assert_eq!(groups[0].action, Action::Render);
    assert_eq!(groups[0].chords, vec![chord(KeyMod::Plain, 'r')]);
}

#[test]
fn grouping_of_empty_list_is_empty() {
    let groups = grouped_bindings(&Vec::new());
    assert!(groups.is_empty());
}

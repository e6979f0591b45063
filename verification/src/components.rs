//! The panels. Each one conforms to the same capability contract —
//! registration of an outgoing-action handle and a configuration copy, a
//! pure `mode` query, an `update` that consumes one action and may hand back
//! a follow-up, and a draw plan that turns an assigned rectangle into the
//! panel's sub-rectangles. The `Panel` union dispatches the contract
//! uniformly over the closed set of panels.

use vstd::prelude::*;

use tokio::sync::mpsc::UnboundedSender;

use crate::action::Action;
use crate::config::{
    bindings_for, chords_for, display_order, grouped_bindings, listed_actions, BindingGroup,
    Config,
};
use crate::layout::{
    inner_spec, split_horizontal_spec, split_vertical_end_spec, split_vertical_spec, Rect,
};
use crate::mode::{next_of, Mode};

verus! {

/// The one fault a panel can report: the rectangle it was asked to draw
/// into covers no cell. Such a failure is recoverable — the caller skips the
/// draw — never fatal.
#[derive(Clone, Copy, Debug, PartialEq, Eq, Structural)]
pub enum PanelError {
    UnusableArea,
}

/// The sub-rectangles the home panel draws into: the tab line over the whole
/// area, the welcome text above, the key-binding list below.
#[derive(Clone, Copy, Debug, PartialEq, Eq, Structural)]
pub struct HomeLayout {
    pub tabs: Rect,
    pub text: Rect,
    pub keys: Rect,
}

/// The sub-rectangle the status panel draws into: the first row of its area.
#[derive(Clone, Copy, Debug, PartialEq, Eq, Structural)]
pub struct KeysLayout {
    pub status: Rect,
}

/// The sub-rectangles the note panel draws into: the tab line over the whole
/// area, the note text on the left, a side block on the right.
#[derive(Clone, Copy, Debug, PartialEq, Eq, Structural)]
pub struct NoteLayout {
    pub tabs: Rect,
    pub text: Rect,
    pub side: Rect,
}

/// The home panel's plan for `area`: a page shrunk by two rows at the top
/// and bottom, its last five rows given to the key-binding list.
pub open spec fn home_layout_spec(area: Rect) -> HomeLayout {
    let page = inner_spec(area, 0, 2);
    let parts = split_vertical_end_spec(page, 5);
    HomeLayout { tabs: area, text: parts.0, keys: parts.1 }
}

/// The status panel's plan for `area`: its first row.
pub open spec fn keys_layout_spec(area: Rect) -> KeysLayout {
    KeysLayout { status: split_vertical_spec(area, 1).0 }
}

/// The note panel's plan for `area`: a page shrunk by two rows at the top
/// and bottom, its left third given to the note text.
pub open spec fn note_layout_spec(area: Rect) -> NoteLayout {
    let page = inner_spec(area, 0, 2);
    let parts = split_horizontal_spec(page, (page.width / 3) as u16);
    NoteLayout { tabs: area, text: parts.0, side: parts.1 }
}

/// The welcome panel. It owns nothing beyond the handles it is registered
/// with; its mode identity is the home mode.
pub struct Home {
    pub command_tx: Option<UnboundedSender<Action>>,
    pub config: Option<Config>,
}

impl Home {
    /// A fresh, unregistered panel.
    pub fn new() -> (r: Home)
        ensures
            r.command_tx is None,
            r.config is None,
    {
        Home { command_tx: None, config: None }
    }

    /// Stores the outgoing-action handle. Never fails.
    pub fn register_action_handler(&mut self, tx: UnboundedSender<Action>) -> (r: Result<
        (),
        PanelError,
    >)
        ensures
            final(self).command_tx == Some(tx),
            final(self).config == old(self).config,
            r is Ok,
    {
        self.command_tx = Some(tx);
        Ok(())
    }

    /// Stores a copy of the shared configuration. Never fails.
    pub fn register_config_handler(&mut self, config: Config) -> (r: Result<(), PanelError>)
        ensures
            final(self).config == Some(config),
            final(self).command_tx == old(self).command_tx,
            r is Ok,
    {
        self.config = Some(config);
        Ok(())
    }

    /// The panel's mode identity. Pure and side-effect-free.
    pub fn mode(&self) -> (r: Option<Mode>)
        ensures
            r == Some(Mode::Home),
    {
        Some(Mode::Home)
    }

    /// Consumes one action. The panel reacts to none of them yet: its state
    /// is untouched and no follow-up is produced.
    pub fn update(&mut self, action: Action) -> (r: Result<Option<Action>, PanelError>)
        ensures
            *final(self) == *old(self),
            r == Ok::<Option<Action>, PanelError>(None),
    {
        match action {
            Action::Tick => {},
            Action::Render => {},
            _ => {},
        }
        Ok(None)
    }

    /// The rows of the key-binding display for this panel's mode, grouped
    /// for presentation. Before the configuration is registered the panel
    /// acts on no configuration at all: the list is empty.
    pub fn binding_rows(&self) -> (r: Vec<BindingGroup>)
        ensures
            self.config matches Some(c) ==> r@.map_values(|g: BindingGroup| g.action)
                == listed_actions(bindings_for(c.keybindings, Mode::Home), display_order()),
            self.config matches Some(c) ==> forall|i: int|
                0 <= i < r@.len() ==> #[trigger] r@[i].chords@ == chords_for(
                    bindings_for(c.keybindings, Mode::Home),
                    r@[i].action,
                ),
            self.config is None ==> r@.len() == 0,
    {
        match &self.config {
            Some(c) => grouped_bindings(c.keybindings.for_mode(Mode::Home)),
            None => Vec::new(),
        }
    }

    /// The panel's sub-rectangles for `area`; fails exactly on an area that
    /// covers no cell.
    pub fn draw_plan(&self, area: Rect) -> (r: Result<HomeLayout, PanelError>)
        requires
            area.well_formed(),
        ensures
            area.is_empty() ==> r == Err::<HomeLayout, PanelError>(PanelError::UnusableArea),
            !area.is_empty() ==> r == Ok::<HomeLayout, PanelError>(home_layout_spec(area)),
            r matches Ok(l) ==> area.contains(l.text) && area.contains(l.keys) && l.text.disjoint(
                l.keys,
            ),
    {
        if area.width == 0 || area.height == 0 {
            return Err(PanelError::UnusableArea);
        }
        let page = area.inner(0, 2);
        let (text, keys) = page.split_vertical_end(5);
        Ok(HomeLayout { tabs: area, text, keys })
    }
}

impl Default for Home {
    /// A fresh, unregistered panel.
    fn default() -> (r: Self)
        ensures
            r.command_tx is None,
            r.config is None,
    {
        Home::new()
    }
}

/// The status panel: a one-row display of the current mode. It keeps its own
/// cached copy of the mode, advanced on every switch action it observes, and
/// its mode identity is that cached copy.
pub struct Keys {
    pub command_tx: Option<UnboundedSender<Action>>,
    pub config: Option<Config>,
    pub mode: Mode,
}

impl Keys {
    /// A fresh, unregistered panel; its cached mode starts at the first mode
    /// of the cycle.
    pub fn new() -> (r: Keys)
        ensures
            r.command_tx is None,
            r.config is None,
            r.mode == Mode::Home,
    {
        Keys { command_tx: None, config: None, mode: Mode::Home }
    }

    /// Stores the outgoing-action handle. Never fails.
    pub fn register_action_handler(&mut self, tx: UnboundedSender<Action>) -> (r: Result<
        (),
        PanelError,
    >)
        ensures
            final(self).command_tx == Some(tx),
            final(self).config == old(self).config,
            final(self).mode == old(self).mode,
            r is Ok,
    {
        self.command_tx = Some(tx);
        Ok(())
    }

    /// Stores a copy of the shared configuration. Never fails.
    pub fn register_config_handler(&mut self, config: Config) -> (r: Result<(), PanelError>)
        ensures
            final(self).config == Some(config),
            final(self).command_tx == old(self).command_tx,
            final(self).mode == old(self).mode,
            r is Ok,
    {
        self.config = Some(config);
        Ok(())
    }

    /// The panel's mode identity: its cached copy of the application mode.
    /// Pure and side-effect-free.
    pub fn mode(&self) -> (r: Option<Mode>)
        ensures
            r == Some(self.mode),
    {
        Some(self.mode)
    }

    /// Consumes one action. A switch advances the cached mode copy; nothing
    /// else changes, and no follow-up is produced.
    pub fn update(&mut self, action: Action) -> (r: Result<Option<Action>, PanelError>)
        ensures
            final(self).mode == if action == Action::Switch {
                next_of(old(self).mode)
            } else {
                old(self).mode
            },
            final(self).command_tx == old(self).command_tx,
            final(self).config == old(self).config,
            r == Ok::<Option<Action>, PanelError>(None),
    {
        match action {
            Action::Switch => {
                self.mode.switch();
            },
            _ => {},
        }
        Ok(None)
    }

    /// The panel's sub-rectangle for `area`; fails exactly on an area that
    /// covers no cell.
    pub fn draw_plan(&self, area: Rect) -> (r: Result<KeysLayout, PanelError>)
        requires
            area.well_formed(),
        ensures
            area.is_empty() ==> r == Err::<KeysLayout, PanelError>(PanelError::UnusableArea),
            !area.is_empty() ==> r == Ok::<KeysLayout, PanelError>(keys_layout_spec(area)),
            r matches Ok(l) ==> area.contains(l.status),
    {
        if area.width == 0 || area.height == 0 {
            return Err(PanelError::UnusableArea);
        }
        let (status, _rest) = area.split_vertical(1);
        Ok(KeysLayout { status })
    }
}

impl Default for Keys {
    /// A fresh, unregistered panel.
    fn default() -> (r: Self)
        ensures
            r.command_tx is None,
            r.config is None,
            r.mode == Mode::Home,
    {
        Keys::new()
    }
}

/// The note panel. It owns nothing beyond the handles it is registered
/// with; its mode identity is the note mode.
pub struct Note {
    pub command_tx: Option<UnboundedSender<Action>>,
    pub config: Option<Config>,
}

impl Note {
    /// A fresh, unregistered panel.
    pub fn new() -> (r: Note)
        ensures
            r.command_tx is None,
            r.config is None,
    {
        Note { command_tx: None, config: None }
    }

    /// Stores the outgoing-action handle. Never fails.
    pub fn register_action_handler(&mut self, tx: UnboundedSender<Action>) -> (r: Result<
        (),
        PanelError,
    >)
        ensures
            final(self).command_tx == Some(tx),
            final(self).config == old(self).config,
            r is Ok,
    {
        self.command_tx = Some(tx);
        Ok(())
    }

    /// Stores a copy of the shared configuration. Never fails.
    pub fn register_config_handler(&mut self, config: Config) -> (r: Result<(), PanelError>)
        ensures
            final(self).config == Some(config),
            final(self).command_tx == old(self).command_tx,
            r is Ok,
    {
        self.config = Some(config);
        Ok(())
    }

    /// The panel's mode identity. Pure and side-effect-free.
    pub fn mode(&self) -> (r: Option<Mode>)
        ensures
            r == Some(Mode::Note),
    {
        Some(Mode::Note)
    }

    /// Consumes one action. The panel reacts to none of them yet: its state
    /// is untouched and no follow-up is produced.
    pub fn update(&mut self, action: Action) -> (r: Result<Option<Action>, PanelError>)
        ensures
            *final(self) == *old(self),
            r == Ok::<Option<Action>, PanelError>(None),
    {
        match action {
            Action::Tick => {},
            Action::Render => {},
            _ => {},
        }
        Ok(None)
    }

    /// The panel's sub-rectangles for `area`; fails exactly on an area that
    /// covers no cell.
    pub fn draw_plan(&self, area: Rect) -> (r: Result<NoteLayout, PanelError>)
        requires
            area.well_formed(),
        ensures
            area.is_empty() ==> r == Err::<NoteLayout, PanelError>(PanelError::UnusableArea),
            !area.is_empty() ==> r == Ok::<NoteLayout, PanelError>(note_layout_spec(area)),
            r matches Ok(l) ==> area.contains(l.text) && area.contains(l.side) && l.text.disjoint(
                l.side,
            ),
    {
        if area.width == 0 || area.height == 0 {
            return Err(PanelError::UnusableArea);
        }
        let page = area.inner(0, 2);
        let (text, side) = page.split_horizontal(page.width / 3);
        Ok(NoteLayout { tabs: area, text, side })
    }
}

impl Default for Note {
    /// A fresh, unregistered panel.
    fn default() -> (r: Self)
        ensures
            r.command_tx is None,
            r.config is None,
    {
        Note::new()
    }
}

/// The closed set of panels, dispatched through one uniform interface.
pub enum Panel {
    Home(Home),
    Keys(Keys),
    Note(Note),
}

/// The mode identity a panel reports: the value its `mode` query returns.
pub open spec fn panel_mode(p: Panel) -> Option<Mode> {
    match p {
        Panel::Home(_) => Some(Mode::Home),
        Panel::Keys(k) => Some(k.mode),
        Panel::Note(_) => Some(Mode::Note),
    }
}

/// A panel's state after consuming one action: only the status panel's
/// cached mode ever moves, on a switch.
pub open spec fn panel_step(p: Panel, a: Action) -> Panel {
    match p {
        Panel::Keys(k) => Panel::Keys(
            Keys {
                mode: if a == Action::Switch {
                    next_of(k.mode)
                } else {
                    k.mode
                },
                ..k
            },
        ),
        _ => p,
    }
}

/// The follow-up a panel hands back for re-enqueueing. None of the current
/// panels produces one; the dispatcher still collects and defers whatever a
/// panel returns.
pub open spec fn panel_follow_up(p: Panel, a: Action) -> Option<Action> {
    None
}

/// A panel's sub-rectangle plan for `area`.
pub open spec fn panel_layout_spec(p: Panel, area: Rect) -> PanelLayout {
    match p {
        Panel::Home(_) => PanelLayout::Home(home_layout_spec(area)),
        Panel::Keys(_) => PanelLayout::Keys(keys_layout_spec(area)),
        Panel::Note(_) => PanelLayout::Note(note_layout_spec(area)),
    }
}

/// The plan a panel hands the renderer: which panel kind draws into which
/// sub-rectangles.
#[derive(Clone, Copy, Debug, PartialEq, Eq, Structural)]
pub enum PanelLayout {
    Home(HomeLayout),
    Keys(KeysLayout),
    Note(NoteLayout),
}

impl Panel {
    /// The panel's mode identity. Pure and side-effect-free.
    pub fn mode(&self) -> (r: Option<Mode>)
        ensures
            r == panel_mode(*self),
    {
        match self {
            Panel::Home(p) => p.mode(),
            Panel::Keys(p) => p.mode(),
            Panel::Note(p) => p.mode(),
        }
    }

    /// Stores the outgoing-action handle. Never fails.
    pub fn register_action_handler(&mut self, tx: UnboundedSender<Action>) -> (r: Result<
        (),
        PanelError,
    >)
        ensures
            panel_mode(*final(self)) == panel_mode(*old(self)),
            r is Ok,
    {
        match self {
            Panel::Home(p) => p.register_action_handler(tx),
            Panel::Keys(p) => p.register_action_handler(tx),
            Panel::Note(p) => p.register_action_handler(tx),
        }
    }

    /// Stores a copy of the shared configuration. Never fails.
    pub fn register_config_handler(&mut self, config: Config) -> (r: Result<(), PanelError>)
        ensures
            panel_mode(*final(self)) == panel_mode(*old(self)),
            r is Ok,
    {
        match self {
            Panel::Home(p) => p.register_config_handler(config),
            Panel::Keys(p) => p.register_config_handler(config),
            Panel::Note(p) => p.register_config_handler(config),
        }
    }

    /// Consumes exactly one action and optionally hands back a follow-up for
    /// the dispatcher to process in a later cycle.
    pub fn update(&mut self, action: Action) -> (r: Result<Option<Action>, PanelError>)
        ensures
            *final(self) == panel_step(*old(self), action),
            r == Ok::<Option<Action>, PanelError>(panel_follow_up(*old(self), action)),
    {
        match self {
            Panel::Home(p) => p.update(action),
            Panel::Keys(p) => p.update(action),
            Panel::Note(p) => p.update(action),
        }
    }

    /// The panel's sub-rectangle plan for `area`; fails exactly on an area
    /// that covers no cell.
    pub fn draw_plan(&self, area: Rect) -> (r: Result<PanelLayout, PanelError>)
        requires
            area.well_formed(),
        ensures
            area.is_empty() ==> r == Err::<PanelLayout, PanelError>(PanelError::UnusableArea),
            !area.is_empty() ==> r == Ok::<PanelLayout, PanelError>(
                panel_layout_spec(*self, area),
            ),
    {
        match self {
            Panel::Home(p) => match p.draw_plan(area) {
                Ok(l) => Ok(PanelLayout::Home(l)),
                Err(e) => Err(e),
            },
            Panel::Keys(p) => match p.draw_plan(area) {
                Ok(l) => Ok(PanelLayout::Keys(l)),
                Err(e) => Err(e),
            },
            Panel::Note(p) => match p.draw_plan(area) {
                Ok(l) => Ok(PanelLayout::Note(l)),
                Err(e) => Err(e),
            },
        }
    }
}

} // verus!

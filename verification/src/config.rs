//! The read-only configuration shared by every panel: for each mode an
//! ordered list of key bindings (which chords trigger which action), plus
//! the grouping that the key-binding display uses. Panels receive a copy at
//! registration and never mutate it.

use vstd::prelude::*;

use crate::action::Action;
use crate::mode::Mode;

verus! {

/// Which modifier a key chord carries. Chords with modifiers other than the
/// plain and control ones are held but not listed by the binding display.
#[derive(Clone, Copy, Debug, PartialEq, Eq, Structural)]
pub enum KeyMod {
    Plain,
    Ctrl,
    Other,
}

/// One key chord: a character key together with its modifier.
#[derive(Clone, Copy, Debug, PartialEq, Eq, Structural)]
pub struct KeyChord {
    pub modifier: KeyMod,
    pub code: char,
}

/// One binding: the chords that all trigger the same action.
#[derive(Clone, Debug)]
pub struct Binding {
    pub keys: Vec<KeyChord>,
    pub action: Action,
}

/// For each mode, its ordered binding list.
#[derive(Clone, Debug)]
pub struct KeyBindings {
    pub home: Vec<Binding>,
    pub note: Vec<Binding>,
}

/// The immutable per-run configuration every panel may hold a copy of.
#[derive(Clone, Debug)]
pub struct Config {
    pub keybindings: KeyBindings,
}

/// The binding list that belongs to `m`.
pub open spec fn bindings_for(kb: KeyBindings, m: Mode) -> Seq<Binding> {
    match m {
        Mode::Home => kb.home@,
        Mode::Note => kb.note@,
    }
}

impl KeyBindings {
    /// The binding list that belongs to `m`.
    pub fn for_mode(&self, m: Mode) -> (r: &Vec<Binding>)
        ensures
            r@ == bindings_for(*self, m),
    {
        match m {
            Mode::Home => &self.home,
            Mode::Note => &self.note,
        }
    }
}

impl Default for KeyBindings {
    /// An unregistered panel sees no bindings at all.
    fn default() -> (r: Self)
        ensures
            r.home@ == Seq::<Binding>::empty(),
            r.note@ == Seq::<Binding>::empty(),
    {
        KeyBindings { home: Vec::new(), note: Vec::new() }
    }
}

impl Default for Config {
    /// An unregistered panel sees no bindings at all.
    fn default() -> (r: Self)
        ensures
            r.keybindings.home@ == Seq::<Binding>::empty(),
            r.keybindings.note@ == Seq::<Binding>::empty(),
    {
        Config { keybindings: KeyBindings { home: Vec::new(), note: Vec::new() } }
    }
}

/// A chord appears in the binding display only with a plain or a control
/// modifier.
pub open spec fn listable(c: KeyChord) -> bool {
    c.modifier == KeyMod::Plain || c.modifier == KeyMod::Ctrl
}

/// The listable chords of `keys`, in order.
pub open spec fn listable_of(keys: Seq<KeyChord>) -> Seq<KeyChord>
    decreases keys.len(),
{
    if keys.len() == 0 {
        Seq::empty()
    } else if listable(keys.last()) {
        listable_of(keys.drop_last()).push(keys.last())
    } else {
        listable_of(keys.drop_last())
    }
}

/// All listable chords bound to `a` anywhere in `bs`, in binding order.
pub open spec fn chords_for(bs: Seq<Binding>, a: Action) -> Seq<KeyChord>
    decreases bs.len(),
{
    if bs.len() == 0 {
        Seq::empty()
    } else {
        chords_for(bs.drop_last(), a) + (if bs.last().action == a {
            listable_of(bs.last().keys@)
        } else {
            Seq::<KeyChord>::empty()
        })
    }
}

/// The order in which the binding display lists actions.
pub open spec fn display_order() -> Seq<Action> {
    seq![Action::Quit, Action::Render, Action::Switch, Action::Tick]
}

/// The actions of `order` that have at least one listable chord in `bs`.
pub open spec fn listed_actions(bs: Seq<Binding>, order: Seq<Action>) -> Seq<Action>
    decreases order.len(),
{
    if order.len() == 0 {
        Seq::empty()
    } else {
        let rest = listed_actions(bs, order.drop_last());
        if chords_for(bs, order.last()).len() > 0 {
            rest.push(order.last())
        } else {
            rest
        }
    }
}

/// One row of the key-binding display: an action together with every chord
/// bound to it.
#[derive(Clone, Debug)]
pub struct BindingGroup {
    pub action: Action,
    pub chords: Vec<KeyChord>,
}

/// Groups the listable bindings of `bs` for display: one row per action, in
/// display order, each holding exactly the chords bound to that action;
/// actions without a listable chord get no row.
pub fn grouped_bindings(bs: &Vec<Binding>) -> (r: Vec<BindingGroup>)
    ensures
        r@.map_values(|g: BindingGroup| g.action) == listed_actions(bs@, display_order()),
        forall|i: int|
            0 <= i < r@.len() ==> #[trigger] r@[i].chords@ == chords_for(bs@, r@[i].action),
{
    let mut order: Vec<Action> = Vec::new();
    order.push(Action::Quit);
    order.push(Action::Render);
    order.push(Action::Switch);
    order.push(Action::Tick);
    proof {
        assert(order@ =~= display_order());
    }
    let mut r: Vec<BindingGroup> = Vec::new();
    let mut k: usize = 0;
    while k < order.len()
        invariant
            order@ == display_order(),
            k <= order.len(),
            r@.map_values(|g: BindingGroup| g.action) == listed_actions(
                bs@,
                display_order().take(k as int),
            ),
            forall|i: int|
                0 <= i < r@.len() ==> #[trigger] r@[i].chords@ == chords_for(bs@, r@[i].action),
        decreases order.len() - k,
    {
        let a = order[k];
        let chords = chords_bound_to(bs, a);
        let ghost r_before = r@;
        if chords.len() > 0 {
            r.push(BindingGroup { action: a, chords });
        }
        proof {
            assert(display_order().take(k + 1).drop_last() =~= display_order().take(k as int));
            if chords_for(bs@, a).len() > 0 {
                assert(r@.map_values(|g: BindingGroup| g.action) =~= r_before.map_values(
                    |g: BindingGroup| g.action,
                ).push(a));
            }
        }
        k += 1;
    }
    proof {
        assert(display_order().take(4) =~= display_order());
    }
    r
}

/// Every listable chord bound to `a` in `bs`, in binding order.
pub fn chords_bound_to(bs: &Vec<Binding>, a: Action) -> (r: Vec<KeyChord>)
    ensures
        r@ == chords_for(bs@, a),
{
    let mut r: Vec<KeyChord> = Vec::new();
    let mut i: usize = 0;
    while i < bs.len()
        invariant
            i <= bs.len(),
            r@ == chords_for(bs@.take(i as int), a),
        decreases bs.len() - i,
    {
        let b = &bs[i];
        let ghost chords_prefix = r@;
        if b.action == a {
            let mut j: usize = 0;
            while j < b.keys.len()
                invariant
                    j <= b.keys.len(),
                    b == bs@[i as int],
                    r@ == chords_prefix + listable_of(b.keys@.take(j as int)),
                decreases b.keys.len() - j,
            {
                let c = b.keys[j];
                let show = match c.modifier {
                    KeyMod::Plain => true,
                    KeyMod::Ctrl => true,
                    KeyMod::Other => false,
                };
                if show {
                    r.push(c);
                }
                proof {
                    assert(b.keys@.take(j + 1).drop_last() =~= b.keys@.take(j as int));
                    assert(b.keys@.take(j + 1).last() == b.keys@[j as int]);
                    assert(r@ =~= chords_prefix + listable_of(b.keys@.take(j + 1)));
                }
                j += 1;
            }
            proof {
                assert(b.keys@.take(b.keys@.len() as int) =~= b.keys@);
            }
        }
        proof {
            assert(bs@.take(i + 1).drop_last() =~= bs@.take(i as int));
            assert(bs@.take(i + 1).last() == bs@[i as int]);
            assert(r@ =~= chords_for(bs@.take(i + 1), a));
        }
        i += 1;
    }
    proof {
        assert(bs@.take(bs@.len() as int) =~= bs@);
    }
    r
}

} // verus!

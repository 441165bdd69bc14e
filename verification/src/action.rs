use vstd::prelude::*;

use crate::assoc::{
    assoc_get, assoc_insert, lemma_assoc_get_absent, lemma_assoc_get_first, lemma_assoc_insert_get,
    lemma_assoc_insert_shape,
};
use crate::section::Mode;

verus! {

/// What the application is asked to do next.
#[derive(Debug, Clone, PartialEq, Eq)]
pub enum Action {
    Tick,
    Render,
    Resize(u16, u16),
    Suspend,
    Resume,
    Quit,
    ClearScreen,
    Error(String),
    Help,
    ShowInfo,
}

impl Action {
    /// A copy of this action.
    pub fn duplicate(&self) -> (r: Action)
        ensures
            r == *self,
    {
        match self {
            Action::Tick => Action::Tick,
            Action::Render => Action::Render,
            Action::Resize(w, h) => Action::Resize(*w, *h),
            Action::Suspend => Action::Suspend,
            Action::Resume => Action::Resume,
            Action::Quit => Action::Quit,
            Action::ClearScreen => Action::ClearScreen,
            Action::Error(s) => Action::Error(s.clone()),
            Action::Help => Action::Help,
            Action::ShowInfo => Action::ShowInfo,
        }
    }
}

/// A key on the keyboard.
#[derive(Debug, Clone, Copy, PartialEq, Eq, Structural, Hash)]
pub enum KeyCode {
    Backspace,
    Enter,
    Left,
    Right,
    Up,
    Down,
    Home,
    End,
    PageUp,
    PageDown,
    Tab,
    BackTab,
    Delete,
    Insert,
    F(u8),
    Char(char),
    Null,
    Esc,
    Other,
}

/// The shift modifier bit.
pub const SHIFT: u8 = 1;
/// The control modifier bit.
pub const CONTROL: u8 = 2;
/// The alt modifier bit.
pub const ALT: u8 = 4;
/// The super modifier bit.
pub const SUPER: u8 = 8;
/// The hyper modifier bit.
pub const HYPER: u8 = 16;
/// The meta modifier bit.
pub const META: u8 = 32;

/// A key press: the key and the modifier bits held with it (shift, control,
/// alt, super, hyper and meta).
///
/// Keys built with [`Key::with_modifiers`] or [`Key::plain`] are in normal
/// form: an upper-case ASCII letter always carries the shift bit, and a
/// lower-case ASCII letter with the shift bit is turned into its upper-case
/// form. Two keys in normal form are the same key press exactly when they
/// are equal, as the terminal library compares key events.
#[derive(Debug, Clone, Copy, PartialEq, Eq, Structural, Hash)]
pub struct Key {
    pub code: KeyCode,
    pub modifiers: u8,
}

/// The upper-case form of an ASCII lower-case letter; other characters stay.
pub open spec fn ascii_upper(c: char) -> char {
    if 'a' <= c && c <= 'z' { ((c as u32) - 32) as char } else { c }
}

/// The normal form of a key press; see [`Key`].
pub open spec fn normal_key(code: KeyCode, modifiers: u8) -> Key {
    match code {
        KeyCode::Char(c) => if 'A' <= c && c <= 'Z' {
            Key { code, modifiers: modifiers | SHIFT }
        } else if modifiers & SHIFT != 0 {
            Key { code: KeyCode::Char(ascii_upper(c)), modifiers }
        } else {
            Key { code, modifiers }
        },
        _ => Key { code, modifiers },
    }
}

impl Key {
    /// A key pressed without modifiers, in normal form.
    pub fn plain(code: KeyCode) -> (r: Key)
        ensures
            r == normal_key(code, 0),
    {
        Key::with_modifiers(code, 0)
    }

    /// A key pressed with the given modifier bits, in normal form.
    pub fn with_modifiers(code: KeyCode, modifiers: u8) -> (r: Key)
        ensures
            r == normal_key(code, modifiers),
    {
        match code {
            KeyCode::Char(c) => {
                if 'A' <= c && c <= 'Z' {
                    Key { code, modifiers: modifiers | SHIFT }
                } else if modifiers & SHIFT != 0 {
                    let upper: char = if 'a' <= c && c <= 'z' {
                        ((c as u8) - 32) as char
                    } else {
                        c
                    };
                    Key { code: KeyCode::Char(upper), modifiers }
                } else {
                    Key { code, modifiers }
                }
            },
            _ => Key { code, modifiers },
        }
    }
}

/// A terminal event.
#[derive(Debug, Clone, PartialEq, Eq)]
pub enum Event {
    Init,
    Quit,
    Error,
    Closed,
    Tick,
    Render,
    FocusGained,
    FocusLost,
    Paste(String),
    Key(Key),
    Mouse,
    Resize(u16, u16),
}

/// Whether two key sequences are the same.
pub fn keys_equal(a: &Vec<Key>, b: &Vec<Key>) -> (r: bool)
    ensures
        r == (a@ == b@),
{
    if a.len() != b.len() {
        return false;
    }
    let n = a.len();
    for i in 0..n
        invariant
            n == a.len(),
            n == b.len(),
            forall|j: int| 0 <= j < i ==> a@[j] == b@[j],
    {
        if a[i] != b[i] {
            return false;
        }
    }
    assert(a@ =~= b@);
    true
}

/// One entry of a key map: a key sequence and the action it triggers.
#[derive(Debug, Clone)]
pub struct Binding {
    pub keys: Vec<Key>,
    pub action: Action,
}

/// The bindings of one mode, from key sequences to actions.
#[derive(Debug, Clone)]
pub struct KeyMap {
    pub bindings: Vec<Binding>,
}

impl KeyMap {
    /// The bindings as pairs of key sequence and action.
    pub open spec fn pairs(self) -> Seq<(Seq<Key>, Action)> {
        self.bindings@.map_values(|b: Binding| (b.keys@, b.action))
    }

    /// The action bound to a key sequence.
    pub open spec fn lookup(self, keys: Seq<Key>) -> Option<Action> {
        assoc_get(self.pairs(), keys)
    }

    /// A key map with no bindings.
    pub fn new() -> (r: KeyMap)
        ensures
            r.pairs() == Seq::<(Seq<Key>, Action)>::empty(),
            forall|k: Seq<Key>| #[trigger] r.lookup(k) is None,
    {
        let r = KeyMap { bindings: Vec::new() };
        assert(r.pairs() =~= Seq::<(Seq<Key>, Action)>::empty());
        r
    }

    /// The position of the first binding of `keys`, if any.
    fn position(&self, keys: &Vec<Key>) -> (r: Option<usize>)
        ensures
            match r {
                Some(i) => {
                    &&& i < self.bindings@.len()
                    &&& self.pairs()[i as int].0 == keys@
                    &&& forall|j: int| 0 <= j < i ==> self.pairs()[j].0 != keys@
                },
                None => forall|j: int| 0 <= j < self.pairs().len() ==> self.pairs()[j].0 != keys@,
            },
    {
        let n = self.bindings.len();
        for i in 0..n
            invariant
                n == self.bindings@.len(),
                forall|j: int| 0 <= j < i ==> self.pairs()[j].0 != keys@,
        {
            if keys_equal(&self.bindings[i].keys, keys) {
                return Some(i);
            }
        }
        None
    }

    /// The action bound to `keys`.
    pub fn get(&self, keys: &Vec<Key>) -> (r: Option<Action>)
        ensures
            r == self.lookup(keys@),
    {
        match self.position(keys) {
            Some(i) => {
                proof {
                    lemma_assoc_get_first(self.pairs(), keys@, i as int);
                }
                Some(self.bindings[i].action.duplicate())
            },
            None => {
                proof {
                    lemma_assoc_get_absent(self.pairs(), keys@);
                }
                None
            },
        }
    }

    /// Binds `keys` to `action`, replacing an earlier binding of the same keys.
    pub fn insert(&mut self, keys: Vec<Key>, action: Action)
        ensures
            final(self).pairs() == assoc_insert(old(self).pairs(), keys@, action),
            final(self).lookup(keys@) == Some(action),
            forall|k: Seq<Key>| k != keys@ ==> #[trigger] final(self).lookup(k) == old(self).lookup(k),
    {
        let ghost old_pairs = self.pairs();
        let ghost kv = keys@;
        proof {
            lemma_assoc_insert_shape(old_pairs, kv, action);
        }
        match self.position(&keys) {
            Some(i) => {
                self.bindings.set(i, Binding { keys, action });
                assert(self.pairs() =~= old_pairs.update(i as int, (kv, action)));
            },
            None => {
                self.bindings.push(Binding { keys, action });
                assert(self.pairs() =~= old_pairs.push((kv, action)));
            },
        }
        proof {
            lemma_assoc_insert_get(old_pairs, kv, action, kv);
            assert forall|k: Seq<Key>| k != kv implies #[trigger] self.lookup(k) == assoc_get(old_pairs, k) by {
                lemma_assoc_insert_get(old_pairs, kv, action, k);
            }
        }
    }
}

/// The key maps of every mode; a mode may have none.
#[derive(Debug, Clone)]
pub struct KeyBindings {
    pub dashboard: Option<KeyMap>,
    pub search: Option<KeyMap>,
    pub info: Option<KeyMap>,
}

impl KeyBindings {
    /// The key map of `mode`.
    pub open spec fn for_mode(self, mode: Mode) -> Option<KeyMap> {
        match mode {
            Mode::Dashboard => self.dashboard,
            Mode::Search => self.search,
            Mode::Info => self.info,
        }
    }

    /// No key map for any mode.
    pub fn new() -> (r: KeyBindings)
        ensures
            forall|m: Mode| #[trigger] r.for_mode(m) is None,
    {
        KeyBindings { dashboard: None, search: None, info: None }
    }

    /// The key map of `mode`.
    pub fn get(&self, mode: Mode) -> (r: Option<&KeyMap>)
        ensures
            match r {
                Some(km) => self.for_mode(mode) == Some(*km),
                None => self.for_mode(mode) is None,
            },
    {
        match mode {
            Mode::Dashboard => self.dashboard.as_ref(),
            Mode::Search => self.search.as_ref(),
            Mode::Info => self.info.as_ref(),
        }
    }

    /// Binds `keys` to `action` in `mode`, creating the mode's key map when it
    /// has none.
    pub fn insert(&mut self, mode: Mode, keys: Vec<Key>, action: Action)
        ensures
            final(self).for_mode(mode) matches Some(km) && km.lookup(keys@) == Some(action),
            forall|k: Seq<Key>|
                k != keys@ ==> #[trigger] lookup_in(final(self).for_mode(mode), k) == lookup_in(
                    old(self).for_mode(mode),
                    k,
                ),
            forall|m: Mode| m != mode ==> #[trigger] final(self).for_mode(m) == old(self).for_mode(m),
    {
        let slot: &mut Option<KeyMap> = match mode {
            Mode::Dashboard => &mut self.dashboard,
            Mode::Search => &mut self.search,
            Mode::Info => &mut self.info,
        };
        let mut km = match slot.take() {
            Some(km) => km,
            None => KeyMap::new(),
        };
        km.insert(keys, action);
        *slot = Some(km);
    }
}

/// The action bound to `keys` in an optional key map.
pub open spec fn lookup_in(km: Option<KeyMap>, keys: Seq<Key>) -> Option<Action> {
    match km {
        Some(m) => m.lookup(keys),
        None => None,
    }
}

} // verus!

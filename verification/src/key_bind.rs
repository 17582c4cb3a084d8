//! Keyboard modifiers, keys, and the table that binds key presses to actions.

use vstd::prelude::*;

verus! {

/// The set of modifier keys held down.
#[derive(Clone, Copy, Debug, PartialEq, Eq, Structural)]
pub struct Modifiers {
    pub shift: bool,
    pub control: bool,
    pub alt: bool,
    pub logo: bool,
}

impl Modifiers {
    /// No modifier held.
    pub fn empty() -> (m: Modifiers)
        ensures
            m == (Modifiers { shift: false, control: false, alt: false, logo: false }),
    {
        Modifiers { shift: false, control: false, alt: false, logo: false }
    }
}

/// A key of the keyboard: a named key, a key that produces text, or a key
/// the platform could not identify.
#[derive(Debug)]
pub enum Key {
    Named(String),
    Character(String),
    Unidentified,
}

/// Mathematical model of [`Key`].
pub enum KeyView {
    Named(Seq<char>),
    Character(Seq<char>),
    Unidentified,
}

impl View for Key {
    type V = KeyView;

    open spec fn view(&self) -> KeyView {
        match self {
            Key::Named(name) => KeyView::Named(name@),
            Key::Character(text) => KeyView::Character(text@),
            Key::Unidentified => KeyView::Unidentified,
        }
    }
}

impl Clone for Key {
    fn clone(&self) -> (r: Self)
        ensures
            r@ == self@,
    {
        match self {
            Key::Named(name) => Key::Named(name.clone()),
            Key::Character(text) => Key::Character(text.clone()),
            Key::Unidentified => Key::Unidentified,
        }
    }
}

impl PartialEq for Key {
    fn eq(&self, other: &Self) -> (r: bool) {
        match (self, other) {
            (Key::Named(a), Key::Named(b)) => *a == *b,
            (Key::Character(a), Key::Character(b)) => *a == *b,
            (Key::Unidentified, Key::Unidentified) => true,
            _ => false,
        }
    }
}

impl vstd::std_specs::cmp::PartialEqSpecImpl for Key {
    open spec fn obeys_eq_spec() -> bool {
        true
    }

    open spec fn eq_spec(&self, other: &Self) -> bool {
        self@ == other@
    }
}

impl Eq for Key {}

/// A key together with the exact set of modifiers that must be held.
#[derive(Debug)]
pub struct KeyBind {
    pub modifiers: Modifiers,
    pub key: Key,
}

/// Mathematical model of [`KeyBind`].
pub struct KeyBindView {
    pub modifiers: Modifiers,
    pub key: KeyView,
}

impl View for KeyBind {
    type V = KeyBindView;

    open spec fn view(&self) -> KeyBindView {
        KeyBindView { modifiers: self.modifiers, key: self.key@ }
    }
}

impl KeyBind {
    /// Whether a key press with these modifiers is the one this binding names.
    pub fn matches(&self, modifiers: Modifiers, key: &Key) -> (r: bool)
        ensures
            r == (self@ == (KeyBindView { modifiers, key: key@ })),
    {
        self.modifiers == modifiers && self.key == *key
    }
}

impl Clone for KeyBind {
    fn clone(&self) -> (r: Self)
        ensures
            r@ == self@,
    {
        KeyBind { modifiers: self.modifiers, key: self.key.clone() }
    }
}

impl PartialEq for KeyBind {
    fn eq(&self, other: &Self) -> (r: bool) {
        self.modifiers == other.modifiers && self.key == other.key
    }
}

impl vstd::std_specs::cmp::PartialEqSpecImpl for KeyBind {
    open spec fn obeys_eq_spec() -> bool {
        true
    }

    open spec fn eq_spec(&self, other: &Self) -> bool {
        self@ == other@
    }
}

impl Eq for KeyBind {}

/// What a key binding or a menu entry asks the application to do.
#[derive(Clone, Copy, Debug, PartialEq, Eq, Structural)]
pub enum Action {
    About,
    Settings,
    ChangeCity,
    Quit,
}

/// The mapping that a list of bindings stands for: a later entry for the
/// same key press replaces an earlier one.
pub open spec fn binds_of(entries: Seq<(KeyBind, Action)>) -> Map<KeyBindView, Action>
    decreases entries.len(),
{
    if entries.len() == 0 {
        Map::empty()
    } else {
        binds_of(entries.drop_last()).insert(entries.last().0@, entries.last().1)
    }
}

/// The entry at `i` decides the key press `k` when no later entry names it.
proof fn lemma_last_entry_decides(entries: Seq<(KeyBind, Action)>, i: int, k: KeyBindView)
    requires
        0 <= i < entries.len(),
        entries[i].0@ == k,
        forall|j: int| i < j < entries.len() ==> entries[j].0@ != k,
    ensures
        binds_of(entries).get(k) == Some(entries[i].1),
    decreases entries.len(),
{
    if i < entries.len() - 1 {
        lemma_last_entry_decides(entries.drop_last(), i, k);
    }
}

/// A key press that no entry names is not bound.
proof fn lemma_unnamed_is_unbound(entries: Seq<(KeyBind, Action)>, k: KeyBindView)
    requires
        forall|j: int| 0 <= j < entries.len() ==> entries[j].0@ != k,
    ensures
        binds_of(entries).get(k) == None::<Action>,
    decreases entries.len(),
{
    if entries.len() > 0 {
        lemma_unnamed_is_unbound(entries.drop_last(), k);
    }
}

/// Overwriting the deciding entry for a key press rebinds that key press and
/// nothing else.
proof fn lemma_overwrite_rebinds(entries: Seq<(KeyBind, Action)>, i: int, e: (KeyBind, Action))
    requires
        0 <= i < entries.len(),
        entries[i].0@ == e.0@,
        forall|j: int| i < j < entries.len() ==> entries[j].0@ != e.0@,
    ensures
        binds_of(entries.update(i, e)) == binds_of(entries).insert(e.0@, e.1),
    decreases entries.len(),
{
    let updated = entries.update(i, e);
    if i == entries.len() - 1 {
        assert(updated.drop_last() == entries.drop_last());
        assert(binds_of(updated) == binds_of(entries).insert(e.0@, e.1));
    } else {
        lemma_overwrite_rebinds(entries.drop_last(), i, e);
        assert(updated.drop_last() == entries.drop_last().update(i, e));
        assert(updated.last() == entries.last());
        assert(binds_of(updated) == binds_of(entries).insert(e.0@, e.1));
    }
}

/// No two entries name the same key press.
pub open spec fn distinct_binds(entries: Seq<(KeyBind, Action)>) -> bool {
    forall|i: int, j: int|
        0 <= i < j < entries.len() ==> (#[trigger] entries[i]).0@ != (#[trigger] entries[j]).0@
}

/// The key-binding table: a finite mapping from key presses to actions,
/// kept as a list in which no key press occurs twice.
#[derive(Debug)]
pub struct KeyBinds {
    entries: Vec<(KeyBind, Action)>,
}

impl View for KeyBinds {
    type V = Map<KeyBindView, Action>;

    closed spec fn view(&self) -> Map<KeyBindView, Action> {
        binds_of(self.entries@)
    }
}

impl KeyBinds {
    /// No key press occurs twice in the list.
    #[verifier::type_invariant]
    spec fn inv(self) -> bool {
        distinct_binds(self.entries@)
    }

    /// The table without bindings.
    pub fn new() -> (table: KeyBinds)
        ensures
            table@ == Map::<KeyBindView, Action>::empty(),
    {
        KeyBinds { entries: Vec::new() }
    }

    /// Position of the entry that decides `bind`, if any entry names it.
    fn position(&self, bind: &KeyBind) -> (r: Option<usize>)
        ensures
            match r {
                Some(i) => {
                    &&& i < self.entries@.len()
                    &&& self.entries@[i as int].0@ == bind@
                    &&& forall|j: int| i < j < self.entries@.len() ==> self.entries@[j].0@ != bind@
                    &&& self@.get(bind@) == Some(self.entries@[i as int].1)
                },
                None => {
                    &&& forall|j: int|
                        0 <= j < self.entries@.len() ==> self.entries@[j].0@ != bind@
                    &&& self@.get(bind@) == None::<Action>
                },
            },
    {
        let mut i: usize = self.entries.len();
        while i > 0
            invariant
                i <= self.entries@.len(),
                forall|j: int| i <= j < self.entries@.len() ==> self.entries@[j].0@ != bind@,
            decreases i,
        {
            i = i - 1;
            if self.entries[i].0 == *bind {
                proof {
                    lemma_last_entry_decides(self.entries@, i as int, bind@);
                }
                return Some(i);
            }
        }
        proof {
            lemma_unnamed_is_unbound(self.entries@, bind@);
        }
        None
    }

    /// Binds a key press to an action and returns the action it was bound
    /// to before, if any.
    pub fn insert(&mut self, bind: KeyBind, action: Action) -> (previous: Option<Action>)
        ensures
            final(self)@ == old(self)@.insert(bind@, action),
            previous == old(self)@.get(bind@),
    {
        proof {
            use_type_invariant(&*self);
        }
        let found = self.position(&bind);
        let mut entries: Vec<(KeyBind, Action)> = Vec::new();
        std::mem::swap(&mut entries, &mut self.entries);
        let previous = match found {
            Some(i) => {
                let previous = entries[i].1;
                proof {
                    lemma_overwrite_rebinds(entries@, i as int, (bind, action));
                }
                entries.set(i, (bind, action));
                Some(previous)
            },
            None => {
                proof {
                    assert(entries@.push((bind, action)).drop_last() == entries@);
                }
                entries.push((bind, action));
                None
            },
        };
        self.entries = entries;
        previous
    }

    /// The action bound to a key press, if there is one.
    pub fn lookup(&self, modifiers: Modifiers, key: &Key) -> (action: Option<Action>)
        ensures
            action == self@.get(KeyBindView { modifiers, key: key@ }),
    {
        let mut i: usize = self.entries.len();
        let ghost k = KeyBindView { modifiers, key: key@ };
        while i > 0
            invariant
                i <= self.entries@.len(),
                k == (KeyBindView { modifiers, key: key@ }),
                forall|j: int| i <= j < self.entries@.len() ==> self.entries@[j].0@ != k,
            decreases i,
        {
            i = i - 1;
            if self.entries[i].0.matches(modifiers, key) {
                proof {
                    lemma_last_entry_decides(self.entries@, i as int, k);
                }
                return Some(self.entries[i].1);
            }
        }
        proof {
            lemma_unnamed_is_unbound(self.entries@, k);
        }
        None
    }
}

} // verus!

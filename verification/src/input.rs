//! Input identifiers, the handler registry and the held-key set.
//!
//! Handlers themselves are opaque to the runtime: registering a handler
//! stores a caller-chosen [`HandlerId`], and dispatching an input event
//! yields an effect asking the host to invoke that handler.  Each of the
//! four registry maps is an association list with unique keys, viewed as a
//! mathematical `Map`; re-registering a key replaces its handler.

use vstd::prelude::*;

verus! {

/// Identifies a user-registered callback.  The host keeps the actual
/// closure under this identifier.
pub type HandlerId = u32;

/// A logical key, as delivered by the host windowing layer.
#[derive(Clone, Copy, Debug, PartialEq, Eq, Structural)]
pub enum KeyId {
    /// A character-producing key.
    Character(char),
    /// A named (non-character) key, under a host-assigned code.
    Named(u32),
}

/// A mouse button.
#[derive(Clone, Copy, Debug, PartialEq, Eq, Structural)]
pub enum ButtonId {
    Left,
    Right,
    Middle,
    Back,
    Forward,
    Other(u16),
}

/// No two entries of the association list share a key.
pub open spec fn entry_keys_unique<K>(s: Seq<(K, HandlerId)>) -> bool {
    forall|i: int, j: int| 0 <= i < j < s.len() ==> (#[trigger] s[i]).0 != (#[trigger] s[j]).0
}

/// The mathematical map an association list stands for; later entries win.
pub open spec fn assoc_map<K>(s: Seq<(K, HandlerId)>) -> Map<K, HandlerId>
    decreases s.len(),
{
    if s.len() == 0 {
        Map::empty()
    } else {
        assoc_map(s.drop_last()).insert(s.last().0, s.last().1)
    }
}

/// A key is in the map exactly when some entry carries it.
pub proof fn lemma_assoc_contains<K>(s: Seq<(K, HandlerId)>, k: K)
    ensures
        assoc_map(s).contains_key(k) <==> (exists|i: int|
            0 <= i < s.len() && (#[trigger] s[i]).0 == k),
    decreases s.len(),
{
    if s.len() > 0 {
        lemma_assoc_contains(s.drop_last(), k);
        if s.last().0 == k {
            assert((s[s.len() - 1]).0 == k);
        } else if assoc_map(s).contains_key(k) {
            let i = choose|i: int| 0 <= i < s.drop_last().len() && (#[trigger] s.drop_last()[i]).0 == k;
            assert((s[i]).0 == k);
        } else {
            assert forall|i: int| 0 <= i < s.len() implies (#[trigger] s[i]).0 != k by {
                if i < s.len() - 1 {
                    assert(s.drop_last()[i] == s[i]);
                }
            }
        }
    }
}

/// With unique keys, the entry holding a key gives the map's value there.
pub proof fn lemma_assoc_value<K>(s: Seq<(K, HandlerId)>, k: K, i: int)
    requires
        entry_keys_unique(s),
        0 <= i < s.len(),
        s[i].0 == k,
    ensures
        assoc_map(s).contains_key(k),
        assoc_map(s)[k] == s[i].1,
    decreases s.len(),
{
    if i < s.len() - 1 {
        assert(s.drop_last()[i] == s[i]);
        assert(entry_keys_unique(s.drop_last())) by {
            assert forall|p: int, q: int|
                0 <= p < q < s.drop_last().len() implies (#[trigger] s.drop_last()[p]).0
                != (#[trigger] s.drop_last()[q]).0 by {
                assert(s.drop_last()[p] == s[p]);
                assert(s.drop_last()[q] == s[q]);
            }
        }
        lemma_assoc_value(s.drop_last(), k, i);
        assert(s.last().0 != k);
    }
}

/// Registry map from logical keys to handler identifiers.
pub struct KeyMap {
    entries: Vec<(KeyId, HandlerId)>,
}

impl View for KeyMap {
    type V = Map<KeyId, HandlerId>;

    closed spec fn view(&self) -> Map<KeyId, HandlerId> {
        assoc_map(self.entries@)
    }
}

impl KeyMap {
    /// The association list carries no duplicate keys.
    pub closed spec fn wf(self) -> bool {
        entry_keys_unique(self.entries@)
    }

    /// An empty map.
    pub fn new() -> (r: Self)
        ensures
            r.wf(),
            r@ == Map::<KeyId, HandlerId>::empty(),
    {
        KeyMap { entries: Vec::new() }
    }

    /// Looks a key up.
    pub fn get(&self, key: KeyId) -> (r: Option<HandlerId>)
        requires
            self.wf(),
        ensures
            r == (if self@.contains_key(key) {
                Some(self@[key])
            } else {
                None::<HandlerId>
            }),
    {
        let n = self.entries.len();
        let mut i: usize = 0;
        while i < n
            invariant
                i <= n,
                n == self.entries@.len(),
                self.wf(),
                forall|j: int| 0 <= j < i ==> (#[trigger] self.entries@[j]).0 != key,
            decreases n - i,
        {
            let (k, h) = self.entries[i];
            if k == key {
                proof {
                    lemma_assoc_value(self.entries@, key, i as int);
                }
                return Some(h);
            }
            i += 1;
        }
        proof {
            lemma_assoc_contains(self.entries@, key);
        }
        None
    }

    /// Registers a handler for a key; a later registration for the same key
    /// replaces the earlier one.
    pub fn insert(&mut self, key: KeyId, handler: HandlerId)
        requires
            old(self).wf(),
        ensures
            final(self).wf(),
            final(self)@ == old(self)@.insert(key, handler),
    {
        let n = self.entries.len();
        let mut i: usize = 0;
        while i < n
            invariant
                i <= n,
                n == self.entries@.len(),
                self.wf(),
                self.entries@ == old(self).entries@,
                forall|j: int| 0 <= j < i ==> (#[trigger] self.entries@[j]).0 != key,
            decreases n - i,
        {
            let (k, _h) = self.entries[i];
            if k == key {
                self.entries[i] = (key, handler);
                proof {
                    lemma_assoc_update(old(self).entries@, key, handler, i as int);
                }
                return;
            }
            i += 1;
        }
        self.entries.push((key, handler));
        proof {
            assert(self.entries@.drop_last() =~= old(self).entries@);
            assert(entry_keys_unique(self.entries@)) by {
                assert forall|p: int, q: int|
                    0 <= p < q < self.entries@.len() implies (#[trigger] self.entries@[p]).0
                    != (#[trigger] self.entries@[q]).0 by {
                    if q < self.entries@.len() - 1 {
                        assert(old(self).entries@[p] == self.entries@[p]);
                        assert(old(self).entries@[q] == self.entries@[q]);
                    }
                }
            }
        }
    }
}

/// Registry map from mouse buttons to handler identifiers.
pub struct ButtonMap {
    entries: Vec<(ButtonId, HandlerId)>,
}

impl View for ButtonMap {
    type V = Map<ButtonId, HandlerId>;

    closed spec fn view(&self) -> Map<ButtonId, HandlerId> {
        assoc_map(self.entries@)
    }
}

impl ButtonMap {
    /// The association list carries no duplicate keys.
    pub closed spec fn wf(self) -> bool {
        entry_keys_unique(self.entries@)
    }

    /// An empty map.
    pub fn new() -> (r: Self)
        ensures
            r.wf(),
            r@ == Map::<ButtonId, HandlerId>::empty(),
    {
        ButtonMap { entries: Vec::new() }
    }

    /// Looks a button up.
    pub fn get(&self, button: ButtonId) -> (r: Option<HandlerId>)
        requires
            self.wf(),
        ensures
            r == (if self@.contains_key(button) {
                Some(self@[button])
            } else {
                None::<HandlerId>
            }),
    {
        let n = self.entries.len();
        let mut i: usize = 0;
        while i < n
            invariant
                i <= n,
                n == self.entries@.len(),
                self.wf(),
                forall|j: int| 0 <= j < i ==> (#[trigger] self.entries@[j]).0 != button,
            decreases n - i,
        {
            let (k, h) = self.entries[i];
            if k == button {
                proof {
                    lemma_assoc_value(self.entries@, button, i as int);
                }
                return Some(h);
            }
            i += 1;
        }
        proof {
            lemma_assoc_contains(self.entries@, button);
        }
        None
    }

    /// Registers a handler for a button; a later registration for the same
    /// button replaces the earlier one.
    pub fn insert(&mut self, button: ButtonId, handler: HandlerId)
        requires
            old(self).wf(),
        ensures
            final(self).wf(),
            final(self)@ == old(self)@.insert(button, handler),
    {
        let n = self.entries.len();
        let mut i: usize = 0;
        while i < n
            invariant
                i <= n,
                n == self.entries@.len(),
                self.wf(),
                self.entries@ == old(self).entries@,
                forall|j: int| 0 <= j < i ==> (#[trigger] self.entries@[j]).0 != button,
            decreases n - i,
        {
            let (k, _h) = self.entries[i];
            if k == button {
                self.entries[i] = (button, handler);
                proof {
                    lemma_assoc_update(old(self).entries@, button, handler, i as int);
                }
                return;
            }
            i += 1;
        }
        self.entries.push((button, handler));
        proof {
            assert(self.entries@.drop_last() =~= old(self).entries@);
            assert(entry_keys_unique(self.entries@)) by {
                assert forall|p: int, q: int|
                    0 <= p < q < self.entries@.len() implies (#[trigger] self.entries@[p]).0
                    != (#[trigger] self.entries@[q]).0 by {
                    if q < self.entries@.len() - 1 {
                        assert(old(self).entries@[p] == self.entries@[p]);
                        assert(old(self).entries@[q] == self.entries@[q]);
                    }
                }
            }
        }
    }
}

/// The set of keys currently held down, in the order they were pressed.
pub struct KeySet {
    items: Vec<KeyId>,
}

impl KeySet {
    /// The held keys in press order.
    pub closed spec fn seq_view(self) -> Seq<KeyId> {
        self.items@
    }

    /// No key is held twice.
    pub closed spec fn wf(self) -> bool {
        self.items@.no_duplicates()
    }

    /// An empty set.
    pub fn new() -> (r: Self)
        ensures
            r.wf(),
            r.seq_view() == Seq::<KeyId>::empty(),
    {
        KeySet { items: Vec::new() }
    }

    /// Whether a key is currently held.
    pub fn contains(&self, key: KeyId) -> (r: bool)
        ensures
            r == self.seq_view().contains(key),
    {
        let n = self.items.len();
        let mut i: usize = 0;
        while i < n
            invariant
                i <= n,
                n == self.items@.len(),
                forall|j: int| 0 <= j < i ==> self.items@[j] != key,
            decreases n - i,
        {
            if self.items[i] == key {
                return true;
            }
            i += 1;
        }
        false
    }

    /// The number of keys currently held.
    pub fn len(&self) -> (r: usize)
        ensures
            r == self.seq_view().len(),
    {
        self.items.len()
    }

    /// The key at a position, in press order.
    pub fn get(&self, i: usize) -> (r: KeyId)
        requires
            i < self.seq_view().len(),
        ensures
            r == self.seq_view()[i as int],
    {
        self.items[i]
    }

    /// Records a key-down transition; holding an already-held key changes
    /// nothing.
    pub fn insert(&mut self, key: KeyId)
        requires
            old(self).wf(),
        ensures
            final(self).wf(),
            final(self).seq_view() == (if old(self).seq_view().contains(key) {
                old(self).seq_view()
            } else {
                old(self).seq_view().push(key)
            }),
    {
        if !self.contains(key) {
            self.items.push(key);
        }
    }

    /// Records a key-up transition; releasing a key that is not held
    /// changes nothing.
    pub fn remove(&mut self, key: KeyId)
        requires
            old(self).wf(),
        ensures
            final(self).wf(),
            final(self).seq_view() == old(self).seq_view().remove_value(key),
    {
        let n = self.items.len();
        let mut i: usize = 0;
        while i < n
            invariant
                i <= n,
                n == self.items@.len(),
                self.wf(),
                self.items@ == old(self).items@,
                forall|j: int| 0 <= j < i ==> self.items@[j] != key,
            decreases n - i,
        {
            if self.items[i] == key {
                self.items.remove(i);
                proof {
                    old(self).items@.index_of_first_ensures(key);
                    assert(old(self).items@.index_of_first(key) == Some(i as int));
                    assert(self.items@.no_duplicates()) by {
                        old(self).items@.remove_ensures(i as int);
                    }
                }
                return;
            }
            i += 1;
        }
        proof {
            assert(!old(self).items@.contains(key));
            old(self).items@.index_of_first_ensures(key);
        }
    }
}

/// The four input-handler maps: key press, key release, key held, and
/// mouse-button press.
pub struct HandlerRegistry {
    /// Invoked on a key-down transition.
    pub on_press: KeyMap,
    /// Invoked on a key-up transition.
    pub on_release: KeyMap,
    /// Invoked once per frame for each currently-held key.
    pub on_held: KeyMap,
    /// Invoked on a mouse-button press.
    pub on_mouse_press: ButtonMap,
}

impl HandlerRegistry {
    /// All four maps are well formed.
    pub open spec fn wf(self) -> bool {
        self.on_press.wf() && self.on_release.wf() && self.on_held.wf()
            && self.on_mouse_press.wf()
    }

    /// An empty registry.
    pub fn new() -> (r: Self)
        ensures
            r.wf(),
            r.on_press@ == Map::<KeyId, HandlerId>::empty(),
            r.on_release@ == Map::<KeyId, HandlerId>::empty(),
            r.on_held@ == Map::<KeyId, HandlerId>::empty(),
            r.on_mouse_press@ == Map::<ButtonId, HandlerId>::empty(),
    {
        HandlerRegistry {
            on_press: KeyMap::new(),
            on_release: KeyMap::new(),
            on_held: KeyMap::new(),
            on_mouse_press: ButtonMap::new(),
        }
    }
}

/// Updating the entry that holds a key acts as a map insert.
proof fn lemma_assoc_update<K>(s: Seq<(K, HandlerId)>, k: K, h: HandlerId, i: int)
    requires
        entry_keys_unique(s),
        0 <= i < s.len(),
        s[i].0 == k,
    ensures
        entry_keys_unique(s.update(i, (k, h))),
        assoc_map(s.update(i, (k, h))) == assoc_map(s).insert(k, h),
    decreases s.len(),
{
    let t = s.update(i, (k, h));
    assert(entry_keys_unique(t));
    assert(t.len() == s.len());
    if i == s.len() - 1 {
        assert(t.drop_last() =~= s.drop_last());
        assert(assoc_map(t) == assoc_map(s.drop_last()).insert(k, h));
        assert(assoc_map(s) == assoc_map(s.drop_last()).insert(k, s[i].1));
        assert(assoc_map(s).insert(k, h) =~= assoc_map(s.drop_last()).insert(k, h));
    } else {
        assert(entry_keys_unique(s.drop_last())) by {
            assert forall|p: int, q: int|
                0 <= p < q < s.drop_last().len() implies (#[trigger] s.drop_last()[p]).0
                != (#[trigger] s.drop_last()[q]).0 by {
                assert(s.drop_last()[p] == s[p]);
                assert(s.drop_last()[q] == s[q]);
            }
        }
        assert(s.drop_last()[i] == s[i]);
        lemma_assoc_update(s.drop_last(), k, h, i);
        assert(t.drop_last() =~= s.drop_last().update(i, (k, h)));
        assert(s.last().0 != k);
        assert(t.last() == s.last());
        assert(assoc_map(t) == assoc_map(s.drop_last()).insert(k, h).insert(s.last().0, s.last().1));
        assert(assoc_map(s.drop_last()).insert(k, h).insert(s.last().0, s.last().1)
            =~= assoc_map(s.drop_last()).insert(s.last().0, s.last().1).insert(k, h));
    }
}

} // verus!

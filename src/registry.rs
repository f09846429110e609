use vstd::prelude::*;

verus! {

/// The index of a handler in the application's table of handler functions.
pub type HandlerId = usize;

/// A lookup table from a string key (a command's type name or an event's topic)
/// to a value, with each key held at most once.
pub struct Registry<T> {
    entries: Vec<(String, T)>,
}

/// Command type name to the one handler of that command.
pub type CommandRegistry = Registry<HandlerId>;

/// Event topic to the handlers of that topic, in registration order.
pub type EventRegistry = Registry<Vec<HandlerId>>;

impl<T> View for Registry<T> {
    type V = Map<Seq<char>, T>;

    closed spec fn view(&self) -> Map<Seq<char>, T> {
        Map::new(
            |k: Seq<char>| self.has_key_at(k),
            |k: Seq<char>| self.entries@[self.key_index(k)].1,
        )
    }
}

impl<T> Registry<T> {
    spec fn has_key_at(&self, k: Seq<char>) -> bool {
        exists|i: int| 0 <= i < self.entries@.len() && (#[trigger] self.entries@[i]).0@ == k
    }

    spec fn key_index(&self, k: Seq<char>) -> int {
        choose|i: int| 0 <= i < self.entries@.len() && (#[trigger] self.entries@[i]).0@ == k
    }

    /// Each key is held by one entry only.
    pub closed spec fn wf(&self) -> bool {
        forall|i: int, j: int|
            0 <= i < j < self.entries@.len() ==> (#[trigger] self.entries@[i]).0@ != (
            #[trigger] self.entries@[j]).0@
    }

    proof fn lemma_entry(&self, i: int)
        requires
            self.wf(),
            0 <= i < self.entries@.len(),
        ensures
            self@.contains_key(self.entries@[i].0@),
            self@[self.entries@[i].0@] == self.entries@[i].1,
    {
        let k = self.entries@[i].0@;
        assert(self.has_key_at(k));
        let j = self.key_index(k);
        assert(j == i);
    }

    /// An empty table.
    pub fn new() -> (r: Registry<T>)
        ensures
            r.wf(),
            r@ == Map::<Seq<char>, T>::empty(),
    {
        let r = Registry { entries: Vec::new() };
        assert(r@ =~= Map::<Seq<char>, T>::empty());
        r
    }

    /// The value held for `key`, if any.
    pub fn lookup(&self, key: &String) -> (r: Option<&T>)
        requires
            self.wf(),
        ensures
            r is Some <==> self@.contains_key(key@),
            r is Some ==> *r.unwrap() == self@[key@],
    {
        let mut i: usize = 0;
        while i < self.entries.len()
            invariant
                self.wf(),
                0 <= i <= self.entries@.len(),
                forall|k: int| 0 <= k < i ==> (#[trigger] self.entries@[k]).0@ != key@,
            decreases self.entries@.len() - i,
        {
            if self.entries[i].0 == *key {
                proof {
                    self.lemma_entry(i as int);
                }
                return Some(&self.entries[i].1);
            }
            i += 1;
        }
        proof {
            if self.has_key_at(key@) {
                let k = self.key_index(key@);
                assert(self.entries@[k].0@ == key@);
            }
        }
        None
    }

    /// Sets the value held for `key`; a later registration replaces an earlier one.
    pub fn register(&mut self, key: String, value: T)
        requires
            old(self).wf(),
        ensures
            final(self).wf(),
            final(self)@ == old(self)@.insert(key@, value),
    {
        let ghost k0 = key@;
        let ghost v0 = value;
        let mut i: usize = 0;
        let mut found = false;
        while i < self.entries.len() && !found
            invariant
                self.wf(),
                self == old(self),
                0 <= i <= self.entries@.len(),
                found ==> i < self.entries@.len() && self.entries@[i as int].0@ == key@,
                !found ==> forall|k: int| 0 <= k < i ==> (#[trigger] self.entries@[k]).0@ != key@,
            decreases self.entries@.len() - i + (if found { 0int } else { 1int }),
        {
            if self.entries[i].0 == key {
                found = true;
            } else {
                i += 1;
            }
        }
        let ghost before = *self;
        proof {
            if i < before.entries@.len() {
                assert(before.entries@[i as int].0@ == k0);
            }
        }
        if i < self.entries.len() {
            self.entries[i] = (key, value);
        } else {
            self.entries.push((key, value));
        }
        assert(self.entries@[i as int].0@ == k0 && self.entries@[i as int].1 == v0);
        assert forall|a: int| 0 <= a < self.entries@.len() && a != i implies #[trigger] self.entries@[a]
            == before.entries@[a] && before.entries@[a].0@ != k0 by {
            if i < before.entries@.len() {
                assert(before.entries@[a].0@ != before.entries@[i as int].0@);
            }
        }
        assert forall|a: int, b: int| 0 <= a < b < self.entries@.len() implies (
        #[trigger] self.entries@[a]).0@ != (#[trigger] self.entries@[b]).0@ by {
            if a != i && b != i {
                assert(before.entries@[a].0@ != before.entries@[b].0@);
            }
        }
        assert forall|k: Seq<char>| #[trigger] self@.contains_key(k) == before@.insert(k0, v0).contains_key(k) && (
        self@.contains_key(k) ==> self@[k] == before@.insert(k0, v0)[k]) by {
            if k == k0 {
                self.lemma_entry(i as int);
            } else {
                if self.has_key_at(k) {
                    let j = self.key_index(k);
                    self.lemma_entry(j);
                    assert(before.entries@[j] == self.entries@[j]);
                    before.lemma_entry(j);
                }
                if before.has_key_at(k) {
                    let j = before.key_index(k);
                    before.lemma_entry(j);
                    assert(before.entries@[j] == self.entries@[j]);
                    self.lemma_entry(j);
                }
            }
        }
        assert(self@ =~= before@.insert(k0, v0));
    }
}

} // verus!

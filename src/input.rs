//! Keyboard input: the keys the game knows, press and release events, and the
//! set of keys held down at this moment.
use vstd::prelude::*;

verus! {

#[derive(Clone, Copy, Debug, PartialEq, Eq, Structural)]
pub enum Key {
    W,
    S,
    Up,
    Down,
    /// Any other key, by its keyboard code; no paddle answers it.
    Other(i32),
}

#[derive(Clone, Copy, Debug, PartialEq, Eq, Structural)]
pub enum KeyState {
    Press,
    Release,
}

/// A key went down or came up.
#[derive(Clone, Copy, Debug, PartialEq, Eq, Structural)]
pub struct KeyEvent {
    pub key: Key,
    pub state: KeyState,
}

/// The keys held down at this moment.
pub struct KeySet {
    keys: Vec<Key>,
}

impl View for KeySet {
    type V = Set<Key>;

    closed spec fn view(&self) -> Set<Key> {
        self.keys@.to_set()
    }
}

proof fn lemma_push_contains(s: Seq<Key>, k: Key, x: Key)
    ensures
        s.push(k).contains(x) <==> s.contains(x) || x == k,
{
    if s.contains(x) {
        let i = choose|i: int| 0 <= i < s.len() && s[i] == x;
        assert(s.push(k)[i] == x);
    }
    if x == k {
        assert(s.push(k)[s.len() as int] == x);
    }
    if s.push(k).contains(x) && x != k {
        let i = choose|i: int| 0 <= i < s.len() + 1 && s.push(k)[i] == x;
        assert(s[i] == x);
    }
}

impl KeySet {
    pub fn new() -> (r: KeySet)
        ensures
            r@ == Set::<Key>::empty(),
    {
        let r = KeySet { keys: Vec::new() };
        assert(r@ =~= Set::<Key>::empty());
        r
    }

    pub fn contains(&self, k: Key) -> (r: bool)
        ensures
            r == self@.contains(k),
    {
        let mut i: usize = 0;
        while i < self.keys.len()
            invariant
                0 <= i <= self.keys@.len(),
                forall|j: int| 0 <= j < i ==> self.keys@[j] != k,
            decreases self.keys@.len() - i,
        {
            if self.keys[i] == k {
                return true;
            }
            i = i + 1;
        }
        false
    }

    /// Marks `k` as held.
    pub fn insert(&mut self, k: Key)
        ensures
            final(self)@ == old(self)@.insert(k),
    {
        if !self.contains(k) {
            self.keys.push(k);
            proof {
                assert forall|x: Key| #[trigger] self@.contains(x) <==> old(self)@.insert(
                    k,
                ).contains(x) by {
                    lemma_push_contains(old(self).keys@, k, x);
                }
            }
        }
        assert(self@ =~= old(self)@.insert(k));
    }

    /// Marks `k` as released.
    pub fn remove(&mut self, k: Key)
        ensures
            final(self)@ == old(self)@.remove(k),
    {
        let mut kept: Vec<Key> = Vec::new();
        let mut i: usize = 0;
        while i < self.keys.len()
            invariant
                0 <= i <= self.keys@.len(),
                self.keys@ == old(self).keys@,
                forall|x: Key|
                    #![trigger kept@.contains(x)]
                    kept@.contains(x) <==> self.keys@.subrange(0, i as int).contains(x) && x != k,
            decreases self.keys@.len() - i,
        {
            let x = self.keys[i];
            let ghost before = kept@;
            if x != k {
                kept.push(x);
            }
            proof {
                let s = self.keys@;
                assert(s.subrange(0, i + 1) =~= s.subrange(0, i as int).push(x));
                assert forall|y: Key|
                    kept@.contains(y) <==> s.subrange(0, i + 1).contains(y) && y != k by {
                    lemma_push_contains(s.subrange(0, i as int), x, y);
                    lemma_push_contains(before, x, y);
                }
            }
            i = i + 1;
        }
        assert(self.keys@.subrange(0, self.keys@.len() as int) =~= self.keys@);
        self.keys = kept;
        assert(self@ =~= old(self)@.remove(k));
    }
}

} // verus!

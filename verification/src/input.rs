use std::collections::HashSet;
use vstd::prelude::*;
use vstd::std_specs::iter::IteratorSpec;

verus! {

/// A key of the keyboard, as the number of its code.
pub type KeyCode = u32;

/// The code of the key `Q`.
pub const KEY_Q: KeyCode = 26;

/// Whether a key went down or came up.
#[derive(Debug, Clone, Copy, PartialEq, Eq, Structural)]
pub enum ButtonState {
    Pressed,
    Released,
}

/// What the window reports to the input tracker.
#[derive(Debug, Clone, Copy, PartialEq, Eq, Structural)]
pub enum Event {
    /// A key changed its state.
    Keyboard { key_code: KeyCode, state: ButtonState },
    /// Anything else: it leaves the tracker as it is.
    Other,
}

/// The keys that went down, are held, or came up since the tracker was last
/// cleared.
#[derive(Debug)]
pub struct TestCustomInput {
    pub keys_pressed: HashSet<KeyCode>,
    pub keys_held: HashSet<KeyCode>,
    pub keys_released: HashSet<KeyCode>,
}

impl TestCustomInput {
    pub fn get_keys_pressed(&mut self) -> (keys: &HashSet<KeyCode>)
        ensures
            keys@ == old(self).keys_pressed@,
            *final(self) == *old(self),
    {
        &self.keys_pressed
    }

    pub fn get_keys_held(&mut self) -> (keys: &HashSet<KeyCode>)
        ensures
            keys@ == old(self).keys_held@,
            *final(self) == *old(self),
    {
        &self.keys_held
    }

    pub fn get_keys_released(&mut self) -> (keys: &HashSet<KeyCode>)
        ensures
            keys@ == old(self).keys_released@,
            *final(self) == *old(self),
    {
        &self.keys_released
    }

    /// A tracker that has seen no key.
    pub fn new() -> (input: TestCustomInput)
        ensures
            input.keys_pressed@ == Set::<KeyCode>::empty(),
            input.keys_held@ == Set::<KeyCode>::empty(),
            input.keys_released@ == Set::<KeyCode>::empty(),
    {
        TestCustomInput {
            keys_pressed: HashSet::new(),
            keys_held: HashSet::new(),
            keys_released: HashSet::new(),
        }
    }

    /// Takes note of an event. A key that goes down counts as pressed unless
    /// it is held already; a key that comes up counts as released and is held
    /// no longer.
    pub fn update(&mut self, event: Event)
        ensures
            final(self).keys_pressed@ == (match event {
                Event::Keyboard { key_code, state: ButtonState::Pressed } => if old(
                    self,
                ).keys_held@.contains(key_code) {
                    old(self).keys_pressed@
                } else {
                    old(self).keys_pressed@.insert(key_code)
                },
                _ => old(self).keys_pressed@,
            }),
            final(self).keys_held@ == (match event {
                Event::Keyboard { key_code, state: ButtonState::Released } => old(
                    self,
                ).keys_held@.remove(key_code),
                _ => old(self).keys_held@,
            }),
            final(self).keys_released@ == (match event {
                Event::Keyboard { key_code, state: ButtonState::Released } => old(
                    self,
                ).keys_released@.insert(key_code),
                _ => old(self).keys_released@,
            }),
    {
        broadcast use vstd::std_specs::hash::group_hash_axioms;

        match event {
            Event::Keyboard { key_code, state } => match state {
                ButtonState::Pressed => {
                    if !self.keys_held.contains(&key_code) {
                        self.keys_pressed.insert(key_code);
                    }
                },
                ButtonState::Released => {
                    self.keys_released.insert(key_code);
                    self.keys_held.remove(&key_code);
                },
            },
            Event::Other => {},
        }
    }

    /// Ends a tick: the keys that were pressed are held from now on, and
    /// nothing counts as pressed or released any more.
    pub fn clear(&mut self)
        ensures
            final(self).keys_held@ == old(self).keys_held@.union(old(self).keys_pressed@),
            final(self).keys_pressed@ == Set::<KeyCode>::empty(),
            final(self).keys_released@ == Set::<KeyCode>::empty(),
    {
        broadcast use vstd::std_specs::hash::group_hash_axioms;

        let ghost held = self.keys_held@;
        let ghost pressed = self.keys_pressed@;
        let mut keys_held: HashSet<KeyCode> = HashSet::new();
        std::mem::swap(&mut keys_held, &mut self.keys_held);
        for key in it: self.keys_pressed.iter()
            invariant
                pressed == self.keys_pressed@,
                it.seq().unref().to_set() == pressed,
                keys_held@ == held.union(it.seq().unref().take(it.index() as int).to_set()),
        {
            let ghost before = it.seq().unref().take(it.index() as int);
            keys_held.insert(*key);
            proof {
                let after = it.seq().unref().take(it.index() + 1);
                assert(after =~= before.push(*key));
                assert(after.to_set() =~= before.to_set().insert(*key)) by {
                    assert forall|k: KeyCode| after.contains(k) <==> before.contains(k) || k
                        == *key by {
                        if before.contains(k) {
                            let j = choose|j: int| 0 <= j < before.len() && before[j] == k;
                            assert(after[j] == k);
                        }
                        if k == *key {
                            assert(after[before.len() as int] == k);
                        }
                    }
                }
            }
        }
        proof {
            let keys = self.keys_pressed.iter().remaining().unref();
            assert(keys.take(keys.len() as int) =~= keys);
        }
        self.keys_held = keys_held;
        self.keys_pressed.clear();
        self.keys_released.clear();
    }
}

} // verus!

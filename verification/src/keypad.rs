//! The keypad: sixteen keys, `0` to `F`, each up or down. The host sets them;
//! the engine only reads them.

use vstd::prelude::*;

verus! {

/// A keypad with every key up.
pub open spec fn released() -> Seq<bool> {
    Seq::new(16, |k: int| false)
}

/// Whether the key that `index` names is down. An index above 15 names no
/// key, and no key is never down.
pub open spec fn key_down(keys: Seq<bool>, index: u8) -> bool {
    index < 16 && keys[index as int]
}

/// The lowest key from `from` on that is down, if any is.
pub open spec fn first_down_from(keys: Seq<bool>, from: int) -> Option<u8>
    decreases 16 - from,
{
    if from < 0 || from >= 16 {
        None
    } else if keys[from] {
        Some(from as u8)
    } else {
        first_down_from(keys, from + 1)
    }
}

/// The lowest key that is down, if any is.
pub open spec fn first_down(keys: Seq<bool>) -> Option<u8> {
    first_down_from(keys, 0)
}

/// `first_down` in words: the key it names is down and every lower key is
/// up; it names none only when every key is up.
pub proof fn lemma_first_down(keys: Seq<bool>)
    ensures
        match first_down(keys) {
            Some(k) => k < 16 && keys[k as int] && forall|j: int| 0 <= j < k ==> !keys[j],
            None => forall|j: int| 0 <= j < 16 ==> !keys[j],
        },
{
    lemma_first_down_from(keys, 0);
}

proof fn lemma_first_down_from(keys: Seq<bool>, from: int)
    requires
        0 <= from <= 16,
    ensures
        match first_down_from(keys, from) {
            Some(k) => {
                &&& from <= k < 16
                &&& keys[k as int]
                &&& forall|j: int| from <= j < k ==> !keys[j]
            },
            None => forall|j: int| from <= j < 16 ==> !keys[j],
        },
    decreases 16 - from,
{
    if from < 16 && !keys[from] {
        lemma_first_down_from(keys, from + 1);
    }
}

/// The keypad.
pub struct Keypad {
    keys: [bool; 16],
}

impl View for Keypad {
    type V = Seq<bool>;

    closed spec fn view(&self) -> Seq<bool> {
        self.keys@
    }
}

impl Keypad {
    /// A keypad with every key up.
    pub fn new() -> (k: Keypad)
        ensures
            k@ == released(),
    {
        let k = Keypad { keys: [false; 16] };
        assert(k@ =~= released());
        k
    }

    /// Records that `key` went down or up.
    pub fn set(&mut self, key: u8, down: bool)
        requires
            key < 16,
        ensures
            final(self)@ == old(self)@.update(key as int, down),
    {
        self.keys[key as usize] = down;
    }

    /// Whether the key that `index` names is down.
    pub fn is_down(&self, index: u8) -> (down: bool)
        ensures
            down == key_down(self@, index),
    {
        index < 16 && self.keys[index as usize]
    }

    /// The lowest key that is down, if any is.
    pub fn first_down(&self) -> (key: Option<u8>)
        ensures
            key == first_down(self@),
    {
        let mut k: u8 = 0;
        while k < 16
            invariant
                k <= 16,
                first_down(self@) == first_down_from(self@, k as int),
            decreases 16 - k,
        {
            if self.keys[k as usize] {
                return Some(k);
            }
            k += 1;
        }
        None
    }
}

} // verus!

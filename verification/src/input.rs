use vstd::prelude::*;

verus! {

/// A key of the keyboard, by its code, or the stand-in for any key at all.
#[derive(Clone, Copy, Debug, PartialEq, Eq, Structural, Hash)]
pub enum KeyCode {
    /// Not a key: asks whether any key is held.
    Any,
    /// The key with this code.
    Key(u32),
}

/// A set of keys that count as one action when all of them are held.
#[derive(Clone, Debug)]
pub struct Action(pub Vec<KeyCode>);

impl Action {
    /// The action of these keys.
    pub fn new(keys: Vec<KeyCode>) -> (action: Action)
        ensures
            action.0@ == keys@,
    {
        Action(keys)
    }
}

/// What the answers of the input source mean. The keys that are held at one
/// moment come from the keyboard, through whoever drives the tree.
pub struct Input;

/// What `get_key` answers, as a number.
pub open spec fn key_state(pressed: Seq<KeyCode>, key: KeyCode) -> int {
    if key == KeyCode::Any {
        if pressed.len() > 0 {
            1
        } else {
            0
        }
    } else if pressed.contains(key) {
        1
    } else {
        0
    }
}

impl Input {
    /// Whether `key` is among `pressed`.
    fn is_pressed(pressed: &Vec<KeyCode>, key: KeyCode) -> (held: bool)
        ensures
            held == pressed@.contains(key),
    {
        let mut at: usize = 0;
        while at < pressed.len()
            invariant
                at <= pressed@.len(),
                forall|i: int| 0 <= i < at ==> pressed@[i] != key,
            decreases pressed@.len() - at,
        {
            if pressed[at] == key {
                return true;
            }
            at = at + 1;
        }
        false
    }

    /// Whether any key at all is held.
    pub fn any_key_pressed(pressed: &Vec<KeyCode>) -> (any: bool)
        ensures
            any == (pressed@.len() > 0),
    {
        pressed.len() > 0
    }

    /// 1 if `key` is held, 0 if not. For `KeyCode::Any`: 1 if any key is held.
    pub fn get_key(pressed: &Vec<KeyCode>, key: KeyCode) -> (state: i8)
        ensures
            state == key_state(pressed@, key),
    {
        if key == KeyCode::Any {
            return if pressed.len() > 0 {
                1
            } else {
                0
            };
        }
        if Self::is_pressed(pressed, key) {
            1
        } else {
            0
        }
    }

    /// The direction that four keys give, before it is brought to length
    /// one: right less left, and up less down.
    pub fn get_vector(
        pressed: &Vec<KeyCode>,
        up: KeyCode,
        down: KeyCode,
        left: KeyCode,
        right: KeyCode,
    ) -> (direction: (i32, i32))
        ensures
            direction.0 == key_state(pressed@, right) - key_state(pressed@, left),
            direction.1 == key_state(pressed@, up) - key_state(pressed@, down),
    {
        let x: i32 = Self::get_key(pressed, right) as i32 - Self::get_key(pressed, left) as i32;
        let y: i32 = Self::get_key(pressed, up) as i32 - Self::get_key(pressed, down) as i32;
        (x, y)
    }

    /// Whether every key of `action` is held.
    pub fn get_action(pressed: &Vec<KeyCode>, action: &Action) -> (held: bool)
        ensures
            held == (forall|i: int|
                0 <= i < action.0@.len() ==> pressed@.contains(#[trigger] action.0@[i])),
    {
        let mut at: usize = 0;
        while at < action.0.len()
            invariant
                at <= action.0@.len(),
                forall|i: int| 0 <= i < at ==> pressed@.contains(#[trigger] action.0@[i]),
            decreases action.0@.len() - at,
        {
            if !Self::is_pressed(pressed, action.0[at]) {
                return false;
            }
            at = at + 1;
        }
        true
    }
}

} // verus!

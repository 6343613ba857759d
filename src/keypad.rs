use vstd::prelude::*;

verus! {

/// The keys on the ATM keypad.
#[derive(Clone, Copy, PartialEq, Eq, Structural, Debug, Hash)]
pub enum Key {
    One,
    Two,
    Three,
    Four,
    Enter,
}

/// The decimal digit a key stands for; `Enter` carries none.
pub open spec fn digit_of(k: Key) -> nat {
    match k {
        Key::One => 1,
        Key::Two => 2,
        Key::Three => 3,
        Key::Four => 4,
        Key::Enter => 0,
    }
}

/// The byte that stands for a key when a key sequence is hashed.
pub open spec fn key_code(k: Key) -> u8 {
    match k {
        Key::One => 1,
        Key::Two => 2,
        Key::Three => 3,
        Key::Four => 4,
        Key::Enter => 0,
    }
}

/// The canonical text of a key.
pub open spec fn key_label(k: Key) -> Seq<char> {
    match k {
        Key::One => seq!['1'],
        Key::Two => seq!['2'],
        Key::Three => seq!['3'],
        Key::Four => seq!['4'],
        Key::Enter => seq!['E', 'n', 't', 'e', 'r'],
    }
}

impl Key {
    /// The digit this key stands for, or `None` for `Enter`.
    pub fn digit(&self) -> (r: Option<u64>)
        ensures
            r == (if *self is Enter { None::<u64> } else { Some(digit_of(*self) as u64) }),
    {
        match self {
            Key::One => Some(1),
            Key::Two => Some(2),
            Key::Three => Some(3),
            Key::Four => Some(4),
            Key::Enter => None,
        }
    }

    /// The byte that stands for this key in a hashed key sequence.
    pub fn code(&self) -> (r: u8)
        ensures
            r == key_code(*self),
    {
        match self {
            Key::One => 1,
            Key::Two => 2,
            Key::Three => 3,
            Key::Four => 4,
            Key::Enter => 0,
        }
    }

    /// The canonical text of this key: `"1"` to `"4"`, or `"Enter"`.
    pub fn label(&self) -> (r: &'static str)
        ensures
            r@ == key_label(*self),
    {
        match self {
            Key::One => {
                proof { reveal_strlit("1"); }
                "1"
            },
            Key::Two => {
                proof { reveal_strlit("2"); }
                "2"
            },
            Key::Three => {
                proof { reveal_strlit("3"); }
                "3"
            },
            Key::Four => {
                proof { reveal_strlit("4"); }
                "4"
            },
            Key::Enter => {
                proof { reveal_strlit("Enter"); }
                "Enter"
            },
        }
    }

    /// The canonical text of this key as an owned string.
    pub fn to_string(&self) -> (r: String)
        ensures
            r@ == key_label(*self),
    {
        self.label().to_owned()
    }
}

impl From<Key> for &'static str {
    fn from(key: Key) -> (r: &'static str) {
        match key {
            Key::One => "1",
            Key::Two => "2",
            Key::Three => "3",
            Key::Four => "4",
            Key::Enter => "Enter",
        }
    }
}

impl vstd::std_specs::convert::FromSpecImpl<Key> for &'static str {
    open spec fn obeys_from_spec() -> bool {
        true
    }

    open spec fn from_spec(key: Key) -> &'static str {
        match key {
            Key::One => "1",
            Key::Two => "2",
            Key::Three => "3",
            Key::Four => "4",
            Key::Enter => "Enter",
        }
    }
}

} // verus!

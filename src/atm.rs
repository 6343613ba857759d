use std::collections::hash_map::DefaultHasher;
use std::hash::Hasher;
use vstd::prelude::*;
use vstd::std_specs::hash::DefaultHasherAdditionalSpecFns;
use crate::amount::{amount_of, parse_amount};
use crate::keypad::{Key, key_code};

verus! {

/// Something you can do to the ATM.
#[derive(Clone, Copy, PartialEq, Eq, Structural, Debug)]
pub enum Action {
    /// Swipe a card that carries the digest of its correct PIN.
    SwipeCard(u64),
    /// Press one key of the keypad.
    PressKey(Key),
}

/// The stages of authentication the ATM goes through.
#[derive(Clone, Copy, PartialEq, Eq, Structural, Debug)]
pub enum Auth {
    /// No card is present.
    Waiting,
    /// A card is present; the user is typing the PIN whose digest it carries.
    Authenticating(u64),
    /// The PIN was accepted; the user may type an amount to withdraw.
    Authenticated,
}

/// The ATM.
#[derive(PartialEq, Debug)]
pub struct Atm {
    /// The money the machine still holds.
    pub cash_inside: u64,
    /// Where the machine stands in authenticating its user.
    pub expected_pin_hash: Auth,
    /// The keys typed since the last change of stage.
    pub keystroke_register: Vec<Key>,
}

/// The abstract state of an ATM.
pub struct AtmView {
    /// The money the machine holds.
    pub cash: u64,
    /// The stage of authentication.
    pub phase: Auth,
    /// The keys typed in the current stage.
    pub keys: Seq<Key>,
}

impl View for Atm {
    type V = AtmView;

    open spec fn view(&self) -> AtmView {
        AtmView {
            cash: self.cash_inside,
            phase: self.expected_pin_hash,
            keys: self.keystroke_register@,
        }
    }
}

impl Default for Auth {
    fn default() -> (r: Auth)
        ensures
            r is Waiting,
    {
        Auth::Waiting
    }
}

/// The bytes that a key sequence is hashed as: one code per key.
pub open spec fn key_codes(keys: Seq<Key>) -> Seq<u8> {
    keys.map_values(|k: Key| key_code(k))
}

/// The digest of a PIN typed as a key sequence: the standard library's
/// default hasher, fed the key codes in one write.
pub open spec fn pin_digest(keys: Seq<Key>) -> u64 {
    DefaultHasher::spec_finish(seq![key_codes(keys)])
}

/// A state is well formed when no keys are kept while no card is present.
pub open spec fn wf(s: AtmView) -> bool {
    s.phase is Waiting ==> s.keys.len() == 0
}

/// The state an ATM in state `s` moves to on `action`.
pub open spec fn step(s: AtmView, action: Action) -> AtmView {
    match action {
        Action::SwipeCard(d) => AtmView {
            cash: s.cash,
            phase: Auth::Authenticating(d),
            keys: if s.phase is Authenticating { s.keys } else { Seq::empty() },
        },
        Action::PressKey(k) => match s.phase {
            Auth::Waiting => AtmView { cash: s.cash, phase: Auth::Waiting, keys: Seq::empty() },
            Auth::Authenticating(d) => if k is Enter {
                AtmView {
                    cash: s.cash,
                    phase: if pin_digest(s.keys) == d { Auth::Authenticated } else { Auth::Waiting },
                    keys: Seq::empty(),
                }
            } else {
                AtmView { cash: s.cash, phase: Auth::Authenticating(d), keys: s.keys.push(k) }
            },
            Auth::Authenticated => if k is Enter {
                AtmView {
                    cash: if amount_of(s.keys) <= s.cash {
                        (s.cash - amount_of(s.keys)) as u64
                    } else {
                        s.cash
                    },
                    phase: Auth::Waiting,
                    keys: Seq::empty(),
                }
            } else {
                AtmView { cash: s.cash, phase: Auth::Authenticated, keys: s.keys.push(k) }
            },
        },
    }
}

/// Hashes a PIN typed as a key sequence.
pub fn hash(keys: &Vec<Key>) -> (r: u64)
    ensures
        r == pin_digest(keys@),
{
    let mut codes: Vec<u8> = Vec::new();
    let mut i: usize = 0;
    while i < keys.len()
        invariant
            i <= keys@.len(),
            codes@ == key_codes(keys@.subrange(0, i as int)),
        decreases keys@.len() - i,
    {
        codes.push(keys[i].code());
        i = i + 1;
        assert(codes@ =~= key_codes(keys@.subrange(0, i as int)));
    }
    assert(keys@.subrange(0, keys@.len() as int) =~= keys@);
    let mut hasher = DefaultHasher::new();
    hasher.write(codes.as_slice());
    hasher.finish()
}

/// A copy of a key sequence.
fn copy_keys(keys: &Vec<Key>) -> (r: Vec<Key>)
    ensures
        r@ == keys@,
{
    let mut r: Vec<Key> = Vec::new();
    let mut i: usize = 0;
    while i < keys.len()
        invariant
            i <= keys@.len(),
            r@ == keys@.subrange(0, i as int),
        decreases keys@.len() - i,
    {
        r.push(keys[i]);
        i = i + 1;
        assert(r@ =~= keys@.subrange(0, i as int));
    }
    assert(r@ =~= keys@);
    r
}

impl Atm {
    /// A machine holding `cash_inside`, with no card present.
    pub fn new(cash_inside: u64) -> (r: Atm)
        ensures
            r@.cash == cash_inside,
            r@.phase is Waiting,
            r@.keys.len() == 0,
            wf(r@),
    {
        Atm { cash_inside, expected_pin_hash: Auth::default(), keystroke_register: Vec::new() }
    }

    /// The state the machine moves to from `starting_state` on `t`.
    pub fn next_state(starting_state: &Atm, t: &Action) -> (r: Atm)
        ensures
            r@ == step(starting_state@, *t),
    {
        let cash = starting_state.cash_inside;
        match t {
            Action::SwipeCard(pin_hash) => {
                let keys = match starting_state.expected_pin_hash {
                    // a card swiped again mid-entry keeps what was typed
                    Auth::Authenticating(_) => copy_keys(&starting_state.keystroke_register),
                    _ => Vec::new(),
                };
                Atm {
                    cash_inside: cash,
                    expected_pin_hash: Auth::Authenticating(*pin_hash),
                    keystroke_register: keys,
                }
            },
            Action::PressKey(key) => match starting_state.expected_pin_hash {
                // keys pressed before a card is swiped are ignored
                Auth::Waiting => Atm {
                    cash_inside: cash,
                    expected_pin_hash: Auth::Waiting,
                    keystroke_register: Vec::new(),
                },
                Auth::Authenticating(pin_hash) => match key {
                    Key::Enter => {
                        let phase = if hash(&starting_state.keystroke_register) == pin_hash {
                            Auth::Authenticated
                        } else {
                            Auth::Waiting
                        };
                        Atm { cash_inside: cash, expected_pin_hash: phase, keystroke_register: Vec::new() }
                    },
                    _ => {
                        let mut keys = copy_keys(&starting_state.keystroke_register);
                        keys.push(*key);
                        Atm {
                            cash_inside: cash,
                            expected_pin_hash: Auth::Authenticating(pin_hash),
                            keystroke_register: keys,
                        }
                    },
                },
                Auth::Authenticated => match key {
                    Key::Enter => {
                        // a request for more than the machine holds is dropped
                        let left = match parse_amount(&starting_state.keystroke_register) {
                            Some(amount) if amount <= cash => cash - amount,
                            _ => cash,
                        };
                        Atm { cash_inside: left, expected_pin_hash: Auth::Waiting, keystroke_register: Vec::new() }
                    },
                    _ => {
                        let mut keys = copy_keys(&starting_state.keystroke_register);
                        keys.push(*key);
                        Atm {
                            cash_inside: cash,
                            expected_pin_hash: Auth::Authenticated,
                            keystroke_register: keys,
                        }
                    },
                },
            },
        }
    }
}

} // verus!

use state_machine_atm::amount::parse_amount;
use state_machine_atm::atm::{hash, Action, Atm, Auth};
use state_machine_atm::keypad::Key;

fn press_all(start: Atm, keys: &[Key]) -> Atm {
    let mut state = start;
    for k in keys {
        state = Atm::next_state(&state, &Action::PressKey(*k));
    }
    state
}

#[test]
fn parse_two_digits() {
    assert_eq!(parse_amount(&vec![Key::One, Key::Four]), Some(14));
}

#[test]
fn parse_empty_is_zero() {
    assert_eq!(parse_amount(&Vec::new()), Some(0));
}

#[test]
fn parse_three_digits() {
    assert_eq!(parse_amount(&vec![Key::Four, Key::Two, Key::Three]), Some(423));
}

#[test]
fn parse_stops_at_enter() {
    assert_eq!(parse_amount(&vec![Key::Two, Key::Enter, Key::Four]), Some(2));
    assert_eq!(parse_amount(&vec![Key::Enter, Key::Three]), Some(0));
}

#[test]
fn parse_largest_amount() {
    // 18446744073709551615 is u64::MAX; these keys spell 14444444444444444444
    let mut keys = vec![Key::One];
    for _ in 0..19 {
        keys.push(Key::Four);
    }
    assert_eq!(parse_amount(&keys), Some(14444444444444444444));
}

#[test]
fn parse_too_large_amount() {
    let keys = vec![Key::Four; 20];
    assert_eq!(parse_amount(&keys), None);
}

#[test]
fn withdraw_too_large_amount_keeps_cash() {
    let start = Atm {
        cash_inside: u64::MAX,
        expected_pin_hash: Auth::Authenticated,
        keystroke_register: vec![Key::Four; 25],
    };
    let end = Atm::next_state(&start, &Action::PressKey(Key::Enter));
    assert_eq!(end.cash_inside, u64::MAX);
    assert_eq!(end.expected_pin_hash, Auth::Waiting);
    assert!(end.keystroke_register.is_empty());
}

#[test]
fn withdraw_acceptable_amount() {
    let start = Atm {
        cash_inside: 10,
        expected_pin_hash: Auth::Authenticated,
        keystroke_register: vec![Key::One],
    };
    let end = Atm::next_state(&start, &Action::PressKey(Key::Enter));
    let expected = Atm {
        cash_inside: 9,
        expected_pin_hash: Auth::Waiting,
        keystroke_register: Vec::new(),
    };
    assert_eq!(end, expected);
}

#[test]
fn withdraw_everything() {
    let start = Atm {
        cash_inside: 14,
        expected_pin_hash: Auth::Authenticated,
        keystroke_register: vec![Key::One, Key::Four],
    };
    let end = Atm::next_state(&start, &Action::PressKey(Key::Enter));
    assert_eq!(end.cash_inside, 0);
    assert_eq!(end.expected_pin_hash, Auth::Waiting);
}

#[test]
fn withdraw_nothing() {
    let start = Atm {
        cash_inside: 10,
        expected_pin_hash: Auth::Authenticated,
        keystroke_register: Vec::new(),
    };
    let end = Atm::next_state(&start, &Action::PressKey(Key::Enter));
    assert_eq!(end.cash_inside, 10);
    assert_eq!(end.expected_pin_hash, Auth::Waiting);
}

#[test]
fn whole_session_at_ten() {
    let pin = vec![Key::One, Key::Two, Key::Three, Key::Four];
    let start = Atm::new(10);
    let swiped = Atm::next_state(&start, &Action::SwipeCard(hash(&pin)));
    assert_eq!(swiped.expected_pin_hash, Auth::Authenticating(hash(&pin)));
    assert!(swiped.keystroke_register.is_empty());

    let authed = press_all(swiped, &[Key::One, Key::Two, Key::Three, Key::Four, Key::Enter]);
    assert_eq!(
        authed,
        Atm { cash_inside: 10, expected_pin_hash: Auth::Authenticated, keystroke_register: Vec::new() }
    );

    let refused = press_all(authed, &[Key::One, Key::Four, Key::Enter]);
    assert_eq!(
        refused,
        Atm { cash_inside: 10, expected_pin_hash: Auth::Waiting, keystroke_register: Vec::new() }
    );

    let again = Atm::next_state(&refused, &Action::SwipeCard(hash(&pin)));
    let authed = press_all(again, &[Key::One, Key::Two, Key::Three, Key::Four, Key::Enter]);
    let paid = press_all(authed, &[Key::One, Key::Enter]);
    assert_eq!(
        paid,
        Atm { cash_inside: 9, expected_pin_hash: Auth::Waiting, keystroke_register: Vec::new() }
    );
}

#[test]
fn reswipe_twice_keeps_keys() {
    let start = Atm {
        cash_inside: 10,
        expected_pin_hash: Auth::Authenticating(7),
        keystroke_register: vec![Key::Two, Key::Four],
    };
    let once = Atm::next_state(&start, &Action::SwipeCard(99));
    let twice = Atm::next_state(&once, &Action::SwipeCard(99));
    let expected = Atm {
        cash_inside: 10,
        expected_pin_hash: Auth::Authenticating(99),
        keystroke_register: vec![Key::Two, Key::Four],
    };
    assert_eq!(once, expected);
    assert_eq!(twice, expected);
}

#[test]
fn swipe_when_authenticated_starts_fresh() {
    let start = Atm {
        cash_inside: 5,
        expected_pin_hash: Auth::Authenticated,
        keystroke_register: vec![Key::Three],
    };
    let end = Atm::next_state(&start, &Action::SwipeCard(42));
    let expected = Atm {
        cash_inside: 5,
        expected_pin_hash: Auth::Authenticating(42),
        keystroke_register: Vec::new(),
    };
    assert_eq!(end, expected);
}

#[test]
fn every_key_ignored_while_waiting() {
    for k in [Key::One, Key::Two, Key::Three, Key::Four, Key::Enter] {
        let end = Atm::next_state(&Atm::new(10), &Action::PressKey(k));
        assert_eq!(end, Atm::new(10));
    }
}

#[test]
fn hash_depends_on_order() {
    let a = hash(&vec![Key::One, Key::Two]);
    let b = hash(&vec![Key::Two, Key::One]);
    assert_ne!(a, b);
    assert_eq!(a, hash(&vec![Key::One, Key::Two]));
    assert_ne!(hash(&vec![Key::One]), hash(&Vec::new()));
}

#[test]
fn wrong_pin_of_other_length() {
    let pin_hash = hash(&vec![Key::One, Key::Two, Key::Three, Key::Four]);
    let start = Atm {
        cash_inside: 10,
        expected_pin_hash: Auth::Authenticating(pin_hash),
        keystroke_register: vec![Key::One, Key::Two, Key::Three],
    };
    let end = Atm::next_state(&start, &Action::PressKey(Key::Enter));
    assert_eq!(end, Atm::new(10));
}

#[test]
fn default_auth_is_waiting() {
    assert_eq!(Auth::default(), Auth::Waiting);
}

#[test]
fn key_labels() {
    assert_eq!(Key::One.label(), "1");
    assert_eq!(Key::Four.to_string(), "4");
    assert_eq!(Key::Enter.to_string(), "Enter");
    let s: &str = Key::Three.into();
    assert_eq!(s, "3");
    let e: &str = Key::Enter.into();
    assert_eq!(e, "Enter");
}

#[test]
fn key_digits_and_codes() {
    assert_eq!(Key::Two.digit(), Some(2));
    assert_eq!(Key::Enter.digit(), None);
    assert_eq!(Key::Three.code(), 3);
    assert_eq!(Key::Enter.code(), 0);
}

use vstd::prelude::*;
use crate::amount::amount_of;
use crate::atm::{Action, Auth, AtmView, pin_digest, step, wf};
use crate::keypad::Key;

verus! {

/// Swiping a card again while a PIN is being typed, once or twice with the
/// same digest, keeps every key typed so far.
pub proof fn lemma_reswipe_keeps_keys(s: AtmView, d: u64)
    requires
        s.phase is Authenticating,
    ensures
        step(s, Action::SwipeCard(d)).keys == s.keys,
        step(step(s, Action::SwipeCard(d)), Action::SwipeCard(d)) == step(s, Action::SwipeCard(d)),
        step(s, Action::SwipeCard(d)).phase == Auth::Authenticating(d),
        step(s, Action::SwipeCard(d)).cash == s.cash,
{
}

/// Swiping a card while no PIN is being typed starts a fresh session with no
/// keys kept.
pub proof fn lemma_swipe_starts_fresh(s: AtmView, d: u64)
    requires
        s.phase is Waiting || s.phase is Authenticated,
    ensures
        step(s, Action::SwipeCard(d)) == (AtmView {
            cash: s.cash,
            phase: Auth::Authenticating(d),
            keys: Seq::empty(),
        }),
{
}

/// Pressing any key before a card is swiped changes nothing.
pub proof fn lemma_keys_ignored_while_waiting(cash: u64, k: Key)
    ensures
        step(AtmView { cash, phase: Auth::Waiting, keys: Seq::empty() }, Action::PressKey(k))
            == (AtmView { cash, phase: Auth::Waiting, keys: Seq::empty() }),
{
}

/// `Enter` after a PIN authenticates the user exactly when the typed keys
/// hash to the card's digest, and otherwise ends the session; either way the
/// keys are cleared and the cash is untouched.
pub proof fn lemma_pin_check(s: AtmView, d: u64)
    requires
        s.phase == Auth::Authenticating(d),
    ensures
        pin_digest(s.keys) == d ==> step(s, Action::PressKey(Key::Enter)) == (AtmView {
            cash: s.cash,
            phase: Auth::Authenticated,
            keys: Seq::empty(),
        }),
        pin_digest(s.keys) != d ==> step(s, Action::PressKey(Key::Enter)) == (AtmView {
            cash: s.cash,
            phase: Auth::Waiting,
            keys: Seq::empty(),
        }),
{
}

/// `Enter` after an amount pays it out when the machine holds enough, and
/// otherwise leaves the cash alone; either way the session ends with the keys
/// cleared.
pub proof fn lemma_withdrawal_conserves_cash(s: AtmView)
    requires
        s.phase is Authenticated,
    ensures
        amount_of(s.keys) <= s.cash ==> step(s, Action::PressKey(Key::Enter)) == (AtmView {
            cash: (s.cash - amount_of(s.keys)) as u64,
            phase: Auth::Waiting,
            keys: Seq::empty(),
        }),
        amount_of(s.keys) > s.cash ==> step(s, Action::PressKey(Key::Enter)) == (AtmView {
            cash: s.cash,
            phase: Auth::Waiting,
            keys: Seq::empty(),
        }),
{
}

/// Every step keeps a state well formed, and no step adds cash.
pub proof fn lemma_step_preserves_wf(s: AtmView, action: Action)
    requires
        wf(s),
    ensures
        wf(step(s, action)),
        step(s, action).cash <= s.cash,
{
}

/// Whenever a step moves the machine to another stage, the keys typed so
/// far are dropped.
pub proof fn lemma_stage_change_clears_keys(s: AtmView, action: Action)
    ensures
        ((s.phase is Waiting) != (step(s, action).phase is Waiting)
            || (s.phase is Authenticating) != (step(s, action).phase is Authenticating)
            || (s.phase is Authenticated) != (step(s, action).phase is Authenticated))
            ==> step(s, action).keys.len() == 0,
{
}

} // verus!

use vstd::prelude::*;
use crate::keypad::{Key, digit_of};

verus! {

/// Reads `keys` as decimal digits, most significant first, after the digits
/// already read into `acc`; reading stops at the first `Enter`.
pub open spec fn read_digits(keys: Seq<Key>, acc: nat) -> nat
    decreases keys.len(),
{
    if keys.len() == 0 || keys[0] is Enter {
        acc
    } else {
        read_digits(keys.drop_first(), acc * 10 + digit_of(keys[0]))
    }
}

/// The withdrawal amount that a key sequence spells: its digits before the
/// first `Enter`, read in decimal; no digits spell zero.
pub open spec fn amount_of(keys: Seq<Key>) -> nat {
    read_digits(keys, 0)
}

/// Reading more digits never makes the amount smaller.
pub proof fn lemma_read_digits_grows(keys: Seq<Key>, acc: nat)
    ensures
        read_digits(keys, acc) >= acc,
    decreases keys.len(),
{
    if keys.len() > 0 && !(keys[0] is Enter) {
        lemma_read_digits_grows(keys.drop_first(), acc * 10 + digit_of(keys[0]));
    }
}

/// Parses a key sequence as a withdrawal amount. The result is `None` exactly
/// when the amount does not fit in a `u64`.
pub fn parse_amount(keys: &Vec<Key>) -> (r: Option<u64>)
    ensures
        r == (if amount_of(keys@) <= u64::MAX {
            Some(amount_of(keys@) as u64)
        } else {
            None::<u64>
        }),
{
    let mut acc: u64 = 0;
    let mut i: usize = 0;
    assert(keys@.subrange(0, keys@.len() as int) =~= keys@);
    while i < keys.len()
        invariant
            i <= keys@.len(),
            read_digits(keys@.subrange(i as int, keys@.len() as int), acc as nat) == amount_of(keys@),
        decreases keys@.len() - i,
    {
        let rest = Ghost(keys@.subrange(i as int, keys@.len() as int));
        assert(rest@.drop_first() =~= keys@.subrange(i + 1, keys@.len() as int));
        match keys[i].digit() {
            None => {
                return Some(acc);
            },
            Some(d) => {
                if acc > (u64::MAX - d) / 10 {
                    proof {
                        lemma_read_digits_grows(rest@.drop_first(), (acc * 10 + d) as nat);
                    }
                    return None;
                }
                acc = acc * 10 + d;
            },
        }
        i = i + 1;
    }
    Some(acc)
}

} // verus!

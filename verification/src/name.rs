//! Mapping from a host key slot to the durable remote key name.
//!
//! The remote service persists key material under the derived name, so the
//! mapping must be stable across process restarts and collision-free:
//! distinct slots must always derive distinct names.

use vstd::arithmetic::div_mod::lemma_fundamental_div_mod;
use vstd::prelude::*;

verus! {

/// Fixed textual prefix of every remote key name this driver derives.
/// Changing it would orphan every previously provisioned key.
pub const KEY_NAME_PREFIX: &'static str = "parsec-se-driver-key";

/// The decimal digit character for a value below ten.
pub open spec fn spec_digit_char(d: nat) -> char {
    if d == 0 {
        '0'
    } else if d == 1 {
        '1'
    } else if d == 2 {
        '2'
    } else if d == 3 {
        '3'
    } else if d == 4 {
        '4'
    } else if d == 5 {
        '5'
    } else if d == 6 {
        '6'
    } else if d == 7 {
        '7'
    } else if d == 8 {
        '8'
    } else {
        '9'
    }
}

/// The decimal digits of `n`, most significant first, with no leading
/// zero except for the single digit of zero itself.
pub open spec fn spec_decimal(n: nat) -> Seq<char>
    decreases n,
{
    if n < 10 {
        seq![spec_digit_char(n)]
    } else {
        spec_decimal(n / 10) + seq![spec_digit_char(n % 10)]
    }
}

/// The full remote key name derived from a host key slot: the fixed
/// prefix followed by the slot's decimal digits.
pub open spec fn spec_key_name(slot: nat) -> Seq<char> {
    KEY_NAME_PREFIX@ + spec_decimal(slot)
}

/// The collected low-order digits read back in reverse: digit values are
/// pushed least-significant first, the name wants them most-significant
/// first.
pub open spec fn spec_rev_digit_chars(digits: Seq<u64>) -> Seq<char> {
    Seq::new(digits.len(), |i: int| spec_digit_char(digits[digits.len() - 1 - i] as nat))
}

/// One decimal digit as the string holding just its character.
fn digit_str(d: u64) -> (r: &'static str)
    requires
        d < 10,
    ensures
        r@ =~= seq![spec_digit_char(d as nat)],
{
    if d == 0 {
        proof {
            reveal_strlit("0");
        }
        "0"
    } else if d == 1 {
        proof {
            reveal_strlit("1");
        }
        "1"
    } else if d == 2 {
        proof {
            reveal_strlit("2");
        }
        "2"
    } else if d == 3 {
        proof {
            reveal_strlit("3");
        }
        "3"
    } else if d == 4 {
        proof {
            reveal_strlit("4");
        }
        "4"
    } else if d == 5 {
        proof {
            reveal_strlit("5");
        }
        "5"
    } else if d == 6 {
        proof {
            reveal_strlit("6");
        }
        "6"
    } else if d == 7 {
        proof {
            reveal_strlit("7");
        }
        "7"
    } else if d == 8 {
        proof {
            reveal_strlit("8");
        }
        "8"
    } else {
        proof {
            reveal_strlit("9");
        }
        "9"
    }
}

/// Derive the remote key name for a host key slot.
///
/// The name is a pure function of the slot: repeated calls on the same
/// slot always return the same name.
pub fn key_slot_to_key_name(key_slot: u64) -> (name: String)
    ensures
        name@ == spec_key_name(key_slot as nat),
{
    let mut rev_digits: Vec<u64> = Vec::new();
    let mut n: u64 = key_slot;
    while n >= 10
        invariant
            spec_decimal(key_slot as nat) =~= spec_decimal(n as nat) + spec_rev_digit_chars(
                rev_digits@,
            ),
            forall|i: int| 0 <= i < rev_digits@.len() ==> rev_digits@[i] < 10,
        decreases n,
    {
        let d: u64 = n % 10;
        proof {
            assert(spec_decimal(n as nat) == spec_decimal((n / 10) as nat) + seq![
                spec_digit_char((n % 10) as nat),
            ]);
            assert(spec_rev_digit_chars(rev_digits@.push(d)) =~= seq![
                spec_digit_char(d as nat),
            ] + spec_rev_digit_chars(rev_digits@));
            assert(spec_decimal((n / 10) as nat) + spec_rev_digit_chars(rev_digits@.push(d))
                =~= spec_decimal(key_slot as nat));
        }
        rev_digits.push(d);
        n = n / 10;
    }
    proof {
        assert(spec_decimal(n as nat) =~= seq![spec_digit_char(n as nat)]);
        assert(spec_rev_digit_chars(rev_digits@.push(n)) =~= seq![
            spec_digit_char(n as nat),
        ] + spec_rev_digit_chars(rev_digits@));
        assert(spec_rev_digit_chars(rev_digits@.push(n)) =~= spec_decimal(key_slot as nat));
    }
    rev_digits.push(n);
    let ghost all_digits = spec_rev_digit_chars(rev_digits@);
    let mut name: String = String::from_str(KEY_NAME_PREFIX);
    let mut i: usize = rev_digits.len();
    while i > 0
        invariant
            i <= rev_digits@.len(),
            all_digits == spec_rev_digit_chars(rev_digits@),
            all_digits =~= spec_decimal(key_slot as nat),
            forall|k: int| 0 <= k < rev_digits@.len() ==> rev_digits@[k] < 10,
            name@ =~= KEY_NAME_PREFIX@ + all_digits.take(rev_digits@.len() - i),
        decreases i,
    {
        let d: u64 = rev_digits[i - 1];
        name.append(digit_str(d));
        proof {
            let len = rev_digits@.len() as int;
            assert(all_digits[len - i] == spec_digit_char(d as nat)) by {
                assert(all_digits == spec_rev_digit_chars(rev_digits@));
            }
            assert(all_digits.take(len - (i - 1)) =~= all_digits.take(len - i) + seq![
                spec_digit_char(d as nat),
            ]);
            assert(name@ =~= KEY_NAME_PREFIX@ + all_digits.take(len - (i - 1)));
        }
        i = i - 1;
    }
    proof {
        assert(all_digits.take(rev_digits@.len() as int) =~= all_digits);
        assert(name@ =~= spec_key_name(key_slot as nat));
    }
    name
}

/// The decimal expansion never is empty, and has one digit exactly for
/// the values below ten.
proof fn lemma_decimal_len(n: nat)
    ensures
        spec_decimal(n).len() >= 1,
        (n < 10) <==> (spec_decimal(n).len() == 1),
    decreases n,
{
    if n >= 10 {
        lemma_decimal_len(n / 10);
    }
}

/// Two values below ten with the same digit character are the same value.
proof fn lemma_digit_char_injective(a: nat, b: nat)
    requires
        a < 10,
        b < 10,
        spec_digit_char(a) == spec_digit_char(b),
    ensures
        a == b,
{
}

/// The decimal expansion is injective: equal digit sequences can only
/// come from equal values.
proof fn lemma_decimal_injective(a: nat, b: nat)
    requires
        spec_decimal(a) == spec_decimal(b),
    ensures
        a == b,
    decreases a,
{
    lemma_decimal_len(a);
    lemma_decimal_len(b);
    if a < 10 && b < 10 {
        assert(spec_decimal(a)[0] == spec_digit_char(a));
        assert(spec_decimal(b)[0] == spec_digit_char(b));
        lemma_digit_char_injective(a, b);
    } else if a >= 10 && b >= 10 {
        assert(spec_decimal(a).last() == spec_digit_char(a % 10));
        assert(spec_decimal(b).last() == spec_digit_char(b % 10));
        lemma_digit_char_injective(a % 10, b % 10);
        assert(spec_decimal(a / 10) =~= spec_decimal(a).drop_last());
        assert(spec_decimal(b / 10) =~= spec_decimal(b).drop_last());
        lemma_decimal_injective(a / 10, b / 10);
        lemma_fundamental_div_mod(a as int, 10);
        lemma_fundamental_div_mod(b as int, 10);
    } else {
        assert(spec_decimal(a).len() != spec_decimal(b).len());
    }
}

/// Distinct key slots always derive distinct remote key names.  Together
/// with the exact postcondition of `key_slot_to_key_name` — the returned
/// name is a pure function of the slot — this makes the slot-to-name
/// mapping total, deterministic and collision-free.
pub proof fn lemma_key_name_injective(s1: u64, s2: u64)
    requires
        s1 != s2,
    ensures
        spec_key_name(s1 as nat) != spec_key_name(s2 as nat),
{
    if spec_key_name(s1 as nat) == spec_key_name(s2 as nat) {
        let p = KEY_NAME_PREFIX@;
        let n1 = spec_key_name(s1 as nat);
        let n2 = spec_key_name(s2 as nat);
        assert(spec_decimal(s1 as nat) =~= n1.subrange(p.len() as int, n1.len() as int));
        assert(spec_decimal(s2 as nat) =~= n2.subrange(p.len() as int, n2.len() as int));
        lemma_decimal_injective(s1 as nat, s2 as nat);
    }
}

} // verus!

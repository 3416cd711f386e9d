//! The slot-to-key-name mapping: fixed template, determinism, and
//! collision-freedom on concrete slots.

use parsec_se_driver::name::key_slot_to_key_name;

#[test]
fn slot_zero_name() {
    assert_eq!(key_slot_to_key_name(0), "parsec-se-driver-key0");
}

#[test]
fn slot_one_name() {
    assert_eq!(key_slot_to_key_name(1), "parsec-se-driver-key1");
}

#[test]
fn slot_ten_name() {
    assert_eq!(key_slot_to_key_name(10), "parsec-se-driver-key10");
}

#[test]
fn multi_digit_slot_name() {
    assert_eq!(key_slot_to_key_name(123456789), "parsec-se-driver-key123456789");
}

#[test]
fn largest_slot_name() {
    assert_eq!(key_slot_to_key_name(u64::MAX), "parsec-se-driver-key18446744073709551615");
}

#[test]
fn name_is_deterministic() {
    assert_eq!(key_slot_to_key_name(42), key_slot_to_key_name(42));
}

#[test]
fn distinct_slots_get_distinct_names() {
    let slots: [u64; 8] = [0, 1, 2, 9, 10, 11, 100, u64::MAX];
    for (i, a) in slots.iter().enumerate() {
        for (j, b) in slots.iter().enumerate() {
            if i != j {
                assert_ne!(key_slot_to_key_name(*a), key_slot_to_key_name(*b));
            }
        }
    }
}

#[test]
fn similar_slots_do_not_collide() {
    assert_ne!(key_slot_to_key_name(1), key_slot_to_key_name(10));
    assert_ne!(key_slot_to_key_name(12), key_slot_to_key_name(120));
    assert_ne!(key_slot_to_key_name(21), key_slot_to_key_name(12));
}

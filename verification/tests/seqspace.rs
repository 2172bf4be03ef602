use tcpstate::seqspace::{is_between_wrapped, is_seq_le, is_seq_lt, seq_add, seq_distance};

#[test]
fn between_plain_range() {
    assert!(is_between_wrapped(10, 11, 20));
    assert!(is_between_wrapped(10, 19, 20));
    assert!(!is_between_wrapped(10, 10, 20));
    assert!(!is_between_wrapped(10, 20, 20));
    assert!(!is_between_wrapped(10, 21, 20));
}

#[test]
fn between_wrapped_range() {
    // the window [0xFFFF_FFF0, 10) wraps through zero
    assert!(is_between_wrapped(0xFFFF_FFF0, 0xFFFF_FFFF, 10));
    assert!(is_between_wrapped(0xFFFF_FFF0, 0, 10));
    assert!(is_between_wrapped(0xFFFF_FFF0, 5, 10));
    assert!(!is_between_wrapped(0xFFFF_FFF0, 10, 10));
    assert!(!is_between_wrapped(0xFFFF_FFF0, 11, 10));
    assert!(!is_between_wrapped(0xFFFF_FFF0, 0xFFFF_FFEF, 10));
}

#[test]
fn between_rotation_examples() {
    // uniform rotation never changes the answer
    for k in [0u32, 1, 7, 0x8000_0000, 0xFFFF_FFFF] {
        for (a, b, c) in [(10u32, 15u32, 20u32), (0xFFFF_FFF0, 5, 10), (3, 3, 9), (5, 2, 1)] {
            assert_eq!(
                is_between_wrapped(a, b, c),
                is_between_wrapped(
                    a.wrapping_add(k),
                    b.wrapping_add(k),
                    c.wrapping_add(k)
                ),
                "rotation changed the answer for {a} {b} {c} by {k}"
            );
        }
    }
}

#[test]
fn add_and_distance_wrap() {
    assert_eq!(seq_add(0xFFFF_FFFF, 1), 0);
    assert_eq!(seq_add(0xFFFF_FFFE, 5), 3);
    assert_eq!(seq_add(7, 8), 15);
    assert_eq!(seq_distance(0xFFFF_FFFF, 3), 4);
    assert_eq!(seq_distance(3, 0xFFFF_FFFF), 0xFFFF_FFFC);
    assert_eq!(seq_distance(9, 9), 0);
}

#[test]
fn circular_order() {
    assert!(is_seq_lt(5, 6));
    assert!(!is_seq_lt(6, 5));
    assert!(!is_seq_lt(5, 5));
    assert!(is_seq_lt(0xFFFF_FFFF, 4));
    assert!(is_seq_le(5, 5));
    assert!(is_seq_le(0xFFFF_FFF0, 2));
    assert!(!is_seq_le(2, 0xFFFF_FFF0));
}

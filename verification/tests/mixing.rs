use compute_demos::mix::sheeeech;

#[test]
fn mixing_zero_gives_107() {
    // (0 + 7) * 637 = 4459 = 34 * 128 + 107
    assert_eq!(sheeeech(0), 107);
}

#[test]
fn mixing_small_numbers() {
    assert_eq!(sheeeech(1), 104);
    assert_eq!(sheeeech(5), 92);
    assert_eq!(sheeeech(107), 42);
    assert_eq!(sheeeech(42), 109);
    assert_eq!(sheeeech(109), 36);
    assert_eq!(sheeeech(1023), 110);
}

#[test]
fn mixing_wraps_silently_at_32_bits() {
    // n + 7 wraps to zero
    assert_eq!(sheeeech(u32::MAX - 6), 0);
    // n + 7 wraps to six
    assert_eq!(sheeeech(u32::MAX), 110);
    // the product wraps, the sum does not
    assert_eq!(sheeeech(0x8000_0000), 107);
    assert_eq!(sheeeech(6_742_346), ((6_742_346u64 + 7) * 637 % 128) as u32);
}

#[test]
fn mixing_agrees_with_exact_arithmetic_modulo_128() {
    let mut n: u32 = 0;
    loop {
        let exact = ((n as u64 + 7) * 637 % 128) as u32;
        assert_eq!(sheeeech(n), exact);
        match n.checked_add(16_777_333) {
            Some(next) => n = next,
            None => break,
        }
    }
}

#[test]
fn mixing_stays_below_128() {
    for n in 0..4096u32 {
        assert!(sheeeech(n) < 128);
        assert!(sheeeech(u32::MAX - n) < 128);
    }
}

#[test]
fn mixing_has_period_128() {
    for n in 0..128u32 {
        assert_eq!(sheeeech(n), sheeeech(n + 128));
        assert_eq!(sheeeech(n), sheeeech(n + 128 * 1000));
    }
}

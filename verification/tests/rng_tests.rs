//! Tests for the deterministic sequence generator.

use pacsim::rng::Lfsr;

#[test]
fn zero_seed_is_remapped() {
    let a = Lfsr::new(0);
    let b = Lfsr::new(0xACE1);
    assert_eq!(a.s, 0xACE1);
    assert_eq!(b.s, 0xACE1);
}

#[test]
fn same_seed_same_stream() {
    let mut a = Lfsr::new(0xBEEF);
    let mut b = Lfsr::new(0xBEEF);
    for _ in 0..1000 {
        assert_eq!(a.next(), b.next());
    }
}

#[test]
fn full_cycle_of_65535_states_never_zero() {
    // The register walks all 65535 non-zero states before repeating, for
    // several seeds, and never reaches the zero register.
    for seed in [1u16, 0xACE1, 0x1234] {
        let mut l = Lfsr::new(seed);
        let mut seen: Vec<bool> = vec![false; 65536];
        for step in 0..65535u32 {
            let v: u16 = l.next();
            assert_ne!(v, 0);
            if step < 65534 {
                assert!(!seen[v as usize], "state repeated before the full cycle");
            }
            seen[v as usize] = true;
        }
        assert_eq!(l.s, seed, "cycle did not close after 65535 steps");
    }
}

#[test]
fn next_known_values() {
    // One shift step by hand: seed 1 has low bit set, so the new state is
    // (1 >> 1) ^ 0xB400 = 0xB400.
    let mut l = Lfsr::new(1);
    assert_eq!(l.next(), 0xB400);
    // 0xB400 has low bit clear: plain shift right.
    assert_eq!(l.next(), 0x5A00);
}

#[test]
fn range_is_lo_plus_next_mod_span() {
    let mut a = Lfsr::new(77);
    let mut b = Lfsr::new(77);
    for _ in 0..200 {
        let n: u16 = b.next();
        let r: i32 = a.range(3, 9);
        assert_eq!(r, 3 + (n % 7) as i32);
        assert!((3..=9).contains(&r));
    }
}

#[test]
fn range_single_value() {
    let mut l = Lfsr::new(5);
    for _ in 0..10 {
        assert_eq!(l.range(4, 4), 4);
    }
}

use std::collections::HashSet;
use xorbonacci::tables::{idx_table, xor_table, Tables, XorEntry};

#[test]
fn xor_table_has_every_byte_pair_once() {
    let t = xor_table();
    assert_eq!(t.len(), 65536);
    let mut seen: HashSet<(u64, u64)> = HashSet::new();
    for (i, e) in t.iter().enumerate() {
        assert_eq!(e.lhs, (i / 256) as u64);
        assert_eq!(e.rhs, (i % 256) as u64);
        assert_eq!(e.out, e.lhs ^ e.rhs);
        assert!(seen.insert((e.lhs, e.rhs)));
    }
    for x in 0..256u64 {
        for y in 0..256u64 {
            assert!(seen.contains(&(x, y)));
        }
    }
}

#[test]
fn xor_table_row_major_spot_values() {
    let t = xor_table();
    assert_eq!(t[0], XorEntry { lhs: 0, rhs: 0, out: 0 });
    assert_eq!(t[257], XorEntry { lhs: 1, rhs: 1, out: 0 });
    assert_eq!(t[0x1234], XorEntry { lhs: 0x12, rhs: 0x34, out: 0x26 });
    assert_eq!(t[65535], XorEntry { lhs: 255, rhs: 255, out: 0 });
}

#[test]
fn idx_table_is_zero_to_255() {
    let t = idx_table();
    assert_eq!(t.len(), 256);
    let distinct: HashSet<u64> = t.iter().copied().collect();
    assert_eq!(distinct.len(), 256);
    for (i, v) in t.iter().enumerate() {
        assert_eq!(*v, i as u64);
    }
}

#[test]
fn table_membership() {
    let t = Tables::new();
    assert!(t.has_xor(255, 255, 0));
    assert!(t.has_xor(0x0f, 0xf0, 0xff));
    assert!(!t.has_xor(3, 5, 7));
    assert!(!t.has_xor(256, 0, 256));
    assert!(!t.has_xor(0, 300, 300));
    assert!(t.has_idx(0));
    assert!(t.has_idx(255));
    assert!(!t.has_idx(256));
}

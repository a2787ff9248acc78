use xorbonacci::chip::XorbonacciChip;
use xorbonacci::check::Failure;
use xorbonacci::circuit::{check, XorbonacciCircuit, TRACE_ROWS};
use xorbonacci::layout::{Column, ColumnKind, ConstraintSystem, Lookup, Selector};
use xorbonacci::tables::Tables;
use xorbonacci::witness::{AssignError, Cell, CopyConstraint, Lane, Layouter, Row};

const K: u32 = 17;

fn chip() -> XorbonacciChip {
    let mut meta = ConstraintSystem::new();
    XorbonacciChip::construct(XorbonacciChip::configure(&mut meta))
}

fn synthesized(instance: Vec<u64>) -> Layouter {
    let mut meta = ConstraintSystem::new();
    let config = XorbonacciCircuit::configure(&mut meta);
    let mut layouter = Layouter::new(1usize << K, instance);
    XorbonacciCircuit.synthesize(config, &mut layouter).unwrap();
    layouter
}

fn d_to_public(row: usize) -> CopyConstraint {
    CopyConstraint { left: Cell { lane: Lane::D, row }, right: Cell { lane: Lane::Public, row: 2 } }
}

#[test]
fn test_f_12() {
    let k = 17;
    let a = 1u64;
    let b = 1u64;
    let out = 65u64;
    let circuit = XorbonacciCircuit;
    let public_input = vec![a, b, out];
    let failures = check(1usize << k, &circuit, public_input.clone()).unwrap();
    assert!(failures.is_empty());
}

#[test]
fn trace_from_one_one() {
    let mut layouter = Layouter::new(1usize << K, vec![1, 1, 65]);
    let out = chip().assign(&mut layouter, TRACE_ROWS).unwrap();
    assert_eq!(out, Cell { lane: Lane::D, row: 10 });
    let expected: [(u64, u64, u64, u64); 11] = [
        (1, 1, 0, 2),
        (1, 2, 3, 6),
        (2, 6, 4, 8),
        (6, 8, 14, 19),
        (8, 19, 27, 33),
        (19, 33, 50, 57),
        (33, 57, 24, 32),
        (57, 32, 25, 34),
        (32, 34, 2, 12),
        (34, 12, 46, 57),
        (12, 57, 53, 65),
    ];
    assert_eq!(layouter.rows.len(), 11);
    for (r, (row, e)) in layouter.rows.iter().zip(expected.iter()).enumerate() {
        assert_eq!((row.a, row.b, row.c, row.d), *e);
        assert_eq!(row.s_xor, r > 0);
        assert_eq!(row.s_add, r > 0);
    }
    assert_eq!(layouter.rows[10].d, 65);
}

#[test]
fn assign_records_chain_copies() {
    let mut layouter = Layouter::new(64, vec![3, 4]);
    chip().assign(&mut layouter, 3).unwrap();
    let c = |lane, row| Cell { lane, row };
    let want = vec![
        CopyConstraint { left: c(Lane::Public, 0), right: c(Lane::A, 0) },
        CopyConstraint { left: c(Lane::Public, 1), right: c(Lane::B, 0) },
        CopyConstraint { left: c(Lane::B, 0), right: c(Lane::A, 1) },
        CopyConstraint { left: c(Lane::D, 0), right: c(Lane::B, 1) },
        CopyConstraint { left: c(Lane::B, 1), right: c(Lane::A, 2) },
        CopyConstraint { left: c(Lane::D, 1), right: c(Lane::B, 2) },
    ];
    assert_eq!(layouter.copies, want);
}

#[test]
fn assign_uses_lower_32_bits() {
    let mut layouter = Layouter::new(8, vec![0x1_0000_0005, 3]);
    chip().assign(&mut layouter, 1).unwrap();
    assert_eq!(layouter.rows[0], Row { a: 0x1_0000_0005, b: 3, c: 6, d: 8, s_xor: false, s_add: false });
}

#[test]
fn missing_public_values_read_as_zero() {
    let mut layouter = Layouter::new(8, vec![]);
    chip().assign(&mut layouter, 2).unwrap();
    assert_eq!(layouter.rows[0], Row { a: 0, b: 0, c: 0, d: 2, s_xor: false, s_add: false });
    assert_eq!(layouter.rows[1], Row { a: 0, b: 2, c: 2, d: 5, s_xor: true, s_add: true });
}

#[test]
fn assignment_is_deterministic() {
    let first = synthesized(vec![1, 1, 65]);
    let second = synthesized(vec![1, 1, 65]);
    assert_eq!(first.rows, second.rows);
    assert_eq!(first.copies, second.copies);
    let other_output = synthesized(vec![1, 1, 7]);
    assert_eq!(first.rows, other_output.rows);
}

#[test]
fn tampered_xor_fails_on_that_row_only() {
    let mut layouter = synthesized(vec![1, 1, 65]);
    let tables = Tables::new();
    assert!(layouter.failures(&tables).is_empty());
    layouter.rows[5].c = 51;
    assert_eq!(layouter.failures(&tables), vec![Failure::XorLookup { row: 5 }]);
}

#[test]
fn increment_out_of_range_fails_its_lookup() {
    let mut layouter = synthesized(vec![1, 1, 65]);
    let tables = Tables::new();
    layouter.rows[5].d = layouter.rows[5].c + 256;
    let f = layouter.failures(&tables);
    assert!(f.contains(&Failure::IncrementLookup { row: 5 }));
    assert!(!f.contains(&Failure::XorLookup { row: 5 }));
    let b6 = Cell { lane: Lane::B, row: 6 };
    let d5 = Cell { lane: Lane::D, row: 5 };
    assert_eq!(
        f,
        vec![Failure::IncrementLookup { row: 5 }, Failure::Copy { constraint: CopyConstraint { left: d5, right: b6 } }]
    );
}

#[test]
fn increment_below_c_fails_its_lookup() {
    let mut layouter = synthesized(vec![1, 1, 65]);
    let tables = Tables::new();
    layouter.rows[3].d = layouter.rows[3].c - 1;
    let f = layouter.failures(&tables);
    assert_eq!(f[0], Failure::IncrementLookup { row: 3 });
}

#[test]
fn wrong_public_output_fails_verification_only() {
    let failures = check(1usize << K, &XorbonacciCircuit, vec![1, 1, 64]).unwrap();
    assert_eq!(failures, vec![Failure::Copy { constraint: d_to_public(10) }]);
}

#[test]
fn wrong_seed_breaks_the_output() {
    let failures = check(1usize << K, &XorbonacciCircuit, vec![2, 1, 65]).unwrap();
    assert_eq!(failures, vec![Failure::Copy { constraint: d_to_public(10) }]);
}

#[test]
fn too_few_rows_for_the_table() {
    let r = check(65535, &XorbonacciCircuit, vec![1, 1, 65]);
    assert_eq!(r, Err(AssignError::RowOutOfBounds { row: 65535, bound: 65535 }));
    assert!(check(65536, &XorbonacciCircuit, vec![1, 1, 65]).unwrap().is_empty());
}

#[test]
fn assign_fails_past_the_row_bound() {
    let mut layouter = Layouter::new(4, vec![1, 1]);
    let r = chip().assign(&mut layouter, 5);
    assert_eq!(r, Err(AssignError::RowOutOfBounds { row: 4, bound: 4 }));
    assert!(layouter.rows.is_empty());
    assert!(layouter.copies.is_empty());
    assert_eq!(chip().assign(&mut layouter, 4), Ok(Cell { lane: Lane::D, row: 3 }));
}

#[test]
fn expose_public_bounds() {
    let mut layouter = Layouter::new(4, vec![1, 1, 6]);
    let c = chip();
    let d1 = Cell { lane: Lane::D, row: 1 };
    assert_eq!(
        c.expose_public(&mut layouter, Cell { lane: Lane::D, row: 4 }, 2),
        Err(AssignError::RowOutOfBounds { row: 4, bound: 4 })
    );
    assert_eq!(c.expose_public(&mut layouter, d1, 7), Err(AssignError::RowOutOfBounds { row: 7, bound: 4 }));
    assert!(layouter.copies.is_empty());
    assert_eq!(c.expose_public(&mut layouter, d1, 2), Ok(()));
    assert_eq!(layouter.copies, vec![d_to_public(1)]);
}

#[test]
fn load_tables_needs_the_xor_table_rows() {
    let mut small = Layouter::new(1000, vec![]);
    assert_eq!(chip().load_tables(&mut small), Err(AssignError::RowOutOfBounds { row: 65535, bound: 1000 }));
    assert!(small.tables.is_none());
    let mut big = Layouter::new(1usize << K, vec![]);
    assert_eq!(chip().load_tables(&mut big), Ok(()));
    let t = big.tables.unwrap();
    assert_eq!(t.xor.len(), 65536);
    assert_eq!(t.idx.len(), 256);
}

#[test]
fn configure_declares_the_layout() {
    let mut meta = ConstraintSystem::new();
    let cfg = XorbonacciChip::configure(&mut meta);
    let adv = |index| Column { kind: ColumnKind::Advice, index };
    let tab = |index| Column { kind: ColumnKind::Table, index };
    let inst = Column { kind: ColumnKind::Instance, index: 0 };
    assert_eq!(cfg.advice, (adv(0), adv(1), adv(2), adv(3)));
    assert_eq!(cfg.s_add, Selector { index: 0 });
    assert_eq!(cfg.s_xor, Selector { index: 1 });
    assert_eq!(cfg.xor_table, (tab(0), tab(1), tab(2)));
    assert_eq!(cfg.idx_table, tab(3));
    assert_eq!(cfg.instance, inst);
    assert_eq!((meta.num_advice, meta.num_instance, meta.num_table, meta.num_selectors), (4, 1, 4, 2));
    assert_eq!(meta.equality, vec![adv(0), adv(1), adv(2), adv(3), inst]);
    assert_eq!(meta.lookups.len(), 2);
    match meta.lookups[0] {
        Lookup::Triple { selector, inputs, tables } => {
            assert_eq!(selector, cfg.s_xor);
            assert_eq!(inputs, (adv(0), adv(1), adv(2)));
            assert_eq!(tables, cfg.xor_table);
        }
        _ => panic!("first gate is the XOR lookup"),
    }
    match meta.lookups[1] {
        Lookup::Difference { selector, minuend, subtrahend, table } => {
            assert_eq!(selector, cfg.s_add);
            assert_eq!((minuend, subtrahend, table), (adv(3), adv(2), tab(3)));
        }
        _ => panic!("second gate is the increment lookup"),
    }
}

#[test]
fn without_witnesses_is_the_same_circuit() {
    let c = XorbonacciCircuit.without_witnesses();
    assert!(check(1usize << K, &c, vec![1, 1, 65]).unwrap().is_empty());
}

#[test]
fn any_in_range_increment_passes_the_lookup() {
    let mut layouter = synthesized(vec![1, 1, 65]);
    let tables = Tables::new();
    layouter.rows[10].d = layouter.rows[10].c + 255;
    assert_eq!(layouter.failures(&tables), vec![Failure::Copy { constraint: d_to_public(10) }]);
    let out = layouter.rows[10].d;
    layouter.instance[2] = out;
    assert!(layouter.failures(&tables).is_empty());
}

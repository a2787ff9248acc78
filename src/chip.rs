use vstd::prelude::*;
use crate::layout::{column, Column, ColumnKind, ConstraintSystem, Lookup, Selector, XorbonacciConfig};
use crate::tables::{Tables, XOR_TABLE_ROWS};
use crate::witness::{
    assigned_trace, cell, chain_copies, chain_copy, rows_fit, trace_row, AssignError, Cell,
    CopyConstraint, Lane, Layouter, Row, BASE_INCREMENT,
};

verus! {

/// The layout that `configure` declares on a constraint system that held
/// `na` advice, `ni` instance and `nt` table columns and `ns` selectors.
pub open spec fn config_at(na: int, ni: int, nt: int, ns: int) -> XorbonacciConfig {
    XorbonacciConfig {
        advice: (
            column(ColumnKind::Advice, na),
            column(ColumnKind::Advice, na + 1),
            column(ColumnKind::Advice, na + 2),
            column(ColumnKind::Advice, na + 3),
        ),
        s_add: Selector { index: ns as usize },
        s_xor: Selector { index: (ns + 1) as usize },
        xor_table: (
            column(ColumnKind::Table, nt),
            column(ColumnKind::Table, nt + 1),
            column(ColumnKind::Table, nt + 2),
        ),
        idx_table: column(ColumnKind::Table, nt + 3),
        instance: column(ColumnKind::Instance, ni),
    }
}

/// The columns of a layout on which copy constraints are enabled.
pub open spec fn equality_columns(c: XorbonacciConfig) -> Seq<Column> {
    seq![c.advice.0, c.advice.1, c.advice.2, c.advice.3, c.instance]
}

/// The two lookup gates of a layout: (A, B, C) in the XOR table where
/// S_xor is on, and D - C in the index table where S_add is on.
pub open spec fn lookup_gates(c: XorbonacciConfig) -> Seq<Lookup> {
    seq![
        Lookup::Triple {
            selector: c.s_xor,
            inputs: (c.advice.0, c.advice.1, c.advice.2),
            tables: c.xor_table,
        },
        Lookup::Difference {
            selector: c.s_add,
            minuend: c.advice.3,
            subtrahend: c.advice.2,
            table: c.idx_table,
        },
    ]
}

/// Whether a synthesis state differs from `old` only in its trace and
/// copy constraints.
pub open spec fn same_setup(new: Layouter, old: Layouter) -> bool {
    &&& new.row_bound == old.row_bound
    &&& new.instance@ == old.instance@
    &&& new.tables == old.tables
}

/// The chip that lays out and fills the XOR-folded recurrence.
#[derive(Clone, Copy, Debug)]
pub struct XorbonacciChip {
    pub config: XorbonacciConfig,
}

impl XorbonacciChip {
    pub fn construct(config: XorbonacciConfig) -> (r: Self)
        ensures
            r.config == config,
    {
        XorbonacciChip { config }
    }

    /// Declares four equality-enabled advice columns, an equality-enabled
    /// instance column, two selectors, a three-column XOR table, a
    /// one-column index table, and the two lookup gates.
    pub fn configure(meta: &mut ConstraintSystem) -> (r: XorbonacciConfig)
        requires
            old(meta).num_advice + 4 <= usize::MAX,
            old(meta).num_instance + 1 <= usize::MAX,
            old(meta).num_table + 4 <= usize::MAX,
            old(meta).num_selectors + 2 <= usize::MAX,
        ensures
            r == config_at(
                old(meta).num_advice as int,
                old(meta).num_instance as int,
                old(meta).num_table as int,
                old(meta).num_selectors as int,
            ),
            final(meta).num_advice == old(meta).num_advice + 4,
            final(meta).num_instance == old(meta).num_instance + 1,
            final(meta).num_table == old(meta).num_table + 4,
            final(meta).num_selectors == old(meta).num_selectors + 2,
            final(meta).equality@ == old(meta).equality@ + equality_columns(r),
            final(meta).lookups@ == old(meta).lookups@ + lookup_gates(r),
    {
        let col_a = meta.advice_column();
        let col_b = meta.advice_column();
        let col_c = meta.advice_column();
        let col_d = meta.advice_column();
        let s_add = meta.complex_selector();
        let s_xor = meta.complex_selector();
        let instance = meta.instance_column();
        let xor_table = (meta.lookup_table_column(), meta.lookup_table_column(), meta.lookup_table_column());
        let idx_table = meta.lookup_table_column();

        meta.enable_equality(col_a);
        meta.enable_equality(col_b);
        meta.enable_equality(col_c);
        meta.enable_equality(col_d);
        meta.enable_equality(instance);

        meta.lookup(Lookup::Triple { selector: s_xor, inputs: (col_a, col_b, col_c), tables: xor_table });
        meta.lookup(Lookup::Difference { selector: s_add, minuend: col_d, subtrahend: col_c, table: idx_table });

        let r = XorbonacciConfig { advice: (col_a, col_b, col_c, col_d), s_add, s_xor, xor_table, idx_table, instance };
        assert(final(meta).equality@ =~= old(meta).equality@ + equality_columns(r));
        assert(final(meta).lookups@ =~= old(meta).lookups@ + lookup_gates(r));
        r
    }

    /// Fills both lookup tables. Fails where the circuit offers fewer rows
    /// than the XOR table needs.
    pub fn load_tables(&self, layouter: &mut Layouter) -> (r: Result<(), AssignError>)
        ensures
            final(layouter).row_bound == old(layouter).row_bound,
            final(layouter).instance@ == old(layouter).instance@,
            final(layouter).rows@ == old(layouter).rows@,
            final(layouter).copies@ == old(layouter).copies@,
            r.is_ok() <==> old(layouter).row_bound >= XOR_TABLE_ROWS,
            r.is_ok() ==> final(layouter).tables.is_some() && final(layouter).tables.unwrap().wf(),
            r.is_err() ==> final(layouter).tables == old(layouter).tables,
            r.is_err() ==> r == Err::<(), AssignError>(
                AssignError::RowOutOfBounds { row: (XOR_TABLE_ROWS - 1) as usize, bound: old(layouter).row_bound },
            ),
    {
        if layouter.row_bound < XOR_TABLE_ROWS {
            return Err(AssignError::RowOutOfBounds { row: XOR_TABLE_ROWS - 1, bound: layouter.row_bound });
        }
        layouter.tables = Some(Tables::new());
        Ok(())
    }

    /// Fills `nrows` rows of the trace from the seeds in the first two public
    /// values, records the copy constraints that chain the rows, and returns
    /// the D cell of the last row. Row 0 holds the seeds, their XOR and that
    /// plus the base increment, with no selector on; row `r >= 1` takes A and
    /// B from B and D of row `r - 1`, holds their XOR in C and C plus the base
    /// increment plus `r` in D, with both selectors on. Fails, leaving the
    /// state as it was, where the trace needs more rows than the circuit
    /// offers.
    pub fn assign(&self, layouter: &mut Layouter, nrows: usize) -> (r: Result<Cell, AssignError>)
        requires
            1 <= nrows,
            rows_fit(nrows as nat),
        ensures
            same_setup(*final(layouter), *old(layouter)),
            r.is_ok() <==> nrows <= old(layouter).row_bound,
            r.is_ok() ==> r == Ok::<Cell, AssignError>(cell(Lane::D, nrows - 1)),
            r.is_ok() ==> final(layouter).rows@ == assigned_trace(old(layouter).instance@, nrows as nat),
            r.is_ok() ==> final(layouter).copies@ == old(layouter).copies@ + chain_copies(nrows as nat),
            r.is_err() ==> r == Err::<Cell, AssignError>(
                AssignError::RowOutOfBounds { row: (nrows - 1) as usize, bound: old(layouter).row_bound },
            ),
            r.is_err() ==> final(layouter).rows@ == old(layouter).rows@,
            r.is_err() ==> final(layouter).copies@ == old(layouter).copies@,
    {
        if nrows > layouter.row_bound {
            return Err(AssignError::RowOutOfBounds { row: nrows - 1, bound: layouter.row_bound });
        }
        let ghost old_copies = layouter.copies@;
        let a0 = layouter.public(0);
        let b0 = layouter.public(1);
        let c0 = ((a0 as u32) ^ (b0 as u32)) as u64;
        let mut rows: Vec<Row> = Vec::new();
        rows.push(Row { a: a0, b: b0, c: c0, d: c0 + BASE_INCREMENT, s_xor: false, s_add: false });
        layouter.copies.push(CopyConstraint { left: Cell { lane: Lane::Public, row: 0 }, right: Cell { lane: Lane::A, row: 0 } });
        layouter.copies.push(CopyConstraint { left: Cell { lane: Lane::Public, row: 1 }, right: Cell { lane: Lane::B, row: 0 } });
        assert(layouter.copies@ =~= old_copies + chain_copies(1));

        let mut row: usize = 1;
        while row < nrows
            invariant
                1 <= row <= nrows,
                rows_fit(nrows as nat),
                same_setup(*layouter, *old(layouter)),
                rows@.len() == row,
                forall|i: int| 0 <= i < row ==> #[trigger] rows@[i] == trace_row(a0, b0, i as nat),
                layouter.copies@ == old_copies + chain_copies(row as nat),
            decreases nrows - row,
        {
            let prev = rows[row - 1];
            assert(prev == trace_row(a0, b0, (row - 1) as nat));
            let c = ((prev.b as u32) ^ (prev.d as u32)) as u64;
            let d = c + BASE_INCREMENT + row as u64;
            rows.push(Row { a: prev.b, b: prev.d, c, d, s_xor: true, s_add: true });
            layouter.copies.push(CopyConstraint { left: Cell { lane: Lane::B, row: row - 1 }, right: Cell { lane: Lane::A, row } });
            layouter.copies.push(CopyConstraint { left: Cell { lane: Lane::D, row: row - 1 }, right: Cell { lane: Lane::B, row } });
            assert(chain_copy(2 * row) == (CopyConstraint { left: cell(Lane::B, row - 1), right: cell(Lane::A, row as int) }));
            assert(chain_copy(2 * row + 1) == (CopyConstraint { left: cell(Lane::D, row - 1), right: cell(Lane::B, row as int) }));
            assert(layouter.copies@ =~= old_copies + chain_copies((row + 1) as nat));
            row = row + 1;
        }
        assert(rows@ =~= assigned_trace(layouter.instance@, nrows as nat));
        layouter.rows = rows;
        Ok(Cell { lane: Lane::D, row: nrows - 1 })
    }

    /// Binds a cell to public value `row` by a copy constraint. Fails where
    /// either row lies past what the circuit offers.
    pub fn expose_public(&self, layouter: &mut Layouter, c: Cell, row: usize) -> (r: Result<(), AssignError>)
        ensures
            same_setup(*final(layouter), *old(layouter)),
            final(layouter).rows@ == old(layouter).rows@,
            r.is_ok() <==> c.row < old(layouter).row_bound && row < old(layouter).row_bound,
            r.is_ok() ==> final(layouter).copies@ == old(layouter).copies@.push(
                (CopyConstraint { left: c, right: cell(Lane::Public, row as int) }),
            ),
            r.is_err() ==> final(layouter).copies@ == old(layouter).copies@,
            r.is_err() ==> r == Err::<(), AssignError>(AssignError::RowOutOfBounds {
                row: if c.row >= old(layouter).row_bound { c.row } else { row },
                bound: old(layouter).row_bound,
            }),
    {
        if c.row >= layouter.row_bound {
            return Err(AssignError::RowOutOfBounds { row: c.row, bound: layouter.row_bound });
        }
        if row >= layouter.row_bound {
            return Err(AssignError::RowOutOfBounds { row, bound: layouter.row_bound });
        }
        layouter.copies.push(CopyConstraint { left: c, right: Cell { lane: Lane::Public, row } });
        Ok(())
    }
}

} // verus!

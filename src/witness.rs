use vstd::prelude::*;
use crate::tables::Tables;

verus! {

/// The increment added on row 0; row `r` adds this plus `r`.
pub const BASE_INCREMENT: u64 = 2;

/// One row of the trace: the value lanes A, B, C, D and the two selector
/// flags. Cell values stand for field elements below the field modulus.
#[derive(Clone, Copy, Debug, PartialEq, Eq, Structural)]
pub struct Row {
    pub a: u64,
    pub b: u64,
    pub c: u64,
    pub d: u64,
    pub s_xor: bool,
    pub s_add: bool,
}

/// A lane of the trace: the four value columns and the public column.
#[derive(Clone, Copy, Debug, PartialEq, Eq, Structural)]
pub enum Lane {
    A,
    B,
    C,
    D,
    Public,
}

/// A cell: a lane at a row index.
#[derive(Clone, Copy, Debug, PartialEq, Eq, Structural)]
pub struct Cell {
    pub lane: Lane,
    pub row: usize,
}

/// A copy (equality) constraint between two cells.
#[derive(Clone, Copy, Debug, PartialEq, Eq, Structural)]
pub struct CopyConstraint {
    pub left: Cell,
    pub right: Cell,
}

/// Why synthesis stopped before the trace was complete.
#[derive(Clone, Copy, Debug, PartialEq, Eq, Structural)]
pub enum AssignError {
    /// A table, the trace or a copy constraint reaches row `row`, and the
    /// circuit offers rows `0..bound` only.
    RowOutOfBounds { row: usize, bound: usize },
}

/// The lower 32 bits of a cell value.
pub open spec fn lower_32(v: u64) -> u64 {
    (v as u32) as u64
}

/// The XOR of the lower 32 bits of two cell values.
pub open spec fn xor_low(x: u64, y: u64) -> u64 {
    ((x as u32) ^ (y as u32)) as u64
}

/// A public value; the public column reads as zero past the supplied values.
pub open spec fn public_value(instance: Seq<u64>, i: int) -> u64 {
    if 0 <= i < instance.len() {
        instance[i]
    } else {
        0
    }
}

/// Row `r` of the trace that the assigner computes from the seeds `a0`, `b0`.
pub open spec fn trace_row(a0: u64, b0: u64, r: nat) -> Row
    decreases r,
{
    if r == 0 {
        let c = xor_low(a0, b0);
        Row { a: a0, b: b0, c, d: (c + BASE_INCREMENT) as u64, s_xor: false, s_add: false }
    } else {
        let p = trace_row(a0, b0, (r - 1) as nat);
        let c = xor_low(p.b, p.d);
        Row { a: p.b, b: p.d, c, d: (c + BASE_INCREMENT + r) as u64, s_xor: true, s_add: true }
    }
}

/// The first `n` rows of the trace for the seeds `a0`, `b0`.
pub open spec fn trace(a0: u64, b0: u64, n: nat) -> Seq<Row> {
    Seq::new(n, |r: int| trace_row(a0, b0, r as nat))
}

/// The trace that the assigner computes for a public input vector.
pub open spec fn assigned_trace(instance: Seq<u64>, n: nat) -> Seq<Row> {
    trace(public_value(instance, 0), public_value(instance, 1), n)
}

pub open spec fn cell(lane: Lane, row: int) -> Cell {
    Cell { lane, row: row as usize }
}

/// The `k`-th copy constraint that the assigner records: the seeds are
/// copied from the public column into row 0, and row `r >= 1` takes A from
/// B of row `r - 1` and B from D of row `r - 1`.
pub open spec fn chain_copy(k: int) -> CopyConstraint {
    let r = k / 2;
    if k % 2 == 0 {
        if r == 0 {
            CopyConstraint { left: cell(Lane::Public, 0), right: cell(Lane::A, 0) }
        } else {
            CopyConstraint { left: cell(Lane::B, r - 1), right: cell(Lane::A, r) }
        }
    } else {
        if r == 0 {
            CopyConstraint { left: cell(Lane::Public, 1), right: cell(Lane::B, 0) }
        } else {
            CopyConstraint { left: cell(Lane::D, r - 1), right: cell(Lane::B, r) }
        }
    }
}

/// The copy constraints of a trace of `n` rows.
pub open spec fn chain_copies(n: nat) -> Seq<CopyConstraint> {
    Seq::new(2 * n, |k: int| chain_copy(k))
}

/// The copy constraints of the circuit over a trace of `n` rows: the
/// chain, then the D cell of the last row bound to public value 2.
pub open spec fn circuit_copies(n: nat) -> Seq<CopyConstraint> {
    chain_copies(n).push(CopyConstraint { left: cell(Lane::D, n - 1), right: cell(Lane::Public, 2) })
}

/// Largest row count whose cell values fit the value lanes.
pub open spec fn rows_fit(n: nat) -> bool {
    n + u32::MAX + BASE_INCREMENT <= u64::MAX
}

/// The state of one synthesis: the rows the circuit offers, the public
/// input vector, the tables once loaded, the trace and its copy constraints.
pub struct Layouter {
    pub row_bound: usize,
    pub instance: Vec<u64>,
    pub tables: Option<Tables>,
    pub rows: Vec<Row>,
    pub copies: Vec<CopyConstraint>,
}

impl Layouter {
    /// A fresh synthesis over `row_bound` rows with the given public inputs.
    pub fn new(row_bound: usize, instance: Vec<u64>) -> (r: Layouter)
        ensures
            r.row_bound == row_bound,
            r.instance@ == instance@,
            r.tables.is_none(),
            r.rows@.len() == 0,
            r.copies@.len() == 0,
    {
        Layouter { row_bound, instance, tables: None, rows: Vec::new(), copies: Vec::new() }
    }

    /// A public value, zero past the supplied ones.
    pub fn public(&self, i: usize) -> (r: u64)
        ensures
            r == public_value(self.instance@, i as int),
    {
        if i < self.instance.len() {
            self.instance[i]
        } else {
            0
        }
    }
}

} // verus!

use vstd::prelude::*;
use crate::check::{failures, lemma_copy_failures_members, lemma_concat_contains, cell_value, Failure};
use crate::chip::XorbonacciChip;
use crate::layout::{ConstraintSystem, XorbonacciConfig};
use crate::tables::{idx_table_rows, lemma_tables_unique, xor_table_rows, XOR_TABLE_ROWS};
use crate::witness::{
    assigned_trace, cell, circuit_copies, public_value, AssignError, CopyConstraint, Lane, Layouter,
};

verus! {

/// Rows of the trace that the circuit fills.
pub const TRACE_ROWS: usize = 11;

/// Index of the public value that the last D cell is bound to.
pub const OUTPUT_INDEX: usize = 2;

/// Every constraint that the circuit's trace over `n` rows leaves
/// unsatisfied for the public input vector `instance`.
pub open spec fn trace_failures(instance: Seq<u64>, n: nat) -> Seq<Failure> {
    failures(xor_table_rows(), idx_table_rows(), assigned_trace(instance, n), instance, circuit_copies(n))
}

/// The circuit: the recurrence over `TRACE_ROWS` rows, with the seeds and
/// the last D cell bound to the public input vector.
#[derive(Clone, Copy, Debug)]
pub struct XorbonacciCircuit;

impl XorbonacciCircuit {
    /// The circuit carries no witness of its own, so this is the circuit.
    pub fn without_witnesses(&self) -> (r: Self) {
        XorbonacciCircuit
    }

    pub fn configure(meta: &mut ConstraintSystem) -> (r: XorbonacciConfig)
        requires
            old(meta).num_advice + 4 <= usize::MAX,
            old(meta).num_instance + 1 <= usize::MAX,
            old(meta).num_table + 4 <= usize::MAX,
            old(meta).num_selectors + 2 <= usize::MAX,
        ensures
            r == crate::chip::config_at(
                old(meta).num_advice as int,
                old(meta).num_instance as int,
                old(meta).num_table as int,
                old(meta).num_selectors as int,
            ),
            final(meta).num_advice == old(meta).num_advice + 4,
            final(meta).num_instance == old(meta).num_instance + 1,
            final(meta).num_table == old(meta).num_table + 4,
            final(meta).num_selectors == old(meta).num_selectors + 2,
            final(meta).equality@ == old(meta).equality@ + crate::chip::equality_columns(r),
            final(meta).lookups@ == old(meta).lookups@ + crate::chip::lookup_gates(r),
    {
        XorbonacciChip::configure(meta)
    }

    /// Loads the tables, fills the trace and binds its last D cell to public
    /// value `OUTPUT_INDEX`. Succeeds exactly when the circuit offers the
    /// rows that the XOR table needs, whatever the public values.
    pub fn synthesize(&self, config: XorbonacciConfig, layouter: &mut Layouter) -> (r: Result<(), AssignError>)
        ensures
            final(layouter).row_bound == old(layouter).row_bound,
            final(layouter).instance@ == old(layouter).instance@,
            r.is_ok() <==> old(layouter).row_bound >= XOR_TABLE_ROWS,
            r.is_ok() ==> final(layouter).tables.is_some() && final(layouter).tables.unwrap().wf(),
            r.is_ok() ==> final(layouter).rows@ == assigned_trace(old(layouter).instance@, TRACE_ROWS as nat),
            r.is_ok() ==> final(layouter).copies@ == old(layouter).copies@ + circuit_copies(TRACE_ROWS as nat),
            r.is_err() ==> r == Err::<(), AssignError>(
                AssignError::RowOutOfBounds { row: (XOR_TABLE_ROWS - 1) as usize, bound: old(layouter).row_bound },
            ),
    {
        let chip = XorbonacciChip::construct(config);
        chip.load_tables(layouter)?;
        let out = chip.assign(layouter, TRACE_ROWS);
        let out = match out {
            Ok(c) => c,
            Err(e) => return Err(e),
        };
        let res = chip.expose_public(layouter, out, OUTPUT_INDEX);
        assert(res.is_ok());
        assert(layouter.copies@ =~= old(layouter).copies@ + circuit_copies(TRACE_ROWS as nat));
        Ok(())
    }
}

/// Synthesizes the circuit over `row_bound` rows with the public input
/// vector `instance`, and lists every constraint that the result leaves
/// unsatisfied: an empty list means the public values are proved. Fails,
/// before any constraint is looked at, exactly when the XOR table does not
/// fit in `row_bound` rows.
pub fn check(row_bound: usize, circuit: &XorbonacciCircuit, instance: Vec<u64>) -> (r: Result<Vec<Failure>, AssignError>)
    ensures
        r.is_ok() <==> row_bound >= XOR_TABLE_ROWS,
        r.is_ok() ==> r.unwrap()@ == trace_failures(instance@, TRACE_ROWS as nat),
        r.is_err() ==> r == Err::<Vec<Failure>, AssignError>(
            AssignError::RowOutOfBounds { row: (XOR_TABLE_ROWS - 1) as usize, bound: row_bound },
        ),
{
    let mut meta = ConstraintSystem::new();
    let config = XorbonacciCircuit::configure(&mut meta);
    let mut layouter = Layouter::new(row_bound, instance);
    circuit.synthesize(config, &mut layouter)?;
    match &layouter.tables {
        Some(tables) => {
            proof {
                lemma_tables_unique(tables.xor@, tables.idx@);
                assert(layouter.copies@ =~= circuit_copies(TRACE_ROWS as nat));
            }
            Ok(layouter.failures(tables))
        },
        None => Err(AssignError::RowOutOfBounds { row: XOR_TABLE_ROWS - 1, bound: row_bound }),
    }
}

/// The trace depends on the two seeds and the row count alone: two public
/// input vectors that agree on the seeds give the same trace.
pub proof fn lemma_assignment_deterministic(i1: Seq<u64>, i2: Seq<u64>, n: nat)
    requires
        public_value(i1, 0) == public_value(i2, 0),
        public_value(i1, 1) == public_value(i2, 1),
    ensures
        assigned_trace(i1, n) == assigned_trace(i2, n),
{
}

/// Where the public output value differs from the last D value of the
/// trace, the binding of that cell is reported as an unsatisfied copy
/// constraint.
pub proof fn lemma_wrong_output_detected(instance: Seq<u64>, n: nat)
    requires
        1 <= n <= usize::MAX,
        public_value(instance, 2) != assigned_trace(instance, n)[n - 1].d,
    ensures
        trace_failures(instance, n).contains(
            Failure::Copy { constraint: CopyConstraint { left: cell(Lane::D, n - 1), right: cell(Lane::Public, 2) } },
        ),
{
    let rows = assigned_trace(instance, n);
    let copies = circuit_copies(n);
    let k = copies.len() - 1;
    let f = Failure::Copy { constraint: copies[k] };
    lemma_copy_failures_members(rows, instance, copies);
    assert(cell_value(rows, instance, copies[k].left) == Some(rows[n - 1].d));
    assert(cell_value(rows, instance, copies[k].right) == Some(public_value(instance, 2)));
    assert(crate::check::copy_failures(rows, instance, copies).contains(f));
    lemma_concat_contains(crate::check::row_failures(xor_table_rows(), idx_table_rows(), rows), crate::check::copy_failures(rows, instance, copies), f);
}

} // verus!

use vstd::prelude::*;
use crate::tables::{idx_table_has, is_idx_table, is_xor_table, lemma_idx_table_complete, lemma_xor_table_members, xor_table_has, Tables, XorEntry};
use crate::witness::{chain_copy, circuit_copies, public_value, CopyConstraint, Cell, Lane, Layouter, Row};

verus! {

/// A constraint that the trace does not satisfy.
#[derive(Clone, Copy, Debug, PartialEq, Eq, Structural)]
pub enum Failure {
    /// S_xor is on at `row` and (A, B, C) of the row is not in the XOR table.
    XorLookup { row: usize },
    /// S_add is on at `row` and D - C of the row is not in the index table.
    IncrementLookup { row: usize },
    /// The two cells of a copy constraint do not hold one value.
    Copy { constraint: CopyConstraint },
}

/// Whether the XOR lookup holds on a row. Cell values lie below the field
/// modulus, so membership of the triple is read on the values themselves.
pub open spec fn xor_holds(x: Seq<XorEntry>, r: Row) -> bool {
    !r.s_xor || xor_table_has(x, (XorEntry { lhs: r.a, rhs: r.b, out: r.c }))
}

/// Whether the increment lookup holds on a row. In the field, D - C is a
/// small integer exactly when D >= C; otherwise it wraps to a value far
/// above any table row. The lookup bounds D - C only: it does not tie it
/// to the increment the assigner uses on the row.
pub open spec fn add_holds(d: Seq<u64>, r: Row) -> bool {
    !r.s_add || (r.c <= r.d && idx_table_has(d, r.d - r.c))
}

/// The lookup failures of the rows, row by row, the XOR lookup first.
pub open spec fn row_failures(x: Seq<XorEntry>, d: Seq<u64>, rows: Seq<Row>) -> Seq<Failure>
    decreases rows.len(),
{
    if rows.len() == 0 {
        seq![]
    } else {
        let i = rows.len() - 1;
        let r = rows[i];
        let fx = if xor_holds(x, r) { seq![] } else { seq![Failure::XorLookup { row: i as usize }] };
        let fa = if add_holds(d, r) { seq![] } else { seq![Failure::IncrementLookup { row: i as usize }] };
        row_failures(x, d, rows.drop_last()) + fx + fa
    }
}

/// The value of a cell; `None` for a value cell past the trace.
pub open spec fn cell_value(rows: Seq<Row>, instance: Seq<u64>, c: Cell) -> Option<u64> {
    if c.lane == Lane::Public {
        Some(public_value(instance, c.row as int))
    } else if c.row < rows.len() {
        let r = rows[c.row as int];
        Some(
            match c.lane {
                Lane::A => r.a,
                Lane::B => r.b,
                Lane::C => r.c,
                _ => r.d,
            },
        )
    } else {
        None
    }
}

/// Whether both cells of a copy constraint are assigned and equal.
pub open spec fn copy_holds(rows: Seq<Row>, instance: Seq<u64>, k: CopyConstraint) -> bool {
    let l = cell_value(rows, instance, k.left);
    l.is_some() && l == cell_value(rows, instance, k.right)
}

/// The copy constraints that do not hold, in the order they were recorded.
pub open spec fn copy_failures(rows: Seq<Row>, instance: Seq<u64>, copies: Seq<CopyConstraint>) -> Seq<Failure>
    decreases copies.len(),
{
    if copies.len() == 0 {
        seq![]
    } else {
        let k = copies.last();
        let f = if copy_holds(rows, instance, k) { seq![] } else { seq![Failure::Copy { constraint: k }] };
        copy_failures(rows, instance, copies.drop_last()) + f
    }
}

/// Every constraint of the circuit that the trace does not satisfy: the
/// lookups row by row, then the copy constraints.
pub open spec fn failures(
    x: Seq<XorEntry>,
    d: Seq<u64>,
    rows: Seq<Row>,
    instance: Seq<u64>,
    copies: Seq<CopyConstraint>,
) -> Seq<Failure> {
    row_failures(x, d, rows) + copy_failures(rows, instance, copies)
}

impl Layouter {
    /// The value of a cell.
    pub fn cell_value(&self, c: Cell) -> (r: Option<u64>)
        ensures
            r == cell_value(self.rows@, self.instance@, c),
    {
        match c.lane {
            Lane::Public => Some(self.public(c.row)),
            _ => {
                if c.row < self.rows.len() {
                    let r = self.rows[c.row];
                    Some(
                        match c.lane {
                            Lane::A => r.a,
                            Lane::B => r.b,
                            Lane::C => r.c,
                            _ => r.d,
                        },
                    )
                } else {
                    None
                }
            },
        }
    }

    /// Every constraint that the trace does not satisfy against `tables`:
    /// empty exactly when the trace satisfies the circuit.
    pub fn failures(&self, tables: &Tables) -> (r: Vec<Failure>)
        requires
            tables.wf(),
        ensures
            r@ == failures(tables.xor@, tables.idx@, self.rows@, self.instance@, self.copies@),
    {
        let mut out: Vec<Failure> = Vec::new();
        let mut i: usize = 0;
        while i < self.rows.len()
            invariant
                tables.wf(),
                i <= self.rows@.len(),
                out@ == row_failures(tables.xor@, tables.idx@, self.rows@.subrange(0, i as int)),
            decreases self.rows@.len() - i,
        {
            assert(self.rows@.subrange(0, i + 1).drop_last() =~= self.rows@.subrange(0, i as int));
            let r = self.rows[i];
            if r.s_xor && !tables.has_xor(r.a, r.b, r.c) {
                out.push(Failure::XorLookup { row: i });
            }
            if r.s_add && !(r.c <= r.d && tables.has_idx(r.d - r.c)) {
                out.push(Failure::IncrementLookup { row: i });
            }
            i = i + 1;
        }
        assert(self.rows@.subrange(0, i as int) =~= self.rows@);
        let ghost row_part = out@;
        let mut k: usize = 0;
        while k < self.copies.len()
            invariant
                k <= self.copies@.len(),
                out@ == row_part + copy_failures(self.rows@, self.instance@, self.copies@.subrange(0, k as int)),
            decreases self.copies@.len() - k,
        {
            assert(self.copies@.subrange(0, k + 1).drop_last() =~= self.copies@.subrange(0, k as int));
            let c = self.copies[k];
            let l = self.cell_value(c.left);
            let holds = match l {
                Some(v) => match self.cell_value(c.right) {
                    Some(w) => v == w,
                    None => false,
                },
                None => false,
            };
            if !holds {
                out.push(Failure::Copy { constraint: c });
            }
            proof {
                let s = copy_failures(self.rows@, self.instance@, self.copies@.subrange(0, k as int));
                let f = if holds { seq![] } else { seq![Failure::Copy { constraint: c }] };
                assert(copy_failures(self.rows@, self.instance@, self.copies@.subrange(0, k + 1)) == s + f);
                assert(out@ =~= row_part + (s + f));
            }
            k = k + 1;
        }
        assert(self.copies@.subrange(0, k as int) =~= self.copies@);
        out
    }
}

/// A lookup failure names a row of the trace whose lookup does not hold,
/// and every such row is named.
pub proof fn lemma_row_failures_members(x: Seq<XorEntry>, d: Seq<u64>, rows: Seq<Row>)
    requires
        rows.len() <= usize::MAX + 1,
    ensures
        forall|f: Failure| #[trigger] row_failures(x, d, rows).contains(f) <==> exists|i: int|
            0 <= i < rows.len() && ((f == Failure::XorLookup { row: i as usize } && !xor_holds(x, #[trigger] rows[i]))
                || (f == Failure::IncrementLookup { row: i as usize } && !add_holds(d, rows[i]))),
    decreases rows.len(),
{
    if rows.len() > 0 {
        let n = rows.len() - 1;
        let pre = rows.drop_last();
        lemma_row_failures_members(x, d, pre);
        let r = rows[n];
        let fx = if xor_holds(x, r) { seq![] } else { seq![Failure::XorLookup { row: n as usize }] };
        let fa = if add_holds(d, r) { seq![] } else { seq![Failure::IncrementLookup { row: n as usize }] };
        let all = row_failures(x, d, rows);
        assert(all == row_failures(x, d, pre) + fx + fa);
        assert forall|f: Failure| #[trigger] all.contains(f) <==> exists|i: int|
            0 <= i < rows.len() && ((f == Failure::XorLookup { row: i as usize } && !xor_holds(x, #[trigger] rows[i]))
                || (f == Failure::IncrementLookup { row: i as usize } && !add_holds(d, rows[i]))) by {
            if all.contains(f) {
                let j = choose|j: int| 0 <= j < all.len() && all[j] == f;
                if j < row_failures(x, d, pre).len() {
                    assert(row_failures(x, d, pre).contains(f));
                    let i = choose|i: int|
                        0 <= i < pre.len() && ((f == Failure::XorLookup { row: i as usize } && !xor_holds(x, #[trigger] pre[i]))
                            || (f == Failure::IncrementLookup { row: i as usize } && !add_holds(d, pre[i])));
                    assert(pre[i] == rows[i]);
                } else {
                    assert(rows[n] == r);
                }
            }
            if exists|i: int|
                0 <= i < rows.len() && ((f == Failure::XorLookup { row: i as usize } && !xor_holds(x, #[trigger] rows[i]))
                    || (f == Failure::IncrementLookup { row: i as usize } && !add_holds(d, rows[i]))) {
                let i = choose|i: int|
                    0 <= i < rows.len() && ((f == Failure::XorLookup { row: i as usize } && !xor_holds(x, #[trigger] rows[i]))
                        || (f == Failure::IncrementLookup { row: i as usize } && !add_holds(d, rows[i])));
                if i < n {
                    assert(pre[i] == rows[i]);
                    assert(row_failures(x, d, pre).contains(f));
                    let j = choose|j: int| 0 <= j < row_failures(x, d, pre).len() && row_failures(x, d, pre)[j] == f;
                    assert(all[j] == f);
                } else if f == (Failure::XorLookup { row: i as usize }) && !xor_holds(x, rows[i]) {
                    assert(all[row_failures(x, d, pre).len() as int] == f);
                } else {
                    assert(all[all.len() - 1] == f);
                }
            }
        }
    }
}

/// A copy failure names a recorded copy constraint that does not hold, and
/// every such constraint is named.
pub proof fn lemma_copy_failures_members(rows: Seq<Row>, instance: Seq<u64>, copies: Seq<CopyConstraint>)
    ensures
        forall|f: Failure| #[trigger] copy_failures(rows, instance, copies).contains(f) <==> exists|k: int|
            0 <= k < copies.len() && f == (Failure::Copy { constraint: #[trigger] copies[k] })
                && !copy_holds(rows, instance, copies[k]),
    decreases copies.len(),
{
    if copies.len() > 0 {
        let n = copies.len() - 1;
        let pre = copies.drop_last();
        lemma_copy_failures_members(rows, instance, pre);
        let all = copy_failures(rows, instance, copies);
        assert forall|f: Failure| #[trigger] all.contains(f) <==> exists|k: int|
            0 <= k < copies.len() && f == (Failure::Copy { constraint: #[trigger] copies[k] })
                && !copy_holds(rows, instance, copies[k]) by {
            if all.contains(f) {
                let j = choose|j: int| 0 <= j < all.len() && all[j] == f;
                if j < copy_failures(rows, instance, pre).len() {
                    assert(copy_failures(rows, instance, pre).contains(f));
                    let k = choose|k: int|
                        0 <= k < pre.len() && f == (Failure::Copy { constraint: #[trigger] pre[k] })
                            && !copy_holds(rows, instance, pre[k]);
                    assert(pre[k] == copies[k]);
                } else {
                    assert(copies[n] == copies.last());
                }
            }
            if exists|k: int|
                0 <= k < copies.len() && f == (Failure::Copy { constraint: #[trigger] copies[k] })
                    && !copy_holds(rows, instance, copies[k]) {
                let k = choose|k: int|
                    0 <= k < copies.len() && f == (Failure::Copy { constraint: #[trigger] copies[k] })
                        && !copy_holds(rows, instance, copies[k]);
                if k < n {
                    assert(pre[k] == copies[k]);
                    assert(copy_failures(rows, instance, pre).contains(f));
                    let j = choose|j: int| 0 <= j < copy_failures(rows, instance, pre).len() && copy_failures(rows, instance, pre)[j] == f;
                    assert(all[j] == f);
                } else {
                    assert(all[all.len() - 1] == f);
                }
            }
        }
    }
}

/// A row with C replaced.
pub open spec fn with_c(r: Row, c: u64) -> Row {
    Row { c, ..r }
}

/// A row with D replaced.
pub open spec fn with_d(r: Row, d: u64) -> Row {
    Row { d, ..r }
}

pub proof fn lemma_concat_contains(a: Seq<Failure>, b: Seq<Failure>, f: Failure)
    ensures
        (a + b).contains(f) <==> a.contains(f) || b.contains(f),
{
    if (a + b).contains(f) {
        let j = choose|j: int| 0 <= j < (a + b).len() && (a + b)[j] == f;
        if j >= a.len() {
            assert(b[j - a.len()] == f);
        }
    }
    if a.contains(f) {
        let j = choose|j: int| 0 <= j < a.len() && a[j] == f;
        assert((a + b)[j] == f);
    }
    if b.contains(f) {
        let j = choose|j: int| 0 <= j < b.len() && b[j] == f;
        assert((a + b)[a.len() + j] == f);
    }
}

/// In a trace that satisfies every constraint of the circuit, setting C on
/// a row whose XOR selector is on to anything but A ^ B makes the XOR
/// lookup of that row fail, and every failure then found is on that row:
/// all other rows, and every copy constraint, still hold.
pub proof fn lemma_xor_tamper_detected(
    x: Seq<XorEntry>,
    d: Seq<u64>,
    rows: Seq<Row>,
    instance: Seq<u64>,
    r: int,
    c: u64,
)
    requires
        is_xor_table(x),
        is_idx_table(d),
        1 <= rows.len() <= usize::MAX,
        failures(x, d, rows, instance, circuit_copies(rows.len())).len() == 0,
        0 <= r < rows.len(),
        rows[r].s_xor,
        c != rows[r].a ^ rows[r].b,
    ensures
        failures(x, d, rows.update(r, with_c(rows[r], c)), instance, circuit_copies(rows.len())).contains(
            Failure::XorLookup { row: r as usize },
        ),
        forall|f: Failure| #[trigger]
            failures(x, d, rows.update(r, with_c(rows[r], c)), instance, circuit_copies(rows.len())).contains(f)
                ==> f == (Failure::XorLookup { row: r as usize }) || f == (Failure::IncrementLookup { row: r as usize }),
{
    let t = rows.update(r, with_c(rows[r], c));
    let copies = circuit_copies(rows.len());
    lemma_row_failures_members(x, d, rows);
    lemma_row_failures_members(x, d, t);
    lemma_copy_failures_members(rows, instance, copies);
    lemma_copy_failures_members(t, instance, copies);
    lemma_xor_table_members(x);
    let fail_x = Failure::XorLookup { row: r as usize };
    assert(row_failures(x, d, t).contains(fail_x)) by {
        assert(!xor_holds(x, t[r]));
    }
    lemma_concat_contains(row_failures(x, d, t), copy_failures(t, instance, copies), fail_x);
    assert forall|f: Failure| #[trigger] failures(x, d, t, instance, copies).contains(f) implies f == fail_x || f
        == (Failure::IncrementLookup { row: r as usize }) by {
        lemma_concat_contains(row_failures(x, d, t), copy_failures(t, instance, copies), f);
        if row_failures(x, d, t).contains(f) {
            let i = choose|i: int|
                0 <= i < t.len() && ((f == Failure::XorLookup { row: i as usize } && !xor_holds(x, #[trigger] t[i]))
                    || (f == Failure::IncrementLookup { row: i as usize } && !add_holds(d, t[i])));
            if i != r {
                assert(t[i] == rows[i]);
                lemma_concat_contains(row_failures(x, d, rows), copy_failures(rows, instance, copies), f);
            }
        } else {
            let k = choose|k: int|
                0 <= k < copies.len() && f == (Failure::Copy { constraint: #[trigger] copies[k] })
                    && !copy_holds(t, instance, copies[k]);
            if k < copies.len() - 1 {
                assert(copies[k] == chain_copy(k));
            }
            assert(cell_value(t, instance, copies[k].left) == cell_value(rows, instance, copies[k].left));
            assert(cell_value(t, instance, copies[k].right) == cell_value(rows, instance, copies[k].right));
            lemma_concat_contains(row_failures(x, d, rows), copy_failures(rows, instance, copies), f);
        }
    }
}

/// Setting D on a row whose increment selector is on so that D - C falls
/// outside `0..=255` makes the increment lookup of that row fail, while its
/// XOR lookup, where it held, still holds.
pub proof fn lemma_increment_out_of_range_detected(
    x: Seq<XorEntry>,
    d: Seq<u64>,
    rows: Seq<Row>,
    instance: Seq<u64>,
    copies: Seq<CopyConstraint>,
    r: int,
    dv: u64,
)
    requires
        is_xor_table(x),
        is_idx_table(d),
        rows.len() <= usize::MAX,
        0 <= r < rows.len(),
        rows[r].s_add,
        xor_holds(x, rows[r]),
        !(rows[r].c <= dv && dv - rows[r].c <= 255),
    ensures
        failures(x, d, rows.update(r, with_d(rows[r], dv)), instance, copies).contains(
            Failure::IncrementLookup { row: r as usize },
        ),
        !failures(x, d, rows.update(r, with_d(rows[r], dv)), instance, copies).contains(
            Failure::XorLookup { row: r as usize },
        ),
{
    let t = rows.update(r, with_d(rows[r], dv));
    lemma_row_failures_members(x, d, t);
    lemma_copy_failures_members(t, instance, copies);
    lemma_idx_table_complete(d);
    let fail_a = Failure::IncrementLookup { row: r as usize };
    let fail_x = Failure::XorLookup { row: r as usize };
    assert(row_failures(x, d, t).contains(fail_a)) by {
        assert(!add_holds(d, t[r]));
    }
    lemma_concat_contains(row_failures(x, d, t), copy_failures(t, instance, copies), fail_a);
    lemma_concat_contains(row_failures(x, d, t), copy_failures(t, instance, copies), fail_x);
    if row_failures(x, d, t).contains(fail_x) {
        let i = choose|i: int|
            0 <= i < t.len() && ((fail_x == Failure::XorLookup { row: i as usize } && !xor_holds(x, #[trigger] t[i]))
                || (fail_x == Failure::IncrementLookup { row: i as usize } && !add_holds(d, t[i])));
        assert(i == r);
        assert(xor_holds(x, t[r]));
    }
}

/// The increment lookup accepts every increment in `0..=255`, not only the
/// one the assigner uses: the circuit proves a bound on D - C, no more.
pub proof fn lemma_any_small_increment_accepted(d: Seq<u64>, r: Row, delta: u64)
    requires
        is_idx_table(d),
        delta <= 255,
        r.c + delta <= u64::MAX,
    ensures
        add_holds(d, with_d(r, (r.c + delta) as u64)),
{
    lemma_idx_table_complete(d);
    assert(idx_table_has(d, delta as int));
}

} // verus!

use vstd::prelude::*;

verus! {

/// Number of distinct byte values; both tables are indexed by bytes.
pub const BYTE_VALUES: u64 = 256;

/// Number of rows of the XOR table: one per ordered pair of bytes.
pub const XOR_TABLE_ROWS: usize = 65536;

/// Number of rows of the index table.
pub const IDX_TABLE_ROWS: usize = 256;

/// One row of the XOR table: `(lhs, rhs, lhs ^ rhs)`.
#[derive(Clone, Copy, Debug, PartialEq, Eq, Structural)]
pub struct XorEntry {
    pub lhs: u64,
    pub rhs: u64,
    pub out: u64,
}

/// The entry that row `i` of the XOR table holds: row-major over
/// `(lhs, rhs)`, with `lhs` as the outer variable.
pub open spec fn xor_entry_at(i: int) -> XorEntry {
    let lhs = (i / 256) as u64;
    let rhs = (i % 256) as u64;
    XorEntry { lhs, rhs, out: lhs ^ rhs }
}

/// The XOR table row for the bytes `x` and `y`.
pub open spec fn xor_row(x: u64, y: u64) -> XorEntry {
    XorEntry { lhs: x, rhs: y, out: x ^ y }
}

/// Whether `s` is the complete XOR table, in row-major order.
pub open spec fn is_xor_table(s: Seq<XorEntry>) -> bool {
    &&& s.len() == XOR_TABLE_ROWS
    &&& forall|i: int| 0 <= i < s.len() ==> #[trigger] s[i] == xor_entry_at(i)
}

/// Whether `s` is the index table `0, 1, ..., 255`.
pub open spec fn is_idx_table(s: Seq<u64>) -> bool {
    &&& s.len() == IDX_TABLE_ROWS
    &&& forall|i: int| 0 <= i < s.len() ==> #[trigger] s[i] == i
}

/// Membership of a triple in a table, as a lookup argument sees it.
pub open spec fn xor_table_has(s: Seq<XorEntry>, e: XorEntry) -> bool {
    exists|i: int| 0 <= i < s.len() && #[trigger] s[i] == e
}

/// Membership of a value in the index table.
pub open spec fn idx_table_has(s: Seq<u64>, v: int) -> bool {
    exists|i: int| 0 <= i < s.len() && #[trigger] s[i] == v
}

/// The two static lookup tables of one circuit instance.
pub struct Tables {
    pub xor: Vec<XorEntry>,
    pub idx: Vec<u64>,
}

impl Tables {
    pub open spec fn wf(&self) -> bool {
        is_xor_table(self.xor@) && is_idx_table(self.idx@)
    }

    /// Builds both tables.
    pub fn new() -> (r: Tables)
        ensures
            r.wf(),
    {
        Tables { xor: xor_table(), idx: idx_table() }
    }

    /// Whether `(lhs, rhs, out)` is a row of the XOR table.
    pub fn has_xor(&self, lhs: u64, rhs: u64, out: u64) -> (r: bool)
        requires
            self.wf(),
        ensures
            r == xor_table_has(self.xor@, (XorEntry { lhs, rhs, out })),
            r == (lhs < 256 && rhs < 256 && out == lhs ^ rhs),
    {
        proof {
            lemma_xor_table_members(self.xor@);
        }
        if lhs < BYTE_VALUES && rhs < BYTE_VALUES {
            let i = (lhs * BYTE_VALUES + rhs) as usize;
            let e = self.xor[i];
            e.out == out
        } else {
            false
        }
    }

    /// Whether `v` is a row of the index table.
    pub fn has_idx(&self, v: u64) -> (r: bool)
        requires
            self.wf(),
        ensures
            r == idx_table_has(self.idx@, v as int),
            r == (v < 256),
    {
        if v < BYTE_VALUES {
            assert(self.idx@[v as int] == v);
            true
        } else {
            false
        }
    }
}

proof fn lemma_xor_bytes(x: u64, y: u64)
    requires
        x < 256,
        y < 256,
    ensures
        x ^ y < 256,
{
    assert(x < 256 && y < 256 ==> x ^ y < 256) by (bit_vector);
}

proof fn lemma_row_major(x: int, y: int)
    requires
        0 <= x < 256,
        0 <= y < 256,
    ensures
        0 <= x * 256 + y < 65536,
        (x * 256 + y) / 256 == x,
        (x * 256 + y) % 256 == y,
{
    assert(0 <= x * 256 + y < 65536) by (nonlinear_arith)
        requires
            0 <= x < 256,
            0 <= y < 256,
    ;
    vstd::arithmetic::div_mod::lemma_fundamental_div_mod_converse(x * 256 + y, 256, x, y);
}

/// Membership in the XOR table is exactly "two bytes and their XOR", and
/// each such triple stands at row `256 * lhs + rhs`.
pub proof fn lemma_xor_table_members(s: Seq<XorEntry>)
    requires
        is_xor_table(s),
    ensures
        forall|e: XorEntry| #[trigger]
            xor_table_has(s, e) <==> (e.lhs < 256 && e.rhs < 256 && e.out == e.lhs ^ e.rhs),
        forall|x: u64, y: u64|
            x < 256 && y < 256 ==> #[trigger] s[x * 256 + y] == xor_row(x, y),
{
    assert forall|x: u64, y: u64| x < 256 && y < 256 implies #[trigger] s[x * 256 + y] == xor_row(x, y) by {
        lemma_row_major(x as int, y as int);
    }
    assert forall|e: XorEntry| #[trigger]
        xor_table_has(s, e) <==> (e.lhs < 256 && e.rhs < 256 && e.out == e.lhs ^ e.rhs) by {
        if xor_table_has(s, e) {
            let i = choose|i: int| 0 <= i < s.len() && #[trigger] s[i] == e;
            assert(s[i] == xor_entry_at(i));
        }
        if e.lhs < 256 && e.rhs < 256 && e.out == e.lhs ^ e.rhs {
            lemma_row_major(e.lhs as int, e.rhs as int);
            assert(s[e.lhs * 256 + e.rhs] == e);
        }
    }
}

/// The XOR table holds, for every pair of bytes `(x, y)`, exactly one row,
/// and that row is `(x, y, x ^ y)`; it has 65536 rows and no others.
pub proof fn lemma_xor_table_complete(s: Seq<XorEntry>)
    requires
        is_xor_table(s),
    ensures
        s.len() == 65536,
        forall|i: int| 0 <= i < s.len() ==> {
            let e = #[trigger] s[i];
            e.lhs < 256 && e.rhs < 256 && e.out == e.lhs ^ e.rhs
        },
        forall|x: u64, y: u64| x < 256 && y < 256 ==> xor_table_has(s, #[trigger] xor_row(x, y)),
        forall|i: int, j: int| 0 <= i < s.len() && 0 <= j < s.len() && i != j ==> #[trigger] s[i] != #[trigger] s[j],
{
    lemma_xor_table_members(s);
    assert forall|i: int| 0 <= i < s.len() implies {
        let e = #[trigger] s[i];
        e.lhs < 256 && e.rhs < 256 && e.out == e.lhs ^ e.rhs
    } by {
        assert(s[i] == xor_entry_at(i));
        assert(xor_table_has(s, s[i]));
    }
    assert forall|i: int, j: int| 0 <= i < s.len() && 0 <= j < s.len() && i != j implies #[trigger] s[i] != #[trigger] s[j] by {
        assert(s[i] == xor_entry_at(i));
        assert(s[j] == xor_entry_at(j));
        vstd::arithmetic::div_mod::lemma_fundamental_div_mod(i, 256);
        vstd::arithmetic::div_mod::lemma_fundamental_div_mod(j, 256);
    }
}

/// The index table holds exactly the 256 distinct integers `0..=255`.
pub proof fn lemma_idx_table_complete(s: Seq<u64>)
    requires
        is_idx_table(s),
    ensures
        s.len() == 256,
        forall|v: int| #[trigger] idx_table_has(s, v) <==> 0 <= v < 256,
        forall|i: int, j: int| 0 <= i < s.len() && 0 <= j < s.len() && i != j ==> #[trigger] s[i] != #[trigger] s[j],
{
    assert forall|v: int| #[trigger] idx_table_has(s, v) <==> 0 <= v < 256 by {
        if 0 <= v < 256 {
            assert(s[v] == v);
        }
    }
}

/// The XOR table, row by row.
pub open spec fn xor_table_rows() -> Seq<XorEntry> {
    Seq::new(XOR_TABLE_ROWS as nat, |i: int| xor_entry_at(i))
}

/// The index table, row by row.
pub open spec fn idx_table_rows() -> Seq<u64> {
    Seq::new(IDX_TABLE_ROWS as nat, |i: int| i as u64)
}

/// Each table is determined by its shape.
pub proof fn lemma_tables_unique(x: Seq<XorEntry>, d: Seq<u64>)
    requires
        is_xor_table(x),
        is_idx_table(d),
    ensures
        x == xor_table_rows(),
        d == idx_table_rows(),
{
    assert(x =~= xor_table_rows());
    assert(d =~= idx_table_rows());
}

/// Builds the XOR table: all `(x, y, x ^ y)` for bytes `x`, `y`, with `x`
/// as the outer loop variable.
pub fn xor_table() -> (r: Vec<XorEntry>)
    ensures
        is_xor_table(r@),
{
    let mut r: Vec<XorEntry> = Vec::new();
    let mut lhs: u64 = 0;
    while lhs < BYTE_VALUES
        invariant
            lhs <= 256,
            r@.len() == lhs * 256,
            forall|i: int| 0 <= i < r@.len() ==> #[trigger] r@[i] == xor_entry_at(i),
        decreases 256 - lhs,
    {
        let mut rhs: u64 = 0;
        while rhs < BYTE_VALUES
            invariant
                lhs < 256,
                rhs <= 256,
                r@.len() == lhs * 256 + rhs,
                forall|i: int| 0 <= i < r@.len() ==> #[trigger] r@[i] == xor_entry_at(i),
            decreases 256 - rhs,
        {
            proof {
                lemma_row_major(lhs as int, rhs as int);
            }
            r.push(XorEntry { lhs, rhs, out: lhs ^ rhs });
            rhs = rhs + 1;
        }
        lhs = lhs + 1;
    }
    r
}

/// Builds the index table `0, 1, ..., 255`.
pub fn idx_table() -> (r: Vec<u64>)
    ensures
        is_idx_table(r@),
{
    let mut r: Vec<u64> = Vec::new();
    let mut v: u64 = 0;
    while v < BYTE_VALUES
        invariant
            v <= 256,
            r@.len() == v,
            forall|i: int| 0 <= i < r@.len() ==> #[trigger] r@[i] == i,
        decreases 256 - v,
    {
        r.push(v);
        v = v + 1;
    }
    r
}

} // verus!

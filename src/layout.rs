use vstd::prelude::*;

verus! {

/// The kinds of column a constraint system declares.
#[derive(Clone, Copy, Debug, PartialEq, Eq, Structural)]
pub enum ColumnKind {
    Advice,
    Instance,
    Table,
}

/// A declared column: its kind and its index among the columns of that kind.
#[derive(Clone, Copy, Debug, PartialEq, Eq, Structural)]
pub struct Column {
    pub kind: ColumnKind,
    pub index: usize,
}

/// A selector: the index of a boolean per-row flag.
#[derive(Clone, Copy, Debug, PartialEq, Eq, Structural)]
pub struct Selector {
    pub index: usize,
}

/// A registered lookup gate.
#[derive(Clone, Copy, Debug)]
pub enum Lookup {
    /// Where `selector` is on, the triple of the three advice cells of the
    /// row must be a row of the three table columns.
    Triple { selector: Selector, inputs: (Column, Column, Column), tables: (Column, Column, Column) },
    /// Where `selector` is on, `minuend - subtrahend` of the row must be a
    /// row of the table column.
    Difference { selector: Selector, minuend: Column, subtrahend: Column, table: Column },
}

/// The declarative description of a circuit: the columns and selectors
/// declared so far, the columns with copy constraints enabled, and the
/// lookup gates.
pub struct ConstraintSystem {
    pub num_advice: usize,
    pub num_instance: usize,
    pub num_table: usize,
    pub num_selectors: usize,
    pub equality: Vec<Column>,
    pub lookups: Vec<Lookup>,
}

pub open spec fn column(kind: ColumnKind, index: int) -> Column {
    Column { kind, index: index as usize }
}

impl ConstraintSystem {
    /// An empty constraint system.
    pub fn new() -> (r: ConstraintSystem)
        ensures
            r.num_advice == 0,
            r.num_instance == 0,
            r.num_table == 0,
            r.num_selectors == 0,
            r.equality@.len() == 0,
            r.lookups@.len() == 0,
    {
        ConstraintSystem {
            num_advice: 0,
            num_instance: 0,
            num_table: 0,
            num_selectors: 0,
            equality: Vec::new(),
            lookups: Vec::new(),
        }
    }

    /// Declares a fresh advice column.
    pub fn advice_column(&mut self) -> (c: Column)
        requires
            old(self).num_advice < usize::MAX,
        ensures
            c == column(ColumnKind::Advice, old(self).num_advice as int),
            final(self).num_advice == old(self).num_advice + 1,
            final(self).num_instance == old(self).num_instance,
            final(self).num_table == old(self).num_table,
            final(self).num_selectors == old(self).num_selectors,
            final(self).equality@ == old(self).equality@,
            final(self).lookups@ == old(self).lookups@,
    {
        let c = Column { kind: ColumnKind::Advice, index: self.num_advice };
        self.num_advice = self.num_advice + 1;
        c
    }

    /// Declares a fresh instance (public) column.
    pub fn instance_column(&mut self) -> (c: Column)
        requires
            old(self).num_instance < usize::MAX,
        ensures
            c == column(ColumnKind::Instance, old(self).num_instance as int),
            final(self).num_advice == old(self).num_advice,
            final(self).num_instance == old(self).num_instance + 1,
            final(self).num_table == old(self).num_table,
            final(self).num_selectors == old(self).num_selectors,
            final(self).equality@ == old(self).equality@,
            final(self).lookups@ == old(self).lookups@,
    {
        let c = Column { kind: ColumnKind::Instance, index: self.num_instance };
        self.num_instance = self.num_instance + 1;
        c
    }

    /// Declares a fresh lookup-table column.
    pub fn lookup_table_column(&mut self) -> (c: Column)
        requires
            old(self).num_table < usize::MAX,
        ensures
            c == column(ColumnKind::Table, old(self).num_table as int),
            final(self).num_advice == old(self).num_advice,
            final(self).num_instance == old(self).num_instance,
            final(self).num_table == old(self).num_table + 1,
            final(self).num_selectors == old(self).num_selectors,
            final(self).equality@ == old(self).equality@,
            final(self).lookups@ == old(self).lookups@,
    {
        let c = Column { kind: ColumnKind::Table, index: self.num_table };
        self.num_table = self.num_table + 1;
        c
    }

    /// Declares a fresh selector that lookup gates may use.
    pub fn complex_selector(&mut self) -> (s: Selector)
        requires
            old(self).num_selectors < usize::MAX,
        ensures
            s == (Selector { index: old(self).num_selectors }),
            final(self).num_advice == old(self).num_advice,
            final(self).num_instance == old(self).num_instance,
            final(self).num_table == old(self).num_table,
            final(self).num_selectors == old(self).num_selectors + 1,
            final(self).equality@ == old(self).equality@,
            final(self).lookups@ == old(self).lookups@,
    {
        let s = Selector { index: self.num_selectors };
        self.num_selectors = self.num_selectors + 1;
        s
    }

    /// Enables copy constraints on a column.
    pub fn enable_equality(&mut self, c: Column)
        ensures
            final(self).num_advice == old(self).num_advice,
            final(self).num_instance == old(self).num_instance,
            final(self).num_table == old(self).num_table,
            final(self).num_selectors == old(self).num_selectors,
            final(self).equality@ == old(self).equality@.push(c),
            final(self).lookups@ == old(self).lookups@,
    {
        self.equality.push(c);
    }

    /// Registers a lookup gate.
    pub fn lookup(&mut self, l: Lookup)
        ensures
            final(self).num_advice == old(self).num_advice,
            final(self).num_instance == old(self).num_instance,
            final(self).num_table == old(self).num_table,
            final(self).num_selectors == old(self).num_selectors,
            final(self).equality@ == old(self).equality@,
            final(self).lookups@ == old(self).lookups@.push(l),
    {
        self.lookups.push(l);
    }
}

/// The column layout of the XOR-folded recurrence circuit.
#[derive(Clone, Copy, Debug)]
pub struct XorbonacciConfig {
    pub advice: (Column, Column, Column, Column),
    pub s_add: Selector,
    pub s_xor: Selector,
    pub xor_table: (Column, Column, Column),
    pub idx_table: Column,
    pub instance: Column,
}

} // verus!

//! A lookup-table arithmetization of the XOR-folded Fibonacci recurrence:
//! the static tables, the column layout, the witness assigner, the public
//! binder and a satisfiability checker for the resulting constraint system.

pub mod tables;
pub mod witness;
pub mod layout;
pub mod chip;
pub mod check;
pub mod circuit;

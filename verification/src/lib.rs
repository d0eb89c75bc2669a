//! Predicate evaluation for an embeddable SQL execution engine: decides, for
//! a candidate row or a row assembled from joined tables, whether it
//! satisfies a WHERE clause.  Column references resolve against a chain of
//! scope frames, innermost first; literals, stored values and values computed
//! by nested SELECTs compare under one scalar equality; and the storage
//! collaborator is reentered to answer nested SELECTs.

pub mod ast;
pub mod context;
pub mod data;
pub mod errors;
pub mod evaluate;
pub mod filter;
pub mod parsed;
pub mod store;

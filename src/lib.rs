//! Two automata that walk an unbounded integer lattice: a Langton's ant that
//! flips cells, and an engineer that builds and tears down bridges between
//! lattice nodes.  Each keeps a finite window over the lattice and records
//! which window cells must be redrawn after every move.

pub mod lattice;
pub mod viewport;
pub mod ant;
pub mod engineer;
pub mod driver;

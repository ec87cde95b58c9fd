//! Recording of the cell assignments, copy constraints, gates and lookups
//! that a PLONK circuit produces, for later inspection.
//!
//! `dump` holds the [`dump::AssignmentDumper`], a table of cells that a
//! circuit's synthesis writes into; `constraints` flattens the gates and
//! lookup arguments of a configured constraint system; `laws` states and
//! proves the properties that tie the operations together.

pub mod constraints;
pub mod dump;
pub mod laws;

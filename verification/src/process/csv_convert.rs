//! Data model of the roster-table conversion command.  Reading the table and
//! serializing it to JSON or YAML is I/O- and serializer-bound work that
//! lives with the command layer; the record shape is fixed here.

use vstd::prelude::*;

verus! {

/// One record of the roster table.
#[derive(Debug, Clone, PartialEq, Eq)]
pub struct Player {
    pub name: String,
    pub position: String,
    pub dob: String,
    pub nationality: String,
    pub kit: u8,
}

} // verus!

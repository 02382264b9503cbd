use vstd::prelude::*;

verus! {

/// The density of a table, handed down to its rows and cells.
#[derive(Clone, Copy, Debug, PartialEq, Eq, Structural)]
pub enum TableSize {
    Small,
    Medium,
}

pub open spec fn table_size_word(s: TableSize) -> Seq<char> {
    match s {
        TableSize::Small => "small"@,
        TableSize::Medium => "medium"@,
    }
}

} // verus!

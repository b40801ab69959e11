//! The table layout of the library page: its columns and its rows.
use crate::models::{GameData, GameDataView};
use vstd::prelude::*;

verus! {

/// The columns of the table.
#[derive(Debug, Clone, Copy, PartialEq, Eq, Structural)]
pub enum ColumnKind {
    Name,
    LastPlayed,
    Playtime,
    Description,
}

impl ColumnKind {
    /// The words in the head of the column.
    pub open spec fn spec_label(self) -> Seq<char> {
        match self {
            ColumnKind::Name => "Name"@,
            ColumnKind::LastPlayed => "Last Played"@,
            ColumnKind::Playtime => "Time Played"@,
            ColumnKind::Description => "Description"@,
        }
    }

    /// The words in the head of the column.
    pub fn label(&self) -> (words: &'static str)
        ensures
            words@ == self.spec_label(),
    {
        match self {
            ColumnKind::Name => "Name",
            ColumnKind::LastPlayed => "Last Played",
            ColumnKind::Playtime => "Time Played",
            ColumnKind::Description => "Description",
        }
    }
}

/// The columns of the table, from left to right.
pub open spec fn spec_columns() -> Seq<ColumnKind> {
    seq![ColumnKind::Name, ColumnKind::Playtime, ColumnKind::LastPlayed, ColumnKind::Description]
}

/// The table: its columns, from left to right, and one row for each game.
#[derive(Debug)]
pub struct LibraryTable {
    pub columns: Vec<ColumnKind>,
    pub rows: Vec<GameData>,
}

impl LibraryTable {
    /// A table with the four columns and no row.
    pub fn new() -> (table: Self)
        ensures
            table.columns@ == spec_columns(),
            table.rows.deep_view() == Seq::<GameDataView>::empty(),
    {
        let table = LibraryTable {
            columns: vec![
                ColumnKind::Name,
                ColumnKind::Playtime,
                ColumnKind::LastPlayed,
                ColumnKind::Description,
            ],
            rows: Vec::new(),
        };
        assert(table.columns@ =~= spec_columns());
        assert(table.rows.deep_view() =~= Seq::<GameDataView>::empty());
        table
    }
}

} // verus!

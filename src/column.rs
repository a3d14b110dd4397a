use vstd::prelude::*;

verus! {

/// The storage type of a column.
#[derive(Debug, Clone, Copy, PartialEq, Eq, Structural)]
pub enum ColumnType {
    /// Fixed-length characters, with an optional length.
    Char(Option<u32>),
    /// Variable-length characters, with an optional bound on the length.
    String(Option<u32>),
    /// Unbounded text.
    Text,
    /// 8-bit integer.
    TinyInteger,
    /// 16-bit integer.
    SmallInteger,
    /// 32-bit integer.
    Integer,
    /// 64-bit integer.
    BigInteger,
    /// 8-bit unsigned integer.
    TinyUnsigned,
    /// 16-bit unsigned integer.
    SmallUnsigned,
    /// 32-bit unsigned integer.
    Unsigned,
    /// 64-bit unsigned integer.
    BigUnsigned,
    /// Boolean.
    Boolean,
}

/// The definition of a column: its storage type and constraints.
#[derive(Debug, Clone, Copy, PartialEq, Eq, Structural)]
pub struct ColumnDef {
    /// The storage type.
    pub col_type: ColumnType,
    /// Whether the column accepts null.
    pub null: bool,
    /// Whether values must be unique.
    pub unique: bool,
    /// Whether the column is indexed.
    pub indexed: bool,
}

impl ColumnType {
    /// A column of this type that is not null, not unique and not indexed.
    pub open spec fn spec_def(self) -> ColumnDef {
        ColumnDef { col_type: self, null: false, unique: false, indexed: false }
    }

    /// Turns the storage type into a column definition with no constraints.
    pub fn def(self) -> (r: ColumnDef)
        ensures
            r == self.spec_def(),
    {
        ColumnDef { col_type: self, null: false, unique: false, indexed: false }
    }
}

} // verus!

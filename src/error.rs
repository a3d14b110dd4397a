use vstd::prelude::*;

verus! {

/// Errors of the library.
#[derive(Debug, PartialEq, Eq)]
pub enum DbErr {
    /// A persisted scalar that no variant of the enumeration encodes to.
    Type(String),
    /// A stored value that does not even hold the declared scalar type.
    ValueType,
}

/// The text of the error for a scalar that no variant encodes to.
pub open spec fn invalid_value_message(enum_name: Seq<char>, value: Seq<char>) -> Seq<char> {
    "unexpected value for "@ + enum_name + " enum: "@ + value
}

/// Builds the error for a scalar, rendered as `value`, that no variant of the
/// enumeration named `enum_name` encodes to.
pub fn invalid_value(enum_name: &str, value: &str) -> (r: DbErr)
    ensures
        r matches DbErr::Type(m) && m@ == invalid_value_message(enum_name@, value@),
{
    let mut m = String::from_str("unexpected value for ");
    m.append(enum_name);
    m.append(" enum: ");
    m.append(value);
    DbErr::Type(m)
}

impl DbErr {
    /// The message carried by the error.
    pub fn message(&self) -> (r: String)
        ensures
            self matches DbErr::Type(m) ==> r@ == m@,
            self is ValueType ==> r@ == "value type mismatch"@,
    {
        match self {
            DbErr::Type(m) => m.clone(),
            DbErr::ValueType => String::from_str("value type mismatch"),
        }
    }
}

} // verus!

use vstd::prelude::*;
use crate::column::ColumnDef;
use crate::error::{invalid_value, invalid_value_message, DbErr};
use crate::scalar::{Scalar, ScalarValue};

verus! {

/// The persisted forms of the variants of `E`, in declaration order.
pub open spec fn persisted_values<E: ActiveEnum>() -> Seq<Scalar> {
    E::spec_variants().map_values(|v: E| E::spec_value(v))
}

/// The first position in `values` that holds `s`, if any.
pub open spec fn first_index(values: Seq<Scalar>, s: Scalar) -> Option<int>
    decreases values.len(),
{
    if values.len() == 0 {
        None
    } else {
        match first_index(values.drop_last(), s) {
            Some(i) => Some(i),
            None => if values.last() == s {
                Some(values.len() - 1)
            } else {
                None
            },
        }
    }
}

/// `first_index` finds a position that holds `s`, before which none does, and
/// finds nothing exactly when `s` does not occur.
pub proof fn lemma_first_index(values: Seq<Scalar>, s: Scalar)
    ensures
        match first_index(values, s) {
            Some(i) => 0 <= i < values.len() && values[i] == s && forall|j: int|
                0 <= j < i ==> values[j] != s,
            None => !values.contains(s),
        },
    decreases values.len(),
{
    if values.len() > 0 {
        let init = values.drop_last();
        lemma_first_index(init, s);
        assert forall|j: int| 0 <= j < init.len() implies init[j] == values[j] by {}
        if first_index(init, s) is None {
            assert forall|j: int| 0 <= j < init.len() implies values[j] != s by {
                if values[j] == s {
                    assert(init.contains(s));
                }
            }
            if values.last() != s {
                assert forall|j: int| 0 <= j < values.len() implies values[j] != s by {}
            }
        }
    }
}

/// A match found in a prefix is the first match of the whole sequence.
pub proof fn lemma_first_index_prefix(values: Seq<Scalar>, s: Scalar, k: int)
    requires
        0 <= k <= values.len(),
        first_index(values.take(k), s) is Some,
    ensures
        first_index(values, s) == first_index(values.take(k), s),
    decreases values.len(),
{
    if k == values.len() {
        assert(values.take(k) =~= values);
    } else {
        let init = values.drop_last();
        assert(init.take(k) =~= values.take(k));
        lemma_first_index_prefix(init, s, k);
    }
}

/// The variant that a persisted scalar stands for: the first variant, in
/// declaration order, whose persisted form is `s`.
pub open spec fn spec_decode<E: ActiveEnum>(s: Scalar) -> Option<E> {
    match first_index(persisted_values::<E>(), s) {
        Some(i) => Some(E::spec_variants()[i]),
        None => None,
    }
}

/// The table of `E` is a bijection between its variants and their persisted
/// forms: every variant is listed exactly once and no two share a scalar.
pub open spec fn table_is_bijection<E: ActiveEnum>() -> bool {
    &&& forall|v: E| #[trigger] E::spec_variants().contains(v)
    &&& E::spec_variants().no_duplicates()
    &&& persisted_values::<E>().no_duplicates()
}

/// A Rust enum whose variants are stored in a column as scalar values.
pub trait ActiveEnum: Sized {
    /// The Rust type of the persisted form of a variant.
    type Value: ScalarValue;

    /// The logical name of the enumeration.
    spec fn spec_name() -> Seq<char>;

    /// All variants, in declaration order.
    spec fn spec_variants() -> Seq<Self>;

    /// The persisted form of a variant.
    spec fn spec_value(v: Self) -> Scalar;

    /// The definition of the column that stores the enumeration.
    spec fn spec_db_type() -> ColumnDef;

    /// Every implementation states a bijective table.
    proof fn lemma_table()
        ensures
            forall|v: Self| #[trigger] Self::spec_variants().contains(v),
            Self::spec_variants().no_duplicates(),
            Self::spec_variants().map_values(|v: Self| Self::spec_value(v)).no_duplicates(),
    ;

    /// Get the name of the enum.
    fn name() -> (r: String)
        ensures
            r@ == Self::spec_name(),
    ;

    /// All variants, in declaration order.
    fn iter() -> (r: Vec<Self>)
        ensures
            r@ == Self::spec_variants(),
    ;

    /// Convert an enum variant into the corresponding value.
    fn to_value(&self) -> (r: Self::Value)
        ensures
            r.model() == Self::spec_value(*self),
    ;

    /// Get the definition of the column that stores this enum.
    fn db_type() -> (r: ColumnDef)
        ensures
            r == Self::spec_db_type(),
    ;

    /// Convert an owned enum variant into the corresponding value.
    fn into_value(self) -> (r: Self::Value)
        ensures
            r.model() == Self::spec_value(self),
    {
        self.to_value()
    }

    /// The persisted forms of all variants, in declaration order.
    fn values() -> (r: Vec<Self::Value>)
        ensures
            r@.map_values(|x: Self::Value| x.model()) == Self::spec_variants().map_values(
                |v: Self| Self::spec_value(v),
            ),
    {
        let vars = Self::iter();
        let mut out: Vec<Self::Value> = Vec::new();
        let mut i: usize = 0;
        while i < vars.len()
            invariant
                vars@ == Self::spec_variants(),
                i <= vars@.len(),
                out@.len() == i,
                forall|k: int| 0 <= k < i ==> #[trigger] out@[k].model() == Self::spec_value(vars@[k]),
            decreases vars@.len() - i,
        {
            out.push(vars[i].to_value());
            i = i + 1;
        }
        assert(out@.map_values(|x: Self::Value| x.model()) =~= Self::spec_variants().map_values(
            |v: Self| Self::spec_value(v),
        ));
        out
    }

    /// The persisted form of the variant in the storage layer's representation.
    fn to_db_value(&self) -> (r: sea_query::Value)
        ensures
            <Self::Value as ScalarValue>::db_model(r) == Some(Self::spec_value(*self)),
    {
        self.to_value().into_db_value()
    }

    /// Reads a variant back from a stored value. A value that does not hold the
    /// scalar type fails with `DbErr::ValueType`; otherwise the scalar it holds
    /// is decoded as `try_from_value` does.
    fn try_from_db_value(v: sea_query::Value) -> (r: Result<Self, DbErr>)
        ensures
            match <Self::Value as ScalarValue>::db_model(v) {
                None => r == Err::<Self, DbErr>(DbErr::ValueType),
                Some(s) => match first_index(
                    Self::spec_variants().map_values(|x: Self| Self::spec_value(x)),
                    s,
                ) {
                    Some(i) => r == Ok::<Self, DbErr>(Self::spec_variants()[i]),
                    None => r matches Err(DbErr::Type(m)) && m@ == invalid_value_message(
                        Self::spec_name(),
                        s.rendered(),
                    ),
                },
            },
    {
        match Self::Value::from_db_value(v) {
            Ok(scalar) => Self::try_from_value(&scalar),
            Err(_) => Err(DbErr::ValueType),
        }
    }

    /// Try to convert a persisted value into the enum variant it stands for.
    ///
    /// The variants are searched in declaration order and the first whose
    /// persisted form equals `v` is returned (this is `spec_decode`); when none
    /// does, the error names the enumeration and shows the value.
    fn try_from_value(v: &Self::Value) -> (r: Result<Self, DbErr>)
        ensures
            match first_index(
                Self::spec_variants().map_values(|x: Self| Self::spec_value(x)),
                v.model(),
            ) {
                Some(i) => r == Ok::<Self, DbErr>(Self::spec_variants()[i]),
                None => r matches Err(DbErr::Type(m)) && m@ == invalid_value_message(
                    Self::spec_name(),
                    v.model().rendered(),
                ),
            },
    {
        let mut vars = Self::iter();
        let ghost values = Self::spec_variants().map_values(|x: Self| Self::spec_value(x));
        let mut i: usize = 0;
        while i < vars.len()
            invariant
                vars@ == Self::spec_variants(),
                values == Self::spec_variants().map_values(|x: Self| Self::spec_value(x)),
                i <= vars@.len(),
                first_index(values.take(i as int), v.model()) is None,
            decreases vars@.len() - i,
        {
            let found = vars[i].to_value().same_as(v);
            proof {
                assert(values.take(i + 1).drop_last() =~= values.take(i as int));
            }
            if found {
                proof {
                    lemma_first_index(values.take(i as int), v.model());
                    assert(values.take(i + 1).last() == values[i as int]);
                    lemma_first_index_prefix(values, v.model(), i + 1);
                }
                return Ok(vars.swap_remove(i));
            }
            i = i + 1;
        }
        assert(values.take(i as int) =~= values);
        proof {
            lemma_first_index(values, v.model());
        }
        let name = Self::name();
        let shown = v.render();
        Err(invalid_value(name.as_str(), shown.as_str()))
    }
}

} // verus!

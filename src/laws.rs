use vstd::prelude::*;
use crate::active_enum::{
    first_index, lemma_first_index, persisted_values, spec_decode, table_is_bijection, ActiveEnum,
};
use crate::error::invalid_value_message;
use crate::scalar::{Scalar, ScalarValue};

verus! {

proof fn lemma_bijection<E: ActiveEnum>()
    ensures
        table_is_bijection::<E>(),
{
    E::lemma_table();
    assert(persisted_values::<E>() == E::spec_variants().map_values(|v: E| E::spec_value(v)));
}

/// Decoding the persisted form of any variant gives that variant back.
pub proof fn lemma_round_trip<E: ActiveEnum>(v: E)
    ensures
        spec_decode::<E>(E::spec_value(v)) == Some(v),
{
    lemma_bijection::<E>();
    let vars = E::spec_variants();
    let values = persisted_values::<E>();
    assert(vars.contains(v));
    let k = choose|k: int| 0 <= k < vars.len() && vars[k] == v;
    assert(values[k] == E::spec_value(v));
    lemma_first_index(values, E::spec_value(v));
    let i = first_index(values, E::spec_value(v))->Some_0;
    assert(values[i] == values[k]);
}

/// A variant written to the storage layer and read back as the scalar type
/// decodes to itself.
pub proof fn lemma_storage_round_trip<E: ActiveEnum>(v: E, stored: sea_query::Value)
    requires
        <E::Value as ScalarValue>::db_model(stored) == Some(E::spec_value(v)),
    ensures
        <E::Value as ScalarValue>::db_model(stored) matches Some(s) && spec_decode::<E>(s) == Some(
            v,
        ),
{
    lemma_round_trip::<E>(v);
}

/// Two different variants never share a persisted form.
pub proof fn lemma_injective<E: ActiveEnum>(v1: E, v2: E)
    requires
        v1 != v2,
    ensures
        E::spec_value(v1) != E::spec_value(v2),
{
    lemma_round_trip::<E>(v1);
    lemma_round_trip::<E>(v2);
}

/// A scalar decodes exactly when it is the persisted form of some variant, and
/// then to a variant whose persisted form it is; every other scalar is rejected.
pub proof fn lemma_decode_exact<E: ActiveEnum>(s: Scalar)
    ensures
        spec_decode::<E>(s) is Some <==> persisted_values::<E>().contains(s),
        spec_decode::<E>(s) matches Some(x) ==> E::spec_value(x) == s,
{
    lemma_first_index(persisted_values::<E>(), s);
}

/// Two implementations that declare the same name, column and persisted values
/// in the same order decode every scalar to the variant at the same position,
/// reject the same scalars, and reject them with the same message.
pub proof fn lemma_same_declaration<E1: ActiveEnum, E2: ActiveEnum>(s: Scalar)
    requires
        E1::spec_name() == E2::spec_name(),
        E1::spec_db_type() == E2::spec_db_type(),
        persisted_values::<E1>() == persisted_values::<E2>(),
    ensures
        E1::spec_variants().len() == E2::spec_variants().len(),
        forall|i: int|
            0 <= i < E1::spec_variants().len() ==> (spec_decode::<E1>(s) == Some(
                E1::spec_variants()[i],
            ) <==> spec_decode::<E2>(s) == Some(E2::spec_variants()[i])),
        spec_decode::<E1>(s) is None <==> spec_decode::<E2>(s) is None,
        invalid_value_message(E1::spec_name(), s.rendered()) == invalid_value_message(
            E2::spec_name(),
            s.rendered(),
        ),
{
    lemma_bijection::<E1>();
    lemma_bijection::<E2>();
    let values = persisted_values::<E1>();
    assert(values.len() == E1::spec_variants().len());
    assert(persisted_values::<E2>().len() == E2::spec_variants().len());
    lemma_first_index(values, s);
    let vars1 = E1::spec_variants();
    let vars2 = E2::spec_variants();
    assert forall|i: int| 0 <= i < vars1.len() implies (spec_decode::<E1>(s) == Some(vars1[i])
        <==> spec_decode::<E2>(s) == Some(vars2[i])) by {
        if let Some(f) = first_index(values, s) {
            if spec_decode::<E1>(s) == Some(vars1[i]) {
                assert(vars1[f] == vars1[i]);
            }
            if spec_decode::<E2>(s) == Some(vars2[i]) {
                assert(vars2[f] == vars2[i]);
            }
        }
    }
}

} // verus!

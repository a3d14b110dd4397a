use active_enum::discriminant::resolve_discriminants;
use active_enum::error::invalid_value;
use active_enum::samples::{
    BigLevel, BigUnsignedLevel, Category, FallbackLevel, MidUnsignedLevel, SignedLevel,
    SmallLevel, SmallUnsignedLevel, TinyLevel, UnsignedLevel,
};
use active_enum::{ActiveEnum, ColumnType, DbErr, ScalarValue};

#[test]
fn active_enum_string() {
    assert_eq!(Category::Big.to_value(), "B".to_owned());
    assert_eq!(Category::Small.to_value(), "S".to_owned());

    assert_eq!(
        Category::try_from_value(&"A".to_owned()).err(),
        Some(DbErr::Type("unexpected value for category enum: A".to_owned()))
    );
    assert_eq!(
        Category::try_from_value(&"B".to_owned()).ok(),
        Some(Category::Big)
    );
    assert_eq!(
        Category::try_from_value(&"S".to_owned()).ok(),
        Some(Category::Small)
    );

    assert_eq!(Category::db_type(), ColumnType::String(Some(1)).def());
    assert_eq!(Category::name(), "category".to_owned());
    assert_eq!(Category::values(), vec!["B".to_owned(), "S".to_owned()]);
}

fn check_signed<E>(negative: E, big: E, small: E, name: &str, col: ColumnType)
where
    E: ActiveEnum + std::fmt::Debug + PartialEq + Clone,
    E::Value: From<i8> + PartialEq + std::fmt::Debug,
{
    assert_eq!(big.to_value(), E::Value::from(1));
    assert_eq!(small.to_value(), E::Value::from(0));
    assert_eq!(negative.to_value(), E::Value::from(-10));

    assert_eq!(E::try_from_value(&E::Value::from(1)).ok(), Some(big));
    assert_eq!(E::try_from_value(&E::Value::from(0)).ok(), Some(small));
    assert_eq!(E::try_from_value(&E::Value::from(-10)).ok(), Some(negative));
    assert_eq!(
        E::try_from_value(&E::Value::from(2)).err(),
        Some(DbErr::Type(format!("unexpected value for {} enum: 2", name)))
    );

    assert_eq!(E::db_type(), col.def());
}

fn check_unsigned<E>(big: E, small: E, name: &str, col: ColumnType)
where
    E: ActiveEnum + std::fmt::Debug + PartialEq,
    E::Value: From<u8> + PartialEq + std::fmt::Debug,
{
    assert_eq!(big.to_value(), E::Value::from(1));
    assert_eq!(small.to_value(), E::Value::from(0));

    assert_eq!(E::try_from_value(&E::Value::from(1)).ok(), Some(big));
    assert_eq!(E::try_from_value(&E::Value::from(0)).ok(), Some(small));
    assert_eq!(
        E::try_from_value(&E::Value::from(2)).err(),
        Some(DbErr::Type(format!("unexpected value for {} enum: 2", name)))
    );

    assert_eq!(E::db_type(), col.def());
}

#[test]
fn active_enum_derive_signed_integers() {
    check_signed(
        TinyLevel::Negative,
        TinyLevel::Big,
        TinyLevel::Small,
        "TinyLevel",
        ColumnType::TinyInteger,
    );
    check_signed(
        SmallLevel::Negative,
        SmallLevel::Big,
        SmallLevel::Small,
        "SmallLevel",
        ColumnType::SmallInteger,
    );
    check_signed(
        SignedLevel::Negative,
        SignedLevel::Big,
        SignedLevel::Small,
        "SignedLevel",
        ColumnType::Integer,
    );
    check_signed(
        BigLevel::Negative,
        BigLevel::Big,
        BigLevel::Small,
        "BigLevel",
        ColumnType::BigInteger,
    );
    check_signed(
        FallbackLevel::Negative,
        FallbackLevel::Big,
        FallbackLevel::Small,
        "FallbackLevel",
        ColumnType::Integer,
    );
}

#[test]
fn active_enum_derive_unsigned_integers() {
    check_unsigned(
        UnsignedLevel::Big,
        UnsignedLevel::Small,
        "UnsignedLevel",
        ColumnType::TinyInteger,
    );
    check_unsigned(
        SmallUnsignedLevel::Big,
        SmallUnsignedLevel::Small,
        "SmallUnsignedLevel",
        ColumnType::SmallInteger,
    );
    check_unsigned(
        MidUnsignedLevel::Big,
        MidUnsignedLevel::Small,
        "MidUnsignedLevel",
        ColumnType::Integer,
    );
    check_unsigned(
        BigUnsignedLevel::Big,
        BigUnsignedLevel::Small,
        "BigUnsignedLevel",
        ColumnType::BigInteger,
    );
}

#[test]
fn fallback_table_is_resolved_from_declarations() {
    let resolved = resolve_discriminants(&FallbackLevel::declarations()).unwrap();
    assert_eq!(resolved, vec![0, 1, -10]);
    let stored: Vec<i64> = FallbackLevel::values().into_iter().map(i64::from).collect();
    assert_eq!(stored, resolved);
}

#[test]
fn fallback_table_behaves_like_declared_table() {
    let pairs = [
        (FallbackLevel::Small, SignedLevel::Small),
        (FallbackLevel::Big, SignedLevel::Big),
        (FallbackLevel::Negative, SignedLevel::Negative),
    ];
    for (f, e) in pairs {
        assert_eq!(f.to_value(), e.to_value());
    }
    for n in [-11, -10, -1, 0, 1, 2, 3] {
        assert_eq!(
            FallbackLevel::try_from_value(&n).is_ok(),
            SignedLevel::try_from_value(&n).is_ok()
        );
    }
    assert_eq!(FallbackLevel::db_type(), SignedLevel::db_type());
}

#[test]
fn round_trip_of_every_variant() {
    for v in Category::iter() {
        assert_eq!(Category::try_from_value(&v.to_value()), Ok(v));
    }
    for v in SignedLevel::iter() {
        assert_eq!(SignedLevel::try_from_value(&v.into_value()), Ok(v));
    }
    for v in UnsignedLevel::iter() {
        assert_eq!(UnsignedLevel::try_from_value(&v.to_value()), Ok(v));
    }
}

#[test]
fn distinct_variants_have_distinct_values() {
    let vars = SignedLevel::iter();
    for (i, a) in vars.iter().enumerate() {
        for (j, b) in vars.iter().enumerate() {
            if i != j {
                assert_ne!(a.to_value(), b.to_value());
            }
        }
    }
    assert_ne!(Category::Big.to_value(), Category::Small.to_value());
}

#[test]
fn rejection_names_the_enum_and_the_value() {
    assert_eq!(
        Category::try_from_value(&"".to_owned()),
        Err(DbErr::Type("unexpected value for category enum: ".to_owned()))
    );
    assert_eq!(
        Category::try_from_value(&"b".to_owned()),
        Err(DbErr::Type("unexpected value for category enum: b".to_owned()))
    );
    assert_eq!(
        SignedLevel::try_from_value(&-3),
        Err(DbErr::Type("unexpected value for SignedLevel enum: -3".to_owned()))
    );
    assert_eq!(
        SignedLevel::try_from_value(&i32::MIN),
        Err(DbErr::Type(
            "unexpected value for SignedLevel enum: -2147483648".to_owned()
        ))
    );
    assert_eq!(
        UnsignedLevel::try_from_value(&255),
        Err(DbErr::Type("unexpected value for UnsignedLevel enum: 255".to_owned()))
    );
    let e = UnsignedLevel::try_from_value(&10).unwrap_err();
    assert_eq!(e.message(), "unexpected value for UnsignedLevel enum: 10".to_owned());
}

#[test]
fn same_declaration_gives_same_metadata() {
    assert_eq!(Category::name(), Category::name());
    assert_eq!(Category::db_type(), Category::db_type());
    assert_eq!(Category::values(), Category::values());
    assert_eq!(SignedLevel::values(), vec![-10, 1, 0]);
    assert_eq!(UnsignedLevel::values(), vec![1u8, 0u8]);
}

#[test]
fn enumeration_is_repeatable_and_ordered() {
    assert_eq!(Category::iter(), Category::iter());
    assert_eq!(Category::iter(), vec![Category::Big, Category::Small]);
    assert_eq!(
        SignedLevel::iter(),
        vec![SignedLevel::Negative, SignedLevel::Big, SignedLevel::Small]
    );
}

#[test]
fn implicit_values_resolve_like_explicit_ones() {
    assert_eq!(
        resolve_discriminants(&vec![Some(1), Some(0), Some(-10)]),
        Some(vec![1, 0, -10])
    );
    assert_eq!(
        resolve_discriminants(&vec![Some(-10), Some(1), None]),
        Some(vec![-10, 1, 2])
    );
    let explicit: Vec<i64> = SignedLevel::values().into_iter().map(i64::from).collect();
    assert_eq!(
        resolve_discriminants(&vec![Some(-10), Some(1), Some(0)]),
        Some(explicit)
    );
}

#[test]
fn implicit_values_count_from_zero() {
    assert_eq!(resolve_discriminants(&vec![]), Some(vec![]));
    assert_eq!(resolve_discriminants(&vec![None, None]), Some(vec![0, 1]));
    assert_eq!(
        resolve_discriminants(&vec![Some(5), None, Some(-2), None]),
        Some(vec![5, 6, -2, -1])
    );
}

#[test]
fn implicit_value_past_the_largest_integer_fails() {
    assert_eq!(resolve_discriminants(&vec![Some(i64::MAX), None]), None);
    assert_eq!(
        resolve_discriminants(&vec![Some(i64::MAX - 1), None]),
        Some(vec![i64::MAX - 1, i64::MAX])
    );
}

#[test]
fn scalars_render_in_decimal() {
    assert_eq!(0u8.render(), "0".to_owned());
    assert_eq!(i64::MIN.render(), "-9223372036854775808".to_owned());
    assert_eq!(u64::MAX.render(), "18446744073709551615".to_owned());
    assert_eq!((-7i8).render(), "-7".to_owned());
    assert_eq!(1200u16.render(), "1200".to_owned());
    assert_eq!("x y".to_owned().render(), "x y".to_owned());
    assert!(5u32.same_as(&5));
    assert!(!"a".to_owned().same_as(&"b".to_owned()));
}

#[test]
fn invalid_value_message_text() {
    assert_eq!(
        invalid_value("category", "A"),
        DbErr::Type("unexpected value for category enum: A".to_owned())
    );
    assert_eq!(DbErr::ValueType.message(), "value type mismatch".to_owned());
}

#[test]
fn column_definition_has_no_constraints() {
    let d = ColumnType::BigInteger.def();
    assert_eq!(d.col_type, ColumnType::BigInteger);
    assert!(!d.null && !d.unique && !d.indexed);
}

#[test]
fn stored_values_convert_through_the_storage_layer() {
    assert_eq!(
        Category::Big.to_db_value(),
        sea_query::Value::String(Some("B".to_owned()))
    );
    assert_eq!(SignedLevel::Negative.to_db_value(), sea_query::Value::Int(Some(-10)));
    assert_eq!(
        UnsignedLevel::Small.to_db_value(),
        sea_query::Value::TinyUnsigned(Some(0))
    );
    assert_eq!(
        Category::try_from_db_value(sea_query::Value::String(Some("S".to_owned()))),
        Ok(Category::Small)
    );
    assert_eq!(
        SignedLevel::try_from_db_value(sea_query::Value::Int(Some(-10))),
        Ok(SignedLevel::Negative)
    );
    assert_eq!(
        SignedLevel::try_from_db_value(sea_query::Value::Int(Some(7))),
        Err(DbErr::Type("unexpected value for SignedLevel enum: 7".to_owned()))
    );
}

#[test]
fn stored_value_of_another_type_is_a_type_mismatch() {
    assert_eq!(
        Category::try_from_db_value(sea_query::Value::Int(Some(1))),
        Err(DbErr::ValueType)
    );
    assert_eq!(
        SignedLevel::try_from_db_value(sea_query::Value::BigInt(Some(1))),
        Err(DbErr::ValueType)
    );
    assert_eq!(
        UnsignedLevel::try_from_db_value(sea_query::Value::TinyUnsigned(None)),
        Err(DbErr::ValueType)
    );
}

#[test]
fn every_width_converts_through_the_storage_layer() {
    assert_eq!(TinyLevel::Negative.to_db_value(), sea_query::Value::TinyInt(Some(-10)));
    assert_eq!(SmallLevel::Big.to_db_value(), sea_query::Value::SmallInt(Some(1)));
    assert_eq!(BigLevel::Small.to_db_value(), sea_query::Value::BigInt(Some(0)));
    assert_eq!(
        SmallUnsignedLevel::Big.to_db_value(),
        sea_query::Value::SmallUnsigned(Some(1))
    );
    assert_eq!(MidUnsignedLevel::Small.to_db_value(), sea_query::Value::Unsigned(Some(0)));
    assert_eq!(
        BigUnsignedLevel::Big.to_db_value(),
        sea_query::Value::BigUnsigned(Some(1))
    );
    for v in BigLevel::iter() {
        assert_eq!(BigLevel::try_from_db_value(v.to_db_value()), Ok(v));
    }
    for v in MidUnsignedLevel::iter() {
        assert_eq!(MidUnsignedLevel::try_from_db_value(v.to_db_value()), Ok(v));
    }
    assert_eq!(
        TinyLevel::try_from_db_value(sea_query::Value::TinyInt(Some(5))),
        Err(DbErr::Type("unexpected value for TinyLevel enum: 5".to_owned()))
    );
}

#[test]
fn stored_null_is_a_type_mismatch() {
    assert_eq!(
        SignedLevel::try_from_db_value(sea_query::Value::Int(None)),
        Err(DbErr::ValueType)
    );
    assert_eq!(
        Category::try_from_db_value(sea_query::Value::String(None)),
        Err(DbErr::ValueType)
    );
}

//! Ready-made enumerations, one per kind of persisted scalar.
use vstd::prelude::*;
use crate::active_enum::{persisted_values, spec_decode, ActiveEnum};
use crate::laws::lemma_decode_exact;
use crate::column::{ColumnDef, ColumnType};
use crate::discriminant::resolved;
use crate::scalar::{Scalar, ScalarValue};

verus! {

/// A size category stored as a one-character string.
#[derive(Debug, Clone, Copy, PartialEq, Eq, Structural)]
pub enum Category {
    Big,
    Small,
}

impl ActiveEnum for Category {
    type Value = String;

    open spec fn spec_name() -> Seq<char> {
        "category"@
    }

    open spec fn spec_variants() -> Seq<Self> {
        seq![Category::Big, Category::Small]
    }

    open spec fn spec_value(v: Self) -> Scalar {
        match v {
            Category::Big => Scalar::Text("B"@),
            Category::Small => Scalar::Text("S"@),
        }
    }

    open spec fn spec_db_type() -> ColumnDef {
        ColumnType::String(Some(1)).spec_def()
    }

    proof fn lemma_table() {
        reveal_strlit("B");
        reveal_strlit("S");
        let vars = Self::spec_variants();
        assert(vars[0] == Category::Big && vars[1] == Category::Small);
        assert forall|v: Self| #[trigger] vars.contains(v) by {
            match v {
                Category::Big => assert(vars[0] == v),
                Category::Small => assert(vars[1] == v),
            }
        }
        assert("B"@[0] != "S"@[0]);
    }

    fn name() -> (r: String) {
        String::from_str("category")
    }

    fn iter() -> (r: Vec<Self>) {
        let r = vec![Category::Big, Category::Small];
        assert(r@ =~= Self::spec_variants());
        r
    }

    fn to_value(&self) -> (r: String) {
        let r = match self {
            Category::Big => String::from_str("B"),
            Category::Small => String::from_str("S"),
        };
        assert(r.model() == Scalar::Text(r@));
        r
    }

    fn db_type() -> (r: ColumnDef) {
        ColumnType::String(Some(1)).def()
    }
}


/// A level stored as a signed 32-bit integer, with a negative member.
#[derive(Debug, Clone, Copy, PartialEq, Eq, Structural)]
pub enum SignedLevel {
    Negative,
    Big,
    Small,
}

impl ActiveEnum for SignedLevel {
    type Value = i32;

    open spec fn spec_name() -> Seq<char> {
        "SignedLevel"@
    }

    open spec fn spec_variants() -> Seq<Self> {
        seq![SignedLevel::Negative, SignedLevel::Big, SignedLevel::Small]
    }

    open spec fn spec_value(v: Self) -> Scalar {
        match v {
            SignedLevel::Negative => Scalar::Int(-10),
            SignedLevel::Big => Scalar::Int(1),
            SignedLevel::Small => Scalar::Int(0),
        }
    }

    open spec fn spec_db_type() -> ColumnDef {
        ColumnType::Integer.spec_def()
    }

    proof fn lemma_table() {
        let vars = Self::spec_variants();
        assert(vars[0] == SignedLevel::Negative && vars[1] == SignedLevel::Big && vars[2]
            == SignedLevel::Small);
        assert forall|v: Self| #[trigger] vars.contains(v) by {
            match v {
                SignedLevel::Negative => assert(vars[0] == v),
                SignedLevel::Big => assert(vars[1] == v),
                SignedLevel::Small => assert(vars[2] == v),
            }
        }
    }

    fn name() -> (r: String) {
        String::from_str("SignedLevel")
    }

    fn iter() -> (r: Vec<Self>) {
        let r = vec![SignedLevel::Negative, SignedLevel::Big, SignedLevel::Small];
        assert(r@ =~= Self::spec_variants());
        r
    }

    fn to_value(&self) -> (r: i32) {
        let r: i32 = match self {
            SignedLevel::Negative => -10,
            SignedLevel::Big => 1,
            SignedLevel::Small => 0,
        };
        assert(r.model() == Scalar::Int(r as int));
        r
    }

    fn db_type() -> (r: ColumnDef) {
        ColumnType::Integer.def()
    }
}

/// A level stored as an unsigned 8-bit integer.
#[derive(Debug, Clone, Copy, PartialEq, Eq, Structural)]
pub enum UnsignedLevel {
    Big,
    Small,
}

impl ActiveEnum for UnsignedLevel {
    type Value = u8;

    open spec fn spec_name() -> Seq<char> {
        "UnsignedLevel"@
    }

    open spec fn spec_variants() -> Seq<Self> {
        seq![UnsignedLevel::Big, UnsignedLevel::Small]
    }

    open spec fn spec_value(v: Self) -> Scalar {
        match v {
            UnsignedLevel::Big => Scalar::Int(1),
            UnsignedLevel::Small => Scalar::Int(0),
        }
    }

    open spec fn spec_db_type() -> ColumnDef {
        ColumnType::TinyInteger.spec_def()
    }

    proof fn lemma_table() {
        let vars = Self::spec_variants();
        assert(vars[0] == UnsignedLevel::Big && vars[1] == UnsignedLevel::Small);
        assert forall|v: Self| #[trigger] vars.contains(v) by {
            match v {
                UnsignedLevel::Big => assert(vars[0] == v),
                UnsignedLevel::Small => assert(vars[1] == v),
            }
        }
    }

    fn name() -> (r: String) {
        String::from_str("UnsignedLevel")
    }

    fn iter() -> (r: Vec<Self>) {
        let r = vec![UnsignedLevel::Big, UnsignedLevel::Small];
        assert(r@ =~= Self::spec_variants());
        r
    }

    fn to_value(&self) -> (r: u8) {
        let r: u8 = match self {
            UnsignedLevel::Big => 1,
            UnsignedLevel::Small => 0,
        };
        assert(r.model() == Scalar::Int(r as int));
        r
    }

    fn db_type() -> (r: ColumnDef) {
        ColumnType::TinyInteger.def()
    }
}


/// A level stored as a signed 8-bit integer, with a negative member.
#[derive(Debug, Clone, Copy, PartialEq, Eq, Structural)]
pub enum TinyLevel {
    Negative,
    Big,
    Small,
}

impl ActiveEnum for TinyLevel {
    type Value = i8;

    open spec fn spec_name() -> Seq<char> {
        "TinyLevel"@
    }

    open spec fn spec_variants() -> Seq<Self> {
        seq![TinyLevel::Negative, TinyLevel::Big, TinyLevel::Small]
    }

    open spec fn spec_value(v: Self) -> Scalar {
        match v {
            TinyLevel::Negative => Scalar::Int(-10),
            TinyLevel::Big => Scalar::Int(1),
            TinyLevel::Small => Scalar::Int(0),
        }
    }

    open spec fn spec_db_type() -> ColumnDef {
        ColumnType::TinyInteger.spec_def()
    }

    proof fn lemma_table() {
        let vars = Self::spec_variants();
        assert(vars[0] == TinyLevel::Negative && vars[1] == TinyLevel::Big && vars[2] == TinyLevel::Small);
        assert forall|v: Self| #[trigger] vars.contains(v) by {
            match v {
                TinyLevel::Negative => assert(vars[0] == v),
                TinyLevel::Big => assert(vars[1] == v),
                TinyLevel::Small => assert(vars[2] == v),
            }
        }
    }

    fn name() -> (r: String) {
        String::from_str("TinyLevel")
    }

    fn iter() -> (r: Vec<Self>) {
        let r = vec![TinyLevel::Negative, TinyLevel::Big, TinyLevel::Small];
        assert(r@ =~= Self::spec_variants());
        r
    }

    fn to_value(&self) -> (r: i8) {
        let r: i8 = match self {
            TinyLevel::Negative => -10,
            TinyLevel::Big => 1,
            TinyLevel::Small => 0,
        };
        assert(r.model() == Scalar::Int(r as int));
        r
    }

    fn db_type() -> (r: ColumnDef) {
        ColumnType::TinyInteger.def()
    }
}

/// A level stored as a signed 16-bit integer, with a negative member.
#[derive(Debug, Clone, Copy, PartialEq, Eq, Structural)]
pub enum SmallLevel {
    Negative,
    Big,
    Small,
}

impl ActiveEnum for SmallLevel {
    type Value = i16;

    open spec fn spec_name() -> Seq<char> {
        "SmallLevel"@
    }

    open spec fn spec_variants() -> Seq<Self> {
        seq![SmallLevel::Negative, SmallLevel::Big, SmallLevel::Small]
    }

    open spec fn spec_value(v: Self) -> Scalar {
        match v {
            SmallLevel::Negative => Scalar::Int(-10),
            SmallLevel::Big => Scalar::Int(1),
            SmallLevel::Small => Scalar::Int(0),
        }
    }

    open spec fn spec_db_type() -> ColumnDef {
        ColumnType::SmallInteger.spec_def()
    }

    proof fn lemma_table() {
        let vars = Self::spec_variants();
        assert(vars[0] == SmallLevel::Negative && vars[1] == SmallLevel::Big && vars[2] == SmallLevel::Small);
        assert forall|v: Self| #[trigger] vars.contains(v) by {
            match v {
                SmallLevel::Negative => assert(vars[0] == v),
                SmallLevel::Big => assert(vars[1] == v),
                SmallLevel::Small => assert(vars[2] == v),
            }
        }
    }

    fn name() -> (r: String) {
        String::from_str("SmallLevel")
    }

    fn iter() -> (r: Vec<Self>) {
        let r = vec![SmallLevel::Negative, SmallLevel::Big, SmallLevel::Small];
        assert(r@ =~= Self::spec_variants());
        r
    }

    fn to_value(&self) -> (r: i16) {
        let r: i16 = match self {
            SmallLevel::Negative => -10,
            SmallLevel::Big => 1,
            SmallLevel::Small => 0,
        };
        assert(r.model() == Scalar::Int(r as int));
        r
    }

    fn db_type() -> (r: ColumnDef) {
        ColumnType::SmallInteger.def()
    }
}

/// A level stored as a signed 64-bit integer, with a negative member.
#[derive(Debug, Clone, Copy, PartialEq, Eq, Structural)]
pub enum BigLevel {
    Negative,
    Big,
    Small,
}

impl ActiveEnum for BigLevel {
    type Value = i64;

    open spec fn spec_name() -> Seq<char> {
        "BigLevel"@
    }

    open spec fn spec_variants() -> Seq<Self> {
        seq![BigLevel::Negative, BigLevel::Big, BigLevel::Small]
    }

    open spec fn spec_value(v: Self) -> Scalar {
        match v {
            BigLevel::Negative => Scalar::Int(-10),
            BigLevel::Big => Scalar::Int(1),
            BigLevel::Small => Scalar::Int(0),
        }
    }

    open spec fn spec_db_type() -> ColumnDef {
        ColumnType::BigInteger.spec_def()
    }

    proof fn lemma_table() {
        let vars = Self::spec_variants();
        assert(vars[0] == BigLevel::Negative && vars[1] == BigLevel::Big && vars[2] == BigLevel::Small);
        assert forall|v: Self| #[trigger] vars.contains(v) by {
            match v {
                BigLevel::Negative => assert(vars[0] == v),
                BigLevel::Big => assert(vars[1] == v),
                BigLevel::Small => assert(vars[2] == v),
            }
        }
    }

    fn name() -> (r: String) {
        String::from_str("BigLevel")
    }

    fn iter() -> (r: Vec<Self>) {
        let r = vec![BigLevel::Negative, BigLevel::Big, BigLevel::Small];
        assert(r@ =~= Self::spec_variants());
        r
    }

    fn to_value(&self) -> (r: i64) {
        let r: i64 = match self {
            BigLevel::Negative => -10,
            BigLevel::Big => 1,
            BigLevel::Small => 0,
        };
        assert(r.model() == Scalar::Int(r as int));
        r
    }

    fn db_type() -> (r: ColumnDef) {
        ColumnType::BigInteger.def()
    }
}

/// A level stored as an unsigned 16-bit integer.
#[derive(Debug, Clone, Copy, PartialEq, Eq, Structural)]
pub enum SmallUnsignedLevel {
    Big,
    Small,
}

impl ActiveEnum for SmallUnsignedLevel {
    type Value = u16;

    open spec fn spec_name() -> Seq<char> {
        "SmallUnsignedLevel"@
    }

    open spec fn spec_variants() -> Seq<Self> {
        seq![SmallUnsignedLevel::Big, SmallUnsignedLevel::Small]
    }

    open spec fn spec_value(v: Self) -> Scalar {
        match v {
            SmallUnsignedLevel::Big => Scalar::Int(1),
            SmallUnsignedLevel::Small => Scalar::Int(0),
        }
    }

    open spec fn spec_db_type() -> ColumnDef {
        ColumnType::SmallInteger.spec_def()
    }

    proof fn lemma_table() {
        let vars = Self::spec_variants();
        assert(vars[0] == SmallUnsignedLevel::Big && vars[1] == SmallUnsignedLevel::Small);
        assert forall|v: Self| #[trigger] vars.contains(v) by {
            match v {
                SmallUnsignedLevel::Big => assert(vars[0] == v),
                SmallUnsignedLevel::Small => assert(vars[1] == v),
            }
        }
    }

    fn name() -> (r: String) {
        String::from_str("SmallUnsignedLevel")
    }

    fn iter() -> (r: Vec<Self>) {
        let r = vec![SmallUnsignedLevel::Big, SmallUnsignedLevel::Small];
        assert(r@ =~= Self::spec_variants());
        r
    }

    fn to_value(&self) -> (r: u16) {
        let r: u16 = match self {
            SmallUnsignedLevel::Big => 1,
            SmallUnsignedLevel::Small => 0,
        };
        assert(r.model() == Scalar::Int(r as int));
        r
    }

    fn db_type() -> (r: ColumnDef) {
        ColumnType::SmallInteger.def()
    }
}

/// A level stored as an unsigned 32-bit integer.
#[derive(Debug, Clone, Copy, PartialEq, Eq, Structural)]
pub enum MidUnsignedLevel {
    Big,
    Small,
}

impl ActiveEnum for MidUnsignedLevel {
    type Value = u32;

    open spec fn spec_name() -> Seq<char> {
        "MidUnsignedLevel"@
    }

    open spec fn spec_variants() -> Seq<Self> {
        seq![MidUnsignedLevel::Big, MidUnsignedLevel::Small]
    }

    open spec fn spec_value(v: Self) -> Scalar {
        match v {
            MidUnsignedLevel::Big => Scalar::Int(1),
            MidUnsignedLevel::Small => Scalar::Int(0),
        }
    }

    open spec fn spec_db_type() -> ColumnDef {
        ColumnType::Integer.spec_def()
    }

    proof fn lemma_table() {
        let vars = Self::spec_variants();
        assert(vars[0] == MidUnsignedLevel::Big && vars[1] == MidUnsignedLevel::Small);
        assert forall|v: Self| #[trigger] vars.contains(v) by {
            match v {
                MidUnsignedLevel::Big => assert(vars[0] == v),
                MidUnsignedLevel::Small => assert(vars[1] == v),
            }
        }
    }

    fn name() -> (r: String) {
        String::from_str("MidUnsignedLevel")
    }

    fn iter() -> (r: Vec<Self>) {
        let r = vec![MidUnsignedLevel::Big, MidUnsignedLevel::Small];
        assert(r@ =~= Self::spec_variants());
        r
    }

    fn to_value(&self) -> (r: u32) {
        let r: u32 = match self {
            MidUnsignedLevel::Big => 1,
            MidUnsignedLevel::Small => 0,
        };
        assert(r.model() == Scalar::Int(r as int));
        r
    }

    fn db_type() -> (r: ColumnDef) {
        ColumnType::Integer.def()
    }
}

/// A level stored as an unsigned 64-bit integer.
#[derive(Debug, Clone, Copy, PartialEq, Eq, Structural)]
pub enum BigUnsignedLevel {
    Big,
    Small,
}

impl ActiveEnum for BigUnsignedLevel {
    type Value = u64;

    open spec fn spec_name() -> Seq<char> {
        "BigUnsignedLevel"@
    }

    open spec fn spec_variants() -> Seq<Self> {
        seq![BigUnsignedLevel::Big, BigUnsignedLevel::Small]
    }

    open spec fn spec_value(v: Self) -> Scalar {
        match v {
            BigUnsignedLevel::Big => Scalar::Int(1),
            BigUnsignedLevel::Small => Scalar::Int(0),
        }
    }

    open spec fn spec_db_type() -> ColumnDef {
        ColumnType::BigInteger.spec_def()
    }

    proof fn lemma_table() {
        let vars = Self::spec_variants();
        assert(vars[0] == BigUnsignedLevel::Big && vars[1] == BigUnsignedLevel::Small);
        assert forall|v: Self| #[trigger] vars.contains(v) by {
            match v {
                BigUnsignedLevel::Big => assert(vars[0] == v),
                BigUnsignedLevel::Small => assert(vars[1] == v),
            }
        }
    }

    fn name() -> (r: String) {
        String::from_str("BigUnsignedLevel")
    }

    fn iter() -> (r: Vec<Self>) {
        let r = vec![BigUnsignedLevel::Big, BigUnsignedLevel::Small];
        assert(r@ =~= Self::spec_variants());
        r
    }

    fn to_value(&self) -> (r: u64) {
        let r: u64 = match self {
            BigUnsignedLevel::Big => 1,
            BigUnsignedLevel::Small => 0,
        };
        assert(r.model() == Scalar::Int(r as int));
        r
    }

    fn db_type() -> (r: ColumnDef) {
        ColumnType::BigInteger.def()
    }
}

/// The declared integers of [`FallbackLevel`]'s variants, in declaration order:
/// `Small` and `Big` declare none, `Negative` declares -10.
pub open spec fn fallback_level_declarations() -> Seq<Option<i64>> {
    seq![None, None, Some(-10i64)]
}

/// The integers that the declarations resolve to.
proof fn lemma_fallback_level_resolved()
    ensures
        resolved(fallback_level_declarations()) == seq![0int, 1int, -10int],
{
    let d = fallback_level_declarations();
    let d2 = d.drop_last();
    let d1 = d2.drop_last();
    let d0 = d1.drop_last();
    assert(d0.len() == 0);
    assert(resolved(d0) == Seq::<int>::empty());
    assert(resolved(d1) =~= seq![0int]);
    assert(resolved(d2) =~= seq![0int, 1int]);
    assert(resolved(d) =~= seq![0int, 1int, -10int]);
}

/// The position of a variant of [`FallbackLevel`] in declaration order.
pub open spec fn fallback_level_position(v: FallbackLevel) -> int {
    match v {
        FallbackLevel::Small => 0,
        FallbackLevel::Big => 1,
        FallbackLevel::Negative => 2,
    }
}

/// A level stored as a signed 32-bit integer whose table comes from declared
/// and undeclared integers: each variant's value is what
/// `resolve_discriminants` resolves its declaration to.
#[derive(Debug, Clone, Copy, PartialEq, Eq, Structural)]
pub enum FallbackLevel {
    Small,
    Big,
    Negative,
}

impl FallbackLevel {
    /// The declarations that the table is resolved from.
    pub fn declarations() -> (r: Vec<Option<i64>>)
        ensures
            r@ == fallback_level_declarations(),
    {
        let r = vec![None, None, Some(-10i64)];
        assert(r@ =~= fallback_level_declarations());
        r
    }
}

impl ActiveEnum for FallbackLevel {
    type Value = i32;

    open spec fn spec_name() -> Seq<char> {
        "FallbackLevel"@
    }

    open spec fn spec_variants() -> Seq<Self> {
        seq![FallbackLevel::Small, FallbackLevel::Big, FallbackLevel::Negative]
    }

    open spec fn spec_value(v: Self) -> Scalar {
        Scalar::Int(resolved(fallback_level_declarations())[fallback_level_position(v)])
    }

    open spec fn spec_db_type() -> ColumnDef {
        ColumnType::Integer.spec_def()
    }

    proof fn lemma_table() {
        lemma_fallback_level_resolved();
        let vars = Self::spec_variants();
        assert(vars[0] == FallbackLevel::Small && vars[1] == FallbackLevel::Big && vars[2]
            == FallbackLevel::Negative);
        assert forall|v: Self| #[trigger] vars.contains(v) by {
            match v {
                FallbackLevel::Small => assert(vars[0] == v),
                FallbackLevel::Big => assert(vars[1] == v),
                FallbackLevel::Negative => assert(vars[2] == v),
            }
        }
    }

    fn name() -> (r: String) {
        String::from_str("FallbackLevel")
    }

    fn iter() -> (r: Vec<Self>) {
        let r = vec![FallbackLevel::Small, FallbackLevel::Big, FallbackLevel::Negative];
        assert(r@ =~= Self::spec_variants());
        r
    }

    fn to_value(&self) -> (r: i32) {
        proof {
            lemma_fallback_level_resolved();
        }
        let r: i32 = match self {
            FallbackLevel::Small => 0,
            FallbackLevel::Big => 1,
            FallbackLevel::Negative => -10,
        };
        assert(r.model() == Scalar::Int(r as int));
        r
    }

    fn db_type() -> (r: ColumnDef) {
        ColumnType::Integer.def()
    }
}

/// The table resolved from undeclared integers is the table of
/// [`SignedLevel`], whose integers are all declared: corresponding variants
/// have the same persisted form, the column and the set of persisted forms
/// agree, and the two reject exactly the same scalars.
pub proof fn lemma_fallback_matches_explicit()
    ensures
        FallbackLevel::spec_value(FallbackLevel::Small) == SignedLevel::spec_value(
            SignedLevel::Small,
        ),
        FallbackLevel::spec_value(FallbackLevel::Big) == SignedLevel::spec_value(SignedLevel::Big),
        FallbackLevel::spec_value(FallbackLevel::Negative) == SignedLevel::spec_value(
            SignedLevel::Negative,
        ),
        FallbackLevel::spec_db_type() == SignedLevel::spec_db_type(),
        persisted_values::<FallbackLevel>().to_set() == persisted_values::<SignedLevel>().to_set(),
        forall|s: Scalar|
            #[trigger] spec_decode::<FallbackLevel>(s) is None <==> spec_decode::<SignedLevel>(
                s,
            ) is None,
{
    lemma_fallback_level_resolved();
    let f = persisted_values::<FallbackLevel>();
    let e = persisted_values::<SignedLevel>();
    assert(f =~= seq![Scalar::Int(0), Scalar::Int(1), Scalar::Int(-10)]);
    assert(e =~= seq![Scalar::Int(-10), Scalar::Int(1), Scalar::Int(0)]);
    assert(f.to_set() =~= e.to_set()) by {
        assert forall|x: Scalar| f.contains(x) <==> e.contains(x) by {
            if f.contains(x) {
                let k = choose|k: int| 0 <= k < f.len() && f[k] == x;
                assert(e[2 - k] == x);
            }
            if e.contains(x) {
                let k = choose|k: int| 0 <= k < e.len() && e[k] == x;
                assert(f[2 - k] == x);
            }
        }
    }
    assert forall|s: Scalar|
        #[trigger] spec_decode::<FallbackLevel>(s) is None <==> spec_decode::<SignedLevel>(
            s,
        ) is None by {
        lemma_decode_exact::<FallbackLevel>(s);
        lemma_decode_exact::<SignedLevel>(s);
        assert(f.to_set().contains(s) == f.contains(s));
        assert(e.to_set().contains(s) == e.contains(s));
    }
}

} // verus!

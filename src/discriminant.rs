//! Resolution of the integers that variants without a declared value receive.
use vstd::prelude::*;

verus! {

/// The integer of each variant, in declaration order: a declared value is kept;
/// an undeclared one is one more than the variant before it, or zero for the
/// first variant.
pub open spec fn resolved(declared: Seq<Option<i64>>) -> Seq<int>
    decreases declared.len(),
{
    if declared.len() == 0 {
        seq![]
    } else {
        let before = resolved(declared.drop_last());
        let d = match declared.last() {
            Some(x) => x as int,
            None => if before.len() == 0 {
                0
            } else {
                before.last() + 1
            },
        };
        before.push(d)
    }
}

proof fn lemma_resolved_len(declared: Seq<Option<i64>>)
    ensures
        resolved(declared).len() == declared.len(),
    decreases declared.len(),
{
    if declared.len() > 0 {
        lemma_resolved_len(declared.drop_last());
    }
}

/// Resolves the integer of every variant once, when the table is built.
/// Fails exactly when an undeclared value would not fit in an `i64`.
pub fn resolve_discriminants(declared: &Vec<Option<i64>>) -> (r: Option<Vec<i64>>)
    ensures
        r is Some <==> forall|k: int|
            0 <= k < declared@.len() ==> #[trigger] resolved(declared@)[k] <= i64::MAX,
        r matches Some(v) ==> v@.map_values(|x: i64| x as int) == resolved(declared@),
{
    let mut out: Vec<i64> = Vec::new();
    let mut i: usize = 0;
    proof {
        lemma_resolved_len(declared@);
    }
    while i < declared.len()
        invariant
            i <= declared@.len(),
            resolved(declared@).len() == declared@.len(),
            out@.map_values(|x: i64| x as int) == resolved(declared@.take(i as int)),
        decreases declared@.len() - i,
    {
        let ghost pre = declared@.take(i as int);
        proof {
            assert(declared@.take(i + 1).drop_last() =~= pre);
            lemma_resolved_len(pre);
            assert(out@.map_values(|x: i64| x as int).len() == out@.len());
        }
        let d: i64 = match declared[i] {
            Some(x) => x,
            None => if i == 0 {
                0
            } else {
                let last = out[i - 1];
                proof {
                    assert(out@.map_values(|x: i64| x as int)[i - 1] == last as int);
                }
                if last == i64::MAX {
                    proof {
                        lemma_resolved_prefix(declared@, i as int + 1);
                        let k = i as int;
                        assert(declared@.take(k + 1).drop_last() =~= pre);
                        assert(resolved(declared@)[k] == resolved(declared@.take(k + 1))[k]);
                    }
                    return None;
                }
                last + 1
            },
        };
        out.push(d);
        i = i + 1;
        proof {
            assert(out@.map_values(|x: i64| x as int) =~= resolved(declared@.take(i as int)));
        }
    }
    proof {
        assert(declared@.take(i as int) =~= declared@);
        assert forall|k: int| 0 <= k < declared@.len() implies #[trigger] resolved(declared@)[k]
            <= i64::MAX by {
            assert(out@.map_values(|x: i64| x as int)[k] == out@[k] as int);
        }
    }
    Some(out)
}

/// Resolving a prefix of the declarations resolves a prefix of the integers.
proof fn lemma_resolved_prefix(declared: Seq<Option<i64>>, n: int)
    requires
        0 <= n <= declared.len(),
    ensures
        resolved(declared.take(n)) == resolved(declared).take(n),
    decreases declared.len(),
{
    lemma_resolved_len(declared);
    if n == declared.len() {
        assert(declared.take(n) =~= declared);
        assert(resolved(declared).take(n) =~= resolved(declared));
    } else {
        let init = declared.drop_last();
        assert(init.take(n) =~= declared.take(n));
        lemma_resolved_prefix(init, n);
        lemma_resolved_len(init);
        assert(resolved(init).take(n) =~= resolved(declared).take(n));
    }
}

} // verus!

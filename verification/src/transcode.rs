//! The key-case transcoder: rewrites every mapping key of an arbitrarily
//! nested dynamic value between the wire convention (camelCase) and the
//! host convention (snake_case), recursing through sequences as well as
//! mapping values.  The input is never changed; a derived value is built.

use vstd::prelude::*;
use crate::dynvalue::{Dyn, DynValue, view_items, view_pairs, lemma_view_items, lemma_view_pairs};
use crate::keycase::{
    snake_key, camel_key, is_snake_key, is_camel_key, is_reversible_camel_key,
    snake_case_key, camel_case_key, law_camel_key_undoes_snake_key,
    is_reversible_snake_key, law_snake_key_undoes_camel_key,
    lemma_snake_chars_is_snake, lemma_snake_chars_identity,
    lemma_camel_chars_is_camel, lemma_camel_chars_identity,
};

verus! {

/// The host form of a dynamic value: every key of every nested mapping
/// rewritten to snake_case.
pub open spec fn snake_dyn(d: Dyn) -> Dyn
    decreases d,
{
    match d {
        Dyn::Null => d,
        Dyn::Bool(_) => d,
        Dyn::Num(_) => d,
        Dyn::Str(_) => d,
        Dyn::List(es) => Dyn::List(snake_items(es)),
        Dyn::Object(ps) => Dyn::Object(snake_pairs(ps)),
    }
}

/// The host form of each element of a sequence value.
pub open spec fn snake_items(es: Seq<Dyn>) -> Seq<Dyn>
    decreases es,
{
    if es.len() == 0 {
        Seq::empty()
    } else {
        seq![snake_dyn(es[0])] + snake_items(es.drop_first())
    }
}

/// The host form of each entry of a mapping value.
pub open spec fn snake_pairs(ps: Seq<(Seq<char>, Dyn)>) -> Seq<(Seq<char>, Dyn)>
    decreases ps,
{
    if ps.len() == 0 {
        Seq::empty()
    } else {
        seq![(snake_key(ps[0].0), snake_dyn(ps[0].1))] + snake_pairs(ps.drop_first())
    }
}

/// The wire form of a dynamic value: every key of every nested mapping
/// rewritten to camelCase.
pub open spec fn camel_dyn(d: Dyn) -> Dyn
    decreases d,
{
    match d {
        Dyn::Null => d,
        Dyn::Bool(_) => d,
        Dyn::Num(_) => d,
        Dyn::Str(_) => d,
        Dyn::List(es) => Dyn::List(camel_items(es)),
        Dyn::Object(ps) => Dyn::Object(camel_pairs(ps)),
    }
}

/// The wire form of each element of a sequence value.
pub open spec fn camel_items(es: Seq<Dyn>) -> Seq<Dyn>
    decreases es,
{
    if es.len() == 0 {
        Seq::empty()
    } else {
        seq![camel_dyn(es[0])] + camel_items(es.drop_first())
    }
}

/// The wire form of each entry of a mapping value.
pub open spec fn camel_pairs(ps: Seq<(Seq<char>, Dyn)>) -> Seq<(Seq<char>, Dyn)>
    decreases ps,
{
    if ps.len() == 0 {
        Seq::empty()
    } else {
        seq![(camel_key(ps[0].0), camel_dyn(ps[0].1))] + camel_pairs(ps.drop_first())
    }
}

/// Every key of every nested mapping is already in the host convention.
pub open spec fn keys_all_snake(d: Dyn) -> bool
    decreases d,
{
    match d {
        Dyn::Null => true,
        Dyn::Bool(_) => true,
        Dyn::Num(_) => true,
        Dyn::Str(_) => true,
        Dyn::List(es) => forall|i: int| 0 <= i < es.len() ==> keys_all_snake(#[trigger] es[i]),
        Dyn::Object(ps) => forall|i: int|
            0 <= i < ps.len() ==> is_snake_key(#[trigger] ps[i].0) && keys_all_snake(ps[i].1),
    }
}

/// Every key of every nested mapping is already in the wire convention.
pub open spec fn keys_all_camel(d: Dyn) -> bool
    decreases d,
{
    match d {
        Dyn::Null => true,
        Dyn::Bool(_) => true,
        Dyn::Num(_) => true,
        Dyn::Str(_) => true,
        Dyn::List(es) => forall|i: int| 0 <= i < es.len() ==> keys_all_camel(#[trigger] es[i]),
        Dyn::Object(ps) => forall|i: int|
            0 <= i < ps.len() ==> is_camel_key(#[trigger] ps[i].0) && keys_all_camel(ps[i].1),
    }
}

/// The transformed elements stand one for one at their own indices.
pub proof fn lemma_snake_items_elems(es: Seq<Dyn>)
    ensures
        snake_items(es).len() == es.len(),
        forall|i: int| 0 <= i < es.len() ==> #[trigger] snake_items(es)[i] == snake_dyn(es[i]),
    decreases es,
{
    if es.len() > 0 {
        lemma_snake_items_elems(es.drop_first());
        assert forall|i: int| 0 <= i < es.len() implies #[trigger] snake_items(es)[i] == snake_dyn(es[i]) by {
            if i > 0 {
                assert(snake_items(es.drop_first())[i - 1] == snake_dyn(es.drop_first()[i - 1]));
            }
        }
    }
}

/// The transformed entries stand one for one at their own indices.
pub proof fn lemma_snake_pairs_elems(ps: Seq<(Seq<char>, Dyn)>)
    ensures
        snake_pairs(ps).len() == ps.len(),
        forall|i: int| 0 <= i < ps.len() ==> #[trigger] snake_pairs(ps)[i] == (snake_key(ps[i].0), snake_dyn(ps[i].1)),
    decreases ps,
{
    if ps.len() > 0 {
        lemma_snake_pairs_elems(ps.drop_first());
        assert forall|i: int| 0 <= i < ps.len() implies #[trigger] snake_pairs(ps)[i] == (snake_key(ps[i].0), snake_dyn(ps[i].1)) by {
            if i > 0 {
                assert(snake_pairs(ps.drop_first())[i - 1] == (snake_key(ps.drop_first()[i - 1].0), snake_dyn(ps.drop_first()[i - 1].1)));
            }
        }
    }
}

/// The transformed elements stand one for one at their own indices.
pub proof fn lemma_camel_items_elems(es: Seq<Dyn>)
    ensures
        camel_items(es).len() == es.len(),
        forall|i: int| 0 <= i < es.len() ==> #[trigger] camel_items(es)[i] == camel_dyn(es[i]),
    decreases es,
{
    if es.len() > 0 {
        lemma_camel_items_elems(es.drop_first());
        assert forall|i: int| 0 <= i < es.len() implies #[trigger] camel_items(es)[i] == camel_dyn(es[i]) by {
            if i > 0 {
                assert(camel_items(es.drop_first())[i - 1] == camel_dyn(es.drop_first()[i - 1]));
            }
        }
    }
}

/// The transformed entries stand one for one at their own indices.
pub proof fn lemma_camel_pairs_elems(ps: Seq<(Seq<char>, Dyn)>)
    ensures
        camel_pairs(ps).len() == ps.len(),
        forall|i: int| 0 <= i < ps.len() ==> #[trigger] camel_pairs(ps)[i] == (camel_key(ps[i].0), camel_dyn(ps[i].1)),
    decreases ps,
{
    if ps.len() > 0 {
        lemma_camel_pairs_elems(ps.drop_first());
        assert forall|i: int| 0 <= i < ps.len() implies #[trigger] camel_pairs(ps)[i] == (camel_key(ps[i].0), camel_dyn(ps[i].1)) by {
            if i > 0 {
                assert(camel_pairs(ps.drop_first())[i - 1] == (camel_key(ps.drop_first()[i - 1].0), camel_dyn(ps.drop_first()[i - 1].1)));
            }
        }
    }
}

/// After the host-bound transform, every nested key is in the host
/// convention.
pub proof fn lemma_snake_dyn_all_snake(d: Dyn)
    ensures
        keys_all_snake(snake_dyn(d)),
    decreases d,
{
    match d {
        Dyn::List(es) => {
            lemma_snake_items_elems(es);
            assert forall|i: int| 0 <= i < snake_items(es).len() implies keys_all_snake(#[trigger] snake_items(es)[i]) by {
                lemma_snake_dyn_all_snake(es[i]);
            }
        },
        Dyn::Object(ps) => {
            lemma_snake_pairs_elems(ps);
            assert forall|i: int|
                0 <= i < snake_pairs(ps).len() implies is_snake_key((#[trigger] snake_pairs(ps)[i]).0)
                && keys_all_snake(snake_pairs(ps)[i].1) by {
                lemma_snake_chars_is_snake(ps[i].0, true);
                lemma_snake_dyn_all_snake(ps[i].1);
            }
        },
        _ => {},
    }
}

/// A value whose nested keys are all in the host convention is left
/// exactly as it was.
pub proof fn lemma_snake_dyn_identity(d: Dyn)
    requires
        keys_all_snake(d),
    ensures
        snake_dyn(d) == d,
    decreases d,
{
    match d {
        Dyn::List(es) => {
            lemma_snake_items_elems(es);
            assert forall|i: int| 0 <= i < es.len() implies snake_items(es)[i] == #[trigger] es[i] by {
                lemma_snake_dyn_identity(es[i]);
            }
            assert(snake_items(es) =~= es);
        },
        Dyn::Object(ps) => {
            lemma_snake_pairs_elems(ps);
            assert forall|i: int| 0 <= i < ps.len() implies snake_pairs(ps)[i] == #[trigger] ps[i] by {
                lemma_snake_chars_identity(ps[i].0, true);
                lemma_snake_dyn_identity(ps[i].1);
            }
            assert(snake_pairs(ps) =~= ps);
        },
        _ => {},
    }
}

/// After the wire-bound transform, every nested key is in the wire
/// convention.
pub proof fn lemma_camel_dyn_all_camel(d: Dyn)
    ensures
        keys_all_camel(camel_dyn(d)),
    decreases d,
{
    match d {
        Dyn::List(es) => {
            lemma_camel_items_elems(es);
            assert forall|i: int| 0 <= i < camel_items(es).len() implies keys_all_camel(#[trigger] camel_items(es)[i]) by {
                lemma_camel_dyn_all_camel(es[i]);
            }
        },
        Dyn::Object(ps) => {
            lemma_camel_pairs_elems(ps);
            assert forall|i: int|
                0 <= i < camel_pairs(ps).len() implies is_camel_key((#[trigger] camel_pairs(ps)[i]).0)
                && keys_all_camel(camel_pairs(ps)[i].1) by {
                lemma_camel_chars_is_camel(ps[i].0, false);
                lemma_camel_dyn_all_camel(ps[i].1);
            }
        },
        _ => {},
    }
}

/// A value whose nested keys are all in the wire convention is left
/// exactly as it was.
pub proof fn lemma_camel_dyn_identity(d: Dyn)
    requires
        keys_all_camel(d),
    ensures
        camel_dyn(d) == d,
    decreases d,
{
    match d {
        Dyn::List(es) => {
            lemma_camel_items_elems(es);
            assert forall|i: int| 0 <= i < es.len() implies camel_items(es)[i] == #[trigger] es[i] by {
                lemma_camel_dyn_identity(es[i]);
            }
            assert(camel_items(es) =~= es);
        },
        Dyn::Object(ps) => {
            lemma_camel_pairs_elems(ps);
            assert forall|i: int| 0 <= i < ps.len() implies camel_pairs(ps)[i] == #[trigger] ps[i] by {
                lemma_camel_chars_identity(ps[i].0);
                lemma_camel_dyn_identity(ps[i].1);
            }
            assert(camel_pairs(ps) =~= ps);
        },
        _ => {},
    }
}

/// Every key of every nested mapping is a wire-convention key the host
/// convention can carry back unchanged.
pub open spec fn keys_all_reversible_camel(d: Dyn) -> bool
    decreases d,
{
    match d {
        Dyn::Null => true,
        Dyn::Bool(_) => true,
        Dyn::Num(_) => true,
        Dyn::Str(_) => true,
        Dyn::List(es) => forall|i: int| 0 <= i < es.len() ==> keys_all_reversible_camel(#[trigger] es[i]),
        Dyn::Object(ps) => forall|i: int|
            0 <= i < ps.len() ==> is_reversible_camel_key(#[trigger] ps[i].0)
                && keys_all_reversible_camel(ps[i].1),
    }
}

/// Law: on a value whose nested keys the wire convention can carry back,
/// converting to the host convention and back to the wire convention
/// gives the value unchanged — the key rewriting loses nothing.
pub proof fn law_camel_dyn_undoes_snake_dyn(d: Dyn)
    requires
        keys_all_reversible_camel(d),
    ensures
        camel_dyn(snake_dyn(d)) == d,
    decreases d,
{
    match d {
        Dyn::List(es) => {
            lemma_snake_items_elems(es);
            lemma_camel_items_elems(snake_items(es));
            assert forall|i: int| 0 <= i < es.len() implies camel_items(snake_items(es))[i] == #[trigger] es[i] by {
                law_camel_dyn_undoes_snake_dyn(es[i]);
            }
            assert(camel_items(snake_items(es)) =~= es);
        },
        Dyn::Object(ps) => {
            lemma_snake_pairs_elems(ps);
            lemma_camel_pairs_elems(snake_pairs(ps));
            assert forall|i: int| 0 <= i < ps.len() implies camel_pairs(snake_pairs(ps))[i] == #[trigger] ps[i] by {
                law_camel_key_undoes_snake_key(ps[i].0);
                law_camel_dyn_undoes_snake_dyn(ps[i].1);
            }
            assert(camel_pairs(snake_pairs(ps)) =~= ps);
        },
        _ => {},
    }
}

/// Every key of every nested mapping is a host-convention key the wire
/// convention can carry back unchanged.
pub open spec fn keys_all_reversible_snake(d: Dyn) -> bool
    decreases d,
{
    match d {
        Dyn::Null => true,
        Dyn::Bool(_) => true,
        Dyn::Num(_) => true,
        Dyn::Str(_) => true,
        Dyn::List(es) => forall|i: int| 0 <= i < es.len() ==> keys_all_reversible_snake(#[trigger] es[i]),
        Dyn::Object(ps) => forall|i: int|
            0 <= i < ps.len() ==> is_reversible_snake_key(#[trigger] ps[i].0)
                && keys_all_reversible_snake(ps[i].1),
    }
}

/// Law: on a value whose nested keys the wire convention can carry back,
/// converting to the wire convention and back to the host convention
/// gives the value unchanged — a host body sent out and echoed back
/// comes home as it left.
pub proof fn law_snake_dyn_undoes_camel_dyn(d: Dyn)
    requires
        keys_all_reversible_snake(d),
    ensures
        snake_dyn(camel_dyn(d)) == d,
    decreases d,
{
    match d {
        Dyn::List(es) => {
            lemma_camel_items_elems(es);
            lemma_snake_items_elems(camel_items(es));
            assert forall|i: int| 0 <= i < es.len() implies snake_items(camel_items(es))[i] == #[trigger] es[i] by {
                law_snake_dyn_undoes_camel_dyn(es[i]);
            }
            assert(snake_items(camel_items(es)) =~= es);
        },
        Dyn::Object(ps) => {
            lemma_camel_pairs_elems(ps);
            lemma_snake_pairs_elems(camel_pairs(ps));
            assert forall|i: int| 0 <= i < ps.len() implies snake_pairs(camel_pairs(ps))[i] == #[trigger] ps[i] by {
                law_snake_key_undoes_camel_key(ps[i].0);
                law_snake_dyn_undoes_camel_dyn(ps[i].1);
            }
            assert(snake_pairs(camel_pairs(ps)) =~= ps);
        },
        _ => {},
    }
}

/// Law: re-applying the host-bound transform to an already-converted
/// value is a no-op, for every nested dynamic value.
pub proof fn law_snake_transform_idempotent(d: Dyn)
    ensures
        snake_dyn(snake_dyn(d)) == snake_dyn(d),
{
    lemma_snake_dyn_all_snake(d);
    lemma_snake_dyn_identity(snake_dyn(d));
}

/// Law: re-applying the wire-bound transform to an already-converted
/// value is a no-op, for every nested dynamic value.
pub proof fn law_camel_transform_idempotent(d: Dyn)
    ensures
        camel_dyn(camel_dyn(d)) == camel_dyn(d),
{
    lemma_camel_dyn_all_camel(d);
    lemma_camel_dyn_identity(camel_dyn(d));
}

/// Rewrites every mapping key of the value to snake_case, recursing
/// through sequences and mapping values; the input is left unchanged and
/// a derived value is returned.
#[verifier::loop_isolation(false)]
pub fn snake_case_hash_keys(v: &DynValue) -> (r: DynValue)
    ensures
        r@ == snake_dyn(v@),
    decreases *v,
{
    match v {
        DynValue::Null => DynValue::Null,
        DynValue::Bool(b) => DynValue::Bool(*b),
        DynValue::Num(s) => DynValue::Num(s.clone()),
        DynValue::Str(s) => DynValue::Str(s.clone()),
        DynValue::List(items) => {
            let mut out: Vec<DynValue> = Vec::new();
            let mut i: usize = 0;
            while i < items.len()
                invariant
                    0 <= i <= items@.len(),
                    out@.len() == i,
                    forall|j: int| 0 <= j < i ==> (#[trigger] out@[j])@ == snake_dyn(items@[j]@),
                decreases items@.len() - i,
            {
                proof {
                    assert(decreases_to!(*v => items@[i as int]));
                }
                let w = snake_case_hash_keys(&items[i]);
                out.push(w);
                i = i + 1;
            }
            proof {
                lemma_view_items(items@);
                lemma_view_items(out@);
                lemma_snake_items_elems(view_items(items@));
                assert(view_items(out@) =~= snake_items(view_items(items@)));
            }
            DynValue::List(out)
        },
        DynValue::Object(pairs) => {
            let mut out: Vec<(String, DynValue)> = Vec::new();
            let mut i: usize = 0;
            while i < pairs.len()
                invariant
                    0 <= i <= pairs@.len(),
                    out@.len() == i,
                    forall|j: int| 0 <= j < i ==> (#[trigger] out@[j]).0@ == snake_key(pairs@[j].0@)
                        && out@[j].1@ == snake_dyn(pairs@[j].1@),
                decreases pairs@.len() - i,
            {
                proof {
                    assert(decreases_to!(*v => pairs@[i as int].1));
                }
                let k = snake_case_key(pairs[i].0.as_str());
                let w = snake_case_hash_keys(&pairs[i].1);
                out.push((k, w));
                i = i + 1;
            }
            proof {
                lemma_view_pairs(pairs@);
                lemma_view_pairs(out@);
                lemma_snake_pairs_elems(view_pairs(pairs@));
                assert(view_pairs(out@) =~= snake_pairs(view_pairs(pairs@)));
            }
            DynValue::Object(out)
        },
    }
}

/// Rewrites every mapping key of the value to camelCase, recursing
/// through sequences and mapping values; the input is left unchanged and
/// a derived value is returned.
#[verifier::loop_isolation(false)]
pub fn camel_case_hash_keys(v: &DynValue) -> (r: DynValue)
    ensures
        r@ == camel_dyn(v@),
    decreases *v,
{
    match v {
        DynValue::Null => DynValue::Null,
        DynValue::Bool(b) => DynValue::Bool(*b),
        DynValue::Num(s) => DynValue::Num(s.clone()),
        DynValue::Str(s) => DynValue::Str(s.clone()),
        DynValue::List(items) => {
            let mut out: Vec<DynValue> = Vec::new();
            let mut i: usize = 0;
            while i < items.len()
                invariant
                    0 <= i <= items@.len(),
                    out@.len() == i,
                    forall|j: int| 0 <= j < i ==> (#[trigger] out@[j])@ == camel_dyn(items@[j]@),
                decreases items@.len() - i,
            {
                proof {
                    assert(decreases_to!(*v => items@[i as int]));
                }
                let w = camel_case_hash_keys(&items[i]);
                out.push(w);
                i = i + 1;
            }
            proof {
                lemma_view_items(items@);
                lemma_view_items(out@);
                lemma_camel_items_elems(view_items(items@));
                assert(view_items(out@) =~= camel_items(view_items(items@)));
            }
            DynValue::List(out)
        },
        DynValue::Object(pairs) => {
            let mut out: Vec<(String, DynValue)> = Vec::new();
            let mut i: usize = 0;
            while i < pairs.len()
                invariant
                    0 <= i <= pairs@.len(),
                    out@.len() == i,
                    forall|j: int| 0 <= j < i ==> (#[trigger] out@[j]).0@ == camel_key(pairs@[j].0@)
                        && out@[j].1@ == camel_dyn(pairs@[j].1@),
                decreases pairs@.len() - i,
            {
                proof {
                    assert(decreases_to!(*v => pairs@[i as int].1));
                }
                let k = camel_case_key(pairs[i].0.as_str());
                let w = camel_case_hash_keys(&pairs[i].1);
                out.push((k, w));
                i = i + 1;
            }
            proof {
                lemma_view_pairs(pairs@);
                lemma_view_pairs(out@);
                lemma_camel_pairs_elems(view_pairs(pairs@));
                assert(view_pairs(out@) =~= camel_pairs(view_pairs(pairs@)));
            }
            DynValue::Object(out)
        },
    }
}

/// Rewrites every mapping key of the value to snake_case in place.
pub fn snake_case_hash_keys_mut(v: &mut DynValue)
    ensures
        final(v)@ == snake_dyn(old(v)@),
{
    let w = snake_case_hash_keys(v);
    *v = w;
}

} // verus!

//! The host runtime's dynamic values, modelled as a closed tagged union:
//! null, booleans, numbers, strings, sequences and mappings.  Numbers are
//! carried as their decimal text so that arbitrary wire numbers survive the
//! round trip unchanged.  Mapping keys are strings; a dynamic value whose
//! mapping uses any other key type is not representable here, so the
//! boundary that converts host values into [`DynValue`] rejects it before
//! any of this logic runs.

use vstd::prelude::*;

verus! {

/// The mathematical model of a dynamic value: what contracts speak of.
pub enum Dyn {
    Null,
    Bool(bool),
    Num(Seq<char>),
    Str(Seq<char>),
    List(Seq<Dyn>),
    Object(Seq<(Seq<char>, Dyn)>),
}

/// A dynamic value as exchanged with the host runtime: a JSON-shaped
/// tree of scalars, sequences and string-keyed mappings.
#[derive(Debug, PartialEq, Eq)]
pub enum DynValue {
    Null,
    Bool(bool),
    Num(String),
    Str(String),
    List(Vec<DynValue>),
    Object(Vec<(String, DynValue)>),
}

impl View for DynValue {
    type V = Dyn;

    open spec fn view(&self) -> Dyn
        decreases self,
    {
        match self {
            DynValue::Null => Dyn::Null,
            DynValue::Bool(b) => Dyn::Bool(*b),
            DynValue::Num(s) => Dyn::Num(s@),
            DynValue::Str(s) => Dyn::Str(s@),
            DynValue::List(items) => Dyn::List(view_items(items@)),
            DynValue::Object(pairs) => Dyn::Object(view_pairs(pairs@)),
        }
    }
}

/// The model of each element of a sequence value.
pub open spec fn view_items(items: Seq<DynValue>) -> Seq<Dyn>
    decreases items,
{
    if items.len() == 0 {
        Seq::empty()
    } else {
        seq![items[0]@] + view_items(items.drop_first())
    }
}

/// The model of each entry of a mapping value.
pub open spec fn view_pairs(pairs: Seq<(String, DynValue)>) -> Seq<(Seq<char>, Dyn)>
    decreases pairs,
{
    if pairs.len() == 0 {
        Seq::empty()
    } else {
        seq![(pairs[0].0@, pairs[0].1@)] + view_pairs(pairs.drop_first())
    }
}

/// Each element's model stands at its own index.
pub proof fn lemma_view_items(items: Seq<DynValue>)
    ensures
        view_items(items).len() == items.len(),
        forall|i: int| 0 <= i < items.len() ==> view_items(items)[i] == items[i]@,
    decreases items,
{
    if items.len() == 0 {
        assert(view_items(items) =~= Seq::empty());
    } else {
        lemma_view_items(items.drop_first());
        assert(view_items(items) == seq![items[0]@] + view_items(items.drop_first()));
        assert forall|i: int| 0 <= i < items.len() implies view_items(items)[i] == items[i]@ by {
            if i > 0 {
                assert(view_items(items.drop_first())[i - 1] == items.drop_first()[i - 1]@);
            }
        }
    }
}

/// Each entry's model stands at its own index.
pub proof fn lemma_view_pairs(pairs: Seq<(String, DynValue)>)
    ensures
        view_pairs(pairs).len() == pairs.len(),
        forall|i: int| 0 <= i < pairs.len() ==> view_pairs(pairs)[i] == (pairs[i].0@, pairs[i].1@),
    decreases pairs,
{
    if pairs.len() == 0 {
        assert(view_pairs(pairs) =~= Seq::empty());
    } else {
        lemma_view_pairs(pairs.drop_first());
        assert(view_pairs(pairs) == seq![(pairs[0].0@, pairs[0].1@)] + view_pairs(pairs.drop_first()));
        assert forall|i: int| 0 <= i < pairs.len() implies view_pairs(pairs)[i] == (pairs[i].0@, pairs[i].1@) by {
            if i > 0 {
                assert(view_pairs(pairs.drop_first())[i - 1] == (pairs.drop_first()[i - 1].0@, pairs.drop_first()[i - 1].1@));
            }
        }
    }
}

} // verus!

//! Building vectors whose models are known.
//!
//! The model of a vector is the sequence of the models of its items. These
//! helpers build short vectors and state their models outright, so that a
//! caller that writes a structure down need not reason about each push.

use vstd::prelude::*;

verus! {

/// The empty vector.
pub(crate) fn list0<T: DeepView>() -> (v: Vec<T>)
    ensures
        v.deep_view() == Seq::<T::V>::empty(),
{
    let v = Vec::new();
    assert(v.deep_view() =~= Seq::<T::V>::empty());
    v
}

/// A vector of one item.
pub(crate) fn list1<T: DeepView>(a: T) -> (v: Vec<T>)
    ensures
        v.deep_view() == seq![a.deep_view()],
{
    let v = vec![a];
    assert(v.deep_view() =~= seq![a.deep_view()]);
    v
}

/// A vector of two items.
pub(crate) fn list2<T: DeepView>(a: T, b: T) -> (v: Vec<T>)
    ensures
        v.deep_view() == seq![a.deep_view(), b.deep_view()],
{
    let v = vec![a, b];
    assert(v.deep_view() =~= seq![a.deep_view(), b.deep_view()]);
    v
}

/// A vector of three items.
pub(crate) fn list3<T: DeepView>(a: T, b: T, c: T) -> (v: Vec<T>)
    ensures
        v.deep_view() == seq![a.deep_view(), b.deep_view(), c.deep_view()],
{
    let v = vec![a, b, c];
    assert(v.deep_view() =~= seq![a.deep_view(), b.deep_view(), c.deep_view()]);
    v
}

/// A vector of four items.
pub(crate) fn list4<T: DeepView>(a: T, b: T, c: T, d: T) -> (v: Vec<T>)
    ensures
        v.deep_view() == seq![a.deep_view(), b.deep_view(), c.deep_view(), d.deep_view()],
{
    let v = vec![a, b, c, d];
    assert(v.deep_view() =~= seq![
        a.deep_view(),
        b.deep_view(),
        c.deep_view(),
        d.deep_view(),
    ]);
    v
}

/// A vector of five items.
pub(crate) fn list5<T: DeepView>(a: T, b: T, c: T, d: T, e: T) -> (v: Vec<T>)
    ensures
        v.deep_view() == seq![
            a.deep_view(),
            b.deep_view(),
            c.deep_view(),
            d.deep_view(),
            e.deep_view(),
        ],
{
    let v = vec![a, b, c, d, e];
    assert(v.deep_view() =~= seq![
        a.deep_view(),
        b.deep_view(),
        c.deep_view(),
        d.deep_view(),
        e.deep_view(),
    ]);
    v
}

} // verus!

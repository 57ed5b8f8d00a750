use core::marker::PhantomData;
use vstd::prelude::*;
use vstd::std_specs::cmp::{PartialEqSpec, PartialOrdSpec};

verus! {

/// A wrapper whose identity is one designated inner value.
///
/// The value can be moved out or borrowed; both give the same inner value.
pub trait ValueType: Clone {
    type Inner: Clone + PartialEq + PartialOrd;

    /// The wrapped value.
    spec fn inner(&self) -> Self::Inner;

    /// Moves the wrapped value out of `self`.
    fn into_inner(self) -> (r: Self::Inner)
        ensures
            r == self.inner(),
    ;

    /// Borrows the wrapped value.
    fn as_inner(&self) -> (r: &Self::Inner)
        ensures
            *r == self.inner(),
    ;
}

/// A value of type `V` tagged with a type `T`.
///
/// Two wrappers of the same `V` under different tags are distinct types, so
/// one cannot stand where the other is asked for; both still serve wherever
/// any `ValueType` whose `Inner` is `V` is accepted. Equality and order are
/// those of the wrapped value; the tag plays no part in them.
#[derive(Debug)]
pub struct TypedValue<V, T>(V, PhantomData<T>) where
    V: Clone + core::fmt::Debug + PartialEq + PartialOrd,
;

impl<V, T> TypedValue<V, T> where V: Clone + core::fmt::Debug + PartialEq + PartialOrd {
    pub closed spec fn wrap(value: V) -> Self {
        TypedValue(value, PhantomData)
    }

    pub closed spec fn value_of(&self) -> V {
        self.0
    }

    /// Wraps `value`.
    pub fn new(value: V) -> (r: Self)
        ensures
            r == Self::wrap(value),
            r.value_of() == value,
    {
        TypedValue(value, PhantomData)
    }
}

impl<V, T> Clone for TypedValue<V, T> where V: Clone + core::fmt::Debug + PartialEq + PartialOrd {
    fn clone(&self) -> (r: Self)
        ensures
            cloned(self.value_of(), r.value_of()),
    {
        TypedValue(self.0.clone(), PhantomData)
    }
}

impl<V, T> ValueType for TypedValue<V, T> where
    V: Clone + core::fmt::Debug + PartialEq + PartialOrd,
 {
    type Inner = V;

    open spec fn inner(&self) -> V {
        self.value_of()
    }

    fn into_inner(self) -> (r: V) {
        self.0
    }

    fn as_inner(&self) -> (r: &V) {
        &self.0
    }
}

impl<V, T> PartialEq for TypedValue<V, T> where
    V: Clone + core::fmt::Debug + PartialEq + PartialOrd,
 {
    fn eq(&self, other: &Self) -> (r: bool) {
        self.0.eq(&other.0)
    }
}

impl<V, T> vstd::std_specs::cmp::PartialEqSpecImpl for TypedValue<V, T> where
    V: Clone + core::fmt::Debug + PartialEq + PartialOrd,
 {
    open spec fn obeys_eq_spec() -> bool {
        <V as PartialEqSpec>::obeys_eq_spec()
    }

    open spec fn eq_spec(&self, other: &Self) -> bool {
        self.value_of().eq_spec(&other.value_of())
    }
}

impl<V, T> PartialOrd for TypedValue<V, T> where
    V: Clone + core::fmt::Debug + PartialEq + PartialOrd,
 {
    fn partial_cmp(&self, other: &Self) -> (r: Option<core::cmp::Ordering>) {
        self.0.partial_cmp(&other.0)
    }
}

impl<V, T> vstd::std_specs::cmp::PartialOrdSpecImpl for TypedValue<V, T> where
    V: Clone + core::fmt::Debug + PartialEq + PartialOrd,
 {
    open spec fn obeys_partial_cmp_spec() -> bool {
        <V as PartialOrdSpec>::obeys_partial_cmp_spec()
    }

    open spec fn partial_cmp_spec(&self, other: &Self) -> Option<core::cmp::Ordering> {
        self.value_of().partial_cmp_spec(&other.value_of())
    }
}

/// Equality and order of tagged values are those of the wrapped values,
/// and nothing else: two values that wrap equal values compare equal.
pub proof fn lemma_compare_by_inner<V, T>(a: TypedValue<V, T>, b: TypedValue<V, T>)
    where
        V: Clone + core::fmt::Debug + PartialEq + PartialOrd,
    ensures
        <TypedValue<V, T> as PartialEqSpec>::obeys_eq_spec() == <V as PartialEqSpec>::obeys_eq_spec(),
        <TypedValue<V, T> as PartialOrdSpec>::obeys_partial_cmp_spec()
            == <V as PartialOrdSpec>::obeys_partial_cmp_spec(),
        a.eq_spec(&b) == a.inner().eq_spec(&b.inner()),
        a.partial_cmp_spec(&b) == a.inner().partial_cmp_spec(&b.inner()),
        a.inner() == b.inner() ==> a.eq_spec(&b) == b.eq_spec(&a) && a.partial_cmp_spec(&b)
            == b.partial_cmp_spec(&a),
{
}

/// Tagged unsigned integers are ordered as the integers they wrap.
pub proof fn lemma_u64_order<T>(a: TypedValue<u64, T>, b: TypedValue<u64, T>)
    ensures
        <TypedValue<u64, T> as PartialEqSpec>::obeys_eq_spec(),
        <TypedValue<u64, T> as PartialOrdSpec>::obeys_partial_cmp_spec(),
        a.eq_spec(&b) <==> a.inner() == b.inner(),
        a.partial_cmp_spec(&b) == Some(core::cmp::Ordering::Less) <==> a.inner() < b.inner(),
        a.partial_cmp_spec(&b) == Some(core::cmp::Ordering::Equal) <==> a.inner() == b.inner(),
        a.partial_cmp_spec(&b) == Some(core::cmp::Ordering::Greater) <==> a.inner() > b.inner(),
{
}

/// Extracting the wrapped value loses nothing: wrapping what was extracted
/// gives back the same tagged value, and extracting from a fresh wrapper
/// gives back what was wrapped.
pub proof fn lemma_value_round_trip<V, T>(x: TypedValue<V, T>, v: V)
    where
        V: Clone + core::fmt::Debug + PartialEq + PartialOrd,
    ensures
        TypedValue::<V, T>::wrap(x.inner()) == x,
        TypedValue::<V, T>::wrap(v).inner() == v,
{
}

} // verus!

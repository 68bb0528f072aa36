//! A reference-counted shared-ownership handle with read-only access.

use vstd::prelude::*;

verus! {

use std::rc::Rc;
use vstd::std_specs::cmp::PartialEqSpec;
use vstd::std_specs::cmp::PartialOrdSpec;
use core::cmp::Ordering;

/// A shared-ownership handle: a reference-counted pointer to an immutable
/// value of type `T`. Cloning a handle shares the same cell rather than
/// copying the value; the value lives until the last handle is dropped.
///
/// The handle exposes no mutation, so every holder observes the same value
/// for as long as its handle is alive. The reference count is not atomic:
/// a handle must stay on the thread that made it.
#[derive(Debug)]
pub struct SharedPtr<T>(Rc<T>);

impl<T> SharedPtr<T> {
    /// The owned value, as specifications see it.
    pub closed spec fn value(self) -> T {
        *self.0
    }

    /// Wraps `value` in a fresh shared cell with a single holder.
    pub fn new(value: T) -> (p: Self)
        ensures
            p.value() == value,
    {
        SharedPtr(Rc::new(value))
    }

    /// Borrows the owned value: the dereference operation of the handle.
    pub fn deref(&self) -> (r: &T)
        ensures
            *r == self.value(),
    {
        &*self.0
    }
}

impl<T> Clone for SharedPtr<T> {
    /// A new handle to the same cell; the owned value is untouched.
    fn clone(&self) -> (p: Self)
        ensures
            p.value() == self.value(),
    {
        SharedPtr(Rc::clone(&self.0))
    }
}

impl<T> From<T> for SharedPtr<T> {
    /// Equivalent to `SharedPtr::new`.
    fn from(value: T) -> (p: Self)
        ensures
            p.value() == value,
    {
        SharedPtr::new(value)
    }
}

impl<T> vstd::std_specs::convert::FromSpecImpl<T> for SharedPtr<T> {
    closed spec fn obeys_from_spec() -> bool {
        true
    }

    closed spec fn from_spec(value: T) -> Self {
        // All handles holding `value` are equal (`lemma_handle_is_its_value`),
        // so any witness denotes the one handle `from` returns.
        choose|p: SharedPtr<T>| p.value() == value
    }
}

/// In specifications a handle is characterized by its owned value alone:
/// two handles whose values are equal are themselves equal.
pub proof fn lemma_handle_is_its_value<T>(p: SharedPtr<T>, q: SharedPtr<T>)
    requires
        p.value() == q.value(),
    ensures
        p == q,
{
}

impl<T: PartialEq> PartialEq for SharedPtr<T> {
    /// Delegates to equality on the owned values.
    fn eq(&self, other: &Self) -> (r: bool)
        ensures
            T::obeys_eq_spec() ==> r == self.value().eq_spec(&other.value()),
    {
        *self.0 == *other.0
    }
}

impl<T: Eq> Eq for SharedPtr<T> {
}

impl<T: PartialEq> vstd::std_specs::cmp::PartialEqSpecImpl for SharedPtr<T> {
    open spec fn obeys_eq_spec() -> bool {
        T::obeys_eq_spec()
    }

    open spec fn eq_spec(&self, other: &Self) -> bool {
        self.value().eq_spec(&other.value())
    }
}

impl<T: PartialOrd> PartialOrd for SharedPtr<T> {
    /// Delegates to ordering on the owned values.
    fn partial_cmp(&self, other: &Self) -> (r: Option<Ordering>)
        ensures
            T::obeys_partial_cmp_spec() ==> r == self.value().partial_cmp_spec(
                &other.value(),
            ),
    {
        (*self.0).partial_cmp(&*other.0)
    }
}

impl<T: PartialOrd> vstd::std_specs::cmp::PartialOrdSpecImpl for SharedPtr<T> {
    open spec fn obeys_partial_cmp_spec() -> bool {
        T::obeys_partial_cmp_spec()
    }

    open spec fn partial_cmp_spec(&self, other: &Self) -> Option<Ordering> {
        self.value().partial_cmp_spec(&other.value())
    }
}

/// Wrapping a value and dereferencing the handle gives that value back:
/// whatever `SharedPtr::new(v)` returns, its `deref` returns `v`.
pub proof fn lemma_new_then_deref<T>(v: T, p: SharedPtr<T>, r: &T)
    requires
        call_ensures(SharedPtr::<T>::new, (v,), p),
        call_ensures(SharedPtr::<T>::deref, (&p,), r),
    ensures
        *r == v,
{
}

/// A cloned handle holds a value equal to the original's; in specifications
/// the clone is the same handle, so no later operation can tell them apart.
pub proof fn lemma_clone_shares_value<T>(p: SharedPtr<T>, q: SharedPtr<T>)
    requires
        call_ensures(<SharedPtr<T> as Clone>::clone, (&p,), q),
    ensures
        q.value() == p.value(),
        q == p,
{
}

/// Equality on handles is exactly equality on the owned values: comparing
/// `p == q` means comparing `p`'s value with `q`'s by `T`'s own equality.
pub proof fn lemma_eq_delegates_to_value<T: PartialEq>(p: &SharedPtr<T>, q: &SharedPtr<T>)
    ensures
        p.eq_spec(q) == p.value().eq_spec(&q.value()),
        SharedPtr::<T>::obeys_eq_spec() == T::obeys_eq_spec(),
{
}

/// Ordering on handles is exactly ordering on the owned values: comparing
/// two handles means comparing their values by `T`'s own ordering.
pub proof fn lemma_ord_delegates_to_value<T: PartialOrd>(p: &SharedPtr<T>, q: &SharedPtr<T>)
    ensures
        p.partial_cmp_spec(q) == p.value().partial_cmp_spec(&q.value()),
        SharedPtr::<T>::obeys_partial_cmp_spec() == T::obeys_partial_cmp_spec(),
{
}

} // verus!

//! The capability that a shared-ownership strategy offers, and the two
//! strategies of the standard library that have it.

use std::ops::Deref;
use std::rc::Rc;
use std::sync::Arc;
use vstd::prelude::*;

verus! {

/// A pointer that shares one value of type `T` among its owners.
///
/// In contracts a pointer stands for the value it holds, [`Shared::value`]:
/// how many owners there are is a fact of the running program that no
/// contract here speaks of. So [`Shared::try_get_mut`] says what holds for
/// either answer, and the caller branches on it.
///
/// Reading and duplicating are methods of the trait itself, beside `Deref`
/// and `Clone`: a contract can be put on these, and none on what `*` and
/// `clone()` do for a pointer type that is not known.
pub trait Shared<T>: Clone + Deref<Target = T> {
    /// The value that the pointer holds.
    spec fn value(&self) -> T;

    /// Makes a pointer that is the only owner of `value`.
    fn new(value: T) -> (res: Self)
        ensures
            res.value() == value,
    ;

    /// Reads the value.
    fn get(this: &Self) -> (res: &T)
        ensures
            *res == this.value(),
    ;

    /// Makes another owner of the same value.
    fn share(this: &Self) -> (res: Self)
        ensures
            res.value() == this.value(),
    ;

    /// Gives exclusive access to the value if `this` is its only owner, and
    /// `None` otherwise.
    ///
    /// With `Some(r)`, `r` starts at the value held, and the pointer ends up
    /// holding what the caller leaves behind `r`. With `None` the pointer is
    /// left as it was.
    fn try_get_mut(this: &mut Self) -> (res: Option<&mut T>)
        ensures
            match res {
                Some(r) => *r == old(this).value() && final(this).value() == *final(r),
                None => *final(this) == *old(this),
            },
    ;
}

/// Calls `Rc::get_mut`, whose contract is taken on trust: it returns a
/// mutable reference into the allocation if no other `Rc` or `Weak` points
/// to it, and `None` otherwise. The reference starts at the value held, and
/// what is written through it is what `this` holds afterwards; on `None`
/// nothing is touched. Which of the two comes back is not stated.
#[verifier::external_body]
fn rc_get_mut<T>(this: &mut Rc<T>) -> (res: Option<&mut T>)
    ensures
        match res {
            Some(r) => *r == **old(this) && **final(this) == *final(r),
            None => *final(this) == *old(this),
        },
{
    Rc::get_mut(this)
}

/// Calls `Arc::get_mut`, whose contract is taken on trust: it returns a
/// mutable reference into the allocation if no other `Arc` or `Weak` points
/// to it, and `None` otherwise. The reference starts at the value held, and
/// what is written through it is what `this` holds afterwards; on `None`
/// nothing is touched. Which of the two comes back is not stated.
#[verifier::external_body]
fn arc_get_mut<T>(this: &mut Arc<T>) -> (res: Option<&mut T>)
    ensures
        match res {
            Some(r) => *r == **old(this) && **final(this) == *final(r),
            None => *final(this) == *old(this),
        },
{
    Arc::get_mut(this)
}

/// Shared ownership within one thread, counted without atomics.
impl<T> Shared<T> for Rc<T> {
    open spec fn value(&self) -> T {
        **self
    }

    fn new(value: T) -> (res: Self) {
        Rc::new(value)
    }

    fn get(this: &Self) -> (res: &T) {
        &**this
    }

    fn share(this: &Self) -> (res: Self) {
        Rc::clone(this)
    }

    fn try_get_mut(this: &mut Self) -> (res: Option<&mut T>) {
        rc_get_mut(this)
    }
}

/// Shared ownership across threads, counted atomically.
impl<T> Shared<T> for Arc<T> {
    open spec fn value(&self) -> T {
        **self
    }

    fn new(value: T) -> (res: Self) {
        Arc::new(value)
    }

    fn get(this: &Self) -> (res: &T) {
        &**this
    }

    fn share(this: &Self) -> (res: Self) {
        Arc::clone(this)
    }

    fn try_get_mut(this: &mut Self) -> (res: Option<&mut T>) {
        arc_get_mut(this)
    }
}

} // verus!

//! The handle: one surface for reading, duplicating and conditionally
//! mutating a shared value, whichever strategy does the sharing.

use crate::strategy::Shared;
use std::marker::PhantomData;
use std::ops::Deref;
use std::rc::Rc;
use std::sync::Arc;
use vstd::prelude::*;

verus! {

/// A handle on a value of type `T` that the strategy `P` shares.
///
/// The handle keeps no state of its own: it holds one pointer of the
/// strategy, [`SharedPtr::strategy`], and hands every operation on to it.
/// Each contract says so, and says what that means for the value that the
/// handle refers to, its view.
pub struct SharedPtr<T, P: Shared<T>> {
    inner: P,
    _marker: PhantomData<T>,
}

/// A handle for use within one thread.
pub type RcPtr<T> = SharedPtr<T, Rc<T>>;

/// A handle that may cross threads.
pub type ArcPtr<T> = SharedPtr<T, Arc<T>>;

impl<T, P: Shared<T>> View for SharedPtr<T, P> {
    type V = T;

    /// The value that the handle refers to.
    open spec fn view(&self) -> T {
        self.strategy().value()
    }
}

impl<T, P: Shared<T>> SharedPtr<T, P> {
    /// The pointer of the strategy that the handle holds.
    pub closed spec fn strategy(&self) -> P {
        self.inner
    }

    /// Wraps `value` in a fresh handle, its only owner.
    pub fn new(value: T) -> (res: Self)
        ensures
            res@ == value,
            call_ensures(P::new, (value,), res.strategy()),
    {
        Self { inner: P::new(value), _marker: PhantomData }
    }

    /// Reads the value.
    pub fn get(&self) -> (res: &T)
        ensures
            *res == self@,
            call_ensures(P::get, (&self.strategy(),), res),
    {
        P::get(&self.inner)
    }

    /// Gives exclusive access to the value if this handle is its only owner,
    /// and `None` while any other handle refers to it.
    ///
    /// The answer is the strategy's, on the pointer that the handle holds.
    /// With `Some(r)`, `r` starts at the value referred to, and the handle
    /// ends up referring to what the caller leaves behind `r`. With `None`
    /// the handle is left as it was.
    pub fn try_get_mut(&mut self) -> (res: Option<&mut T>)
        ensures
            match res {
                Some(r) => *r == old(self)@ && final(self)@ == *final(r),
                None => *final(self) == *old(self),
            },
            exists|this: &mut P|
                *this == old(self).strategy() && *final(this) == final(self).strategy()
                    && #[trigger] call_ensures(P::try_get_mut, (this,), res),
    {
        P::try_get_mut(&mut self.inner)
    }

    /// Makes another handle on the same value, through the strategy.
    pub fn clone(&self) -> (res: Self)
        ensures
            res@ == self@,
            call_ensures(P::share, (&self.strategy(),), res.strategy()),
    {
        Self { inner: P::share(&self.inner), _marker: PhantomData }
    }
}

impl<T, P: Shared<T>> Deref for SharedPtr<T, P> {
    type Target = T;

    /// Reads the value, as `get` does.
    fn deref(&self) -> (res: &T)
        ensures
            *res == self@,
            call_ensures(P::get, (&self.strategy(),), res),
    {
        P::get(&self.inner)
    }
}

/// A handle that was just made from a value reads as that value.
pub proof fn lemma_new_then_get<T, P: Shared<T>>(value: T, h: SharedPtr<T, P>, r: &T)
    requires
        call_ensures(SharedPtr::<T, P>::new, (value,), h),
        call_ensures(SharedPtr::<T, P>::get, (&h,), r),
    ensures
        *r == value,
{
}

/// A handle and its clone read as the same value.
pub proof fn lemma_clone_then_get<T, P: Shared<T>>(
    h1: SharedPtr<T, P>,
    h2: SharedPtr<T, P>,
    r1: &T,
    r2: &T,
)
    requires
        call_ensures(SharedPtr::<T, P>::clone, (&h1,), h2),
        call_ensures(SharedPtr::<T, P>::get, (&h1,), r1),
        call_ensures(SharedPtr::<T, P>::get, (&h2,), r2),
    ensures
        *r1 == *r2,
{
}

/// Where `try_get_mut` gave exclusive access, the handle afterwards reads as
/// what the caller left behind the reference.
pub proof fn lemma_write_then_get<T, P: Shared<T>>(h: &mut SharedPtr<T, P>, m: &mut T, r: &T)
    requires
        call_ensures(SharedPtr::<T, P>::try_get_mut, (h,), Some(m)),
        call_ensures(SharedPtr::<T, P>::get, (final(h),), r),
    ensures
        *r == *final(m),
{
}

/// Where `try_get_mut` gave exclusive access, a clone made afterwards reads
/// as what the caller left behind the reference.
pub proof fn lemma_write_then_clone<T, P: Shared<T>>(
    h: &mut SharedPtr<T, P>,
    m: &mut T,
    c: SharedPtr<T, P>,
    r: &T,
)
    requires
        call_ensures(SharedPtr::<T, P>::try_get_mut, (h,), Some(m)),
        call_ensures(SharedPtr::<T, P>::clone, (final(h),), c),
        call_ensures(SharedPtr::<T, P>::get, (&c,), r),
    ensures
        *r == *final(m),
{
}

/// Where `try_get_mut` refused, the handle reads as it did before.
pub proof fn lemma_refusal_then_get<T, P: Shared<T>>(h: &mut SharedPtr<T, P>, r0: &T, r1: &T)
    requires
        call_ensures(SharedPtr::<T, P>::get, (old(h),), r0),
        call_ensures(SharedPtr::<T, P>::try_get_mut, (h,), None),
        call_ensures(SharedPtr::<T, P>::get, (final(h),), r1),
    ensures
        *r1 == *r0,
{
}

/// Reading through `*` and reading through `get` give the same value.
pub proof fn lemma_deref_is_get<T, P: Shared<T>>(h: SharedPtr<T, P>, r1: &T, r2: &T)
    requires
        call_ensures(SharedPtr::<T, P>::deref, (&h,), r1),
        call_ensures(SharedPtr::<T, P>::get, (&h,), r2),
    ensures
        *r1 == *r2,
{
}

} // verus!

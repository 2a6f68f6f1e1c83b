//! A value cell whose contents are produced at most once per generation:
//! empty until an initializer succeeds, then holding exactly that value
//! until it is taken out, which starts a fresh generation.
//!
//! The cell is verified against its mathematical content, an
//! `Option<T>`: every operation states exactly when the cell is filled,
//! with what, and when an initializer runs. A failed initializer leaves
//! the cell empty rather than filled, so a later call may retry.
//!
//! Filling the cell through a shared reference, with racing initializers
//! blocking on the one-time-initialization word, needs interior
//! mutability over uninitialized storage, which verified code cannot
//! hold; this cell therefore takes `&mut self` for every operation that
//! may fill or empty it, and the exactly-once race arbitration remains
//! with [`crate::once::Once`].

use vstd::prelude::*;

verus! {

/// Whether filling a cell with the given content succeeds: exactly on an
/// empty cell.
pub open spec fn set_succeeds<T>(content: Option<T>, value: T) -> bool {
    content is None
}

/// The content after an attempt to fill the cell: the given value on an
/// empty cell, the present value — intact — on a full one.
pub open spec fn content_after_set<T>(content: Option<T>, value: T) -> Option<T> {
    if content is None {
        Some(value)
    } else {
        content
    }
}

/// The content after taking the value out: empty, whatever was held.
pub open spec fn content_after_take<T>(content: Option<T>) -> Option<T> {
    None
}

/// A cell written at most once per generation.
#[derive(Clone, Debug)]
pub struct OnceLock<T> {
    value: Option<T>,
}

impl<T> View for OnceLock<T> {
    type V = Option<T>;

    closed spec fn view(&self) -> Option<T> {
        self.value
    }
}

impl<T> OnceLock<T> {
    /// A new, empty cell.
    pub fn new() -> (r: OnceLock<T>)
        ensures
            r@ is None,
    {
        OnceLock { value: None }
    }

    /// Whether the cell holds a value.
    pub fn is_initialized(&self) -> (r: bool)
        ensures
            r == (self@ is Some),
    {
        self.value.is_some()
    }

    /// The stored value, which the caller has established is present.
    fn get_unchecked(&self) -> (r: &T)
        requires
            self@ is Some,
        ensures
            *r == self@->0,
    {
        match &self.value {
            Some(v) => v,
            None => vstd::pervasive::unreached(),
        }
    }

    /// A reference to the value, or `None` while the cell is empty.
    pub fn get(&self) -> (r: Option<&T>)
        ensures
            r is Some <==> self@ is Some,
            r is Some ==> *r->0 == self@->0,
    {
        match &self.value {
            Some(v) => Some(v),
            None => None,
        }
    }

    /// A mutable reference to the value, or `None` while the cell is
    /// empty.
    pub fn get_mut(&mut self) -> (r: Option<&mut T>)
        ensures
            old(self)@ is None ==> r is None && final(self)@ is None,
            old(self)@ is Some ==> r is Some && *r.unwrap() == old(self)@->0 && final(self)@
                == Some(*final(r.unwrap())),
    {
        self.value.as_mut()
    }

    /// Fills the cell with `value` if it was empty.
    ///
    /// Returns `Ok(())` exactly when the cell was empty and now holds
    /// `value`; otherwise the cell is unchanged and `value` comes back in
    /// the error.
    pub fn set(&mut self, value: T) -> (r: Result<(), T>)
        ensures
            r is Ok <==> set_succeeds(old(self)@, value),
            final(self)@ == content_after_set(old(self)@, value),
            r is Err ==> r->Err_0 == value,
    {
        if self.value.is_none() {
            self.value = Some(value);
            Ok(())
        } else {
            Err(value)
        }
    }

    /// Fills the cell with `value` if it was empty, and borrows the
    /// contents either way: `Ok` with the just-stored value on an empty
    /// cell, `Err` with the present value and the rejected `value` on a
    /// full one.
    pub fn try_insert(&mut self, value: T) -> (r: Result<&T, (&T, T)>)
        ensures
            old(self)@ is None ==> r is Ok && *r->Ok_0 == value && final(self)@ == Some(value),
            old(self)@ is Some ==> r is Err && *r->Err_0.0 == old(self)@->0 && r->Err_0.1 == value
                && final(self)@ == old(self)@,
    {
        if self.value.is_none() {
            self.value = Some(value);
            Ok(self.get_unchecked())
        } else {
            Err((self.get_unchecked(), value))
        }
    }

    /// The contents, running `f` to produce them if the cell was empty.
    /// The initializer runs exactly on an empty cell, and its result is
    /// stored as the contents.
    pub fn get_or_init<F: FnOnce() -> T>(&mut self, f: F) -> (r: &T)
        requires
            old(self)@ is None ==> call_requires(f, ()),
        ensures
            old(self)@ is Some ==> *r == old(self)@->0 && final(self)@ == old(self)@,
            old(self)@ is None ==> call_ensures(f, (), *r) && final(self)@ == Some(*r),
    {
        if self.value.is_none() {
            self.value = Some(f());
        }
        self.get_unchecked()
    }

    /// Like [`Self::get_or_init`], but hands back a mutable reference to
    /// the contents.
    pub fn get_mut_or_init<F: FnOnce() -> T>(&mut self, f: F) -> (r: &mut T)
        requires
            old(self)@ is None ==> call_requires(f, ()),
        ensures
            old(self)@ is Some ==> *r == old(self)@->0,
            old(self)@ is None ==> call_ensures(f, (), *r),
            final(self)@ == Some(*final(r)),
    {
        if self.value.is_none() {
            self.value = Some(f());
        }
        match &mut self.value {
            Some(v) => v,
            None => vstd::pervasive::unreached(),
        }
    }

    /// Runs the fallible initializer on an empty cell: on `Ok` the cell
    /// holds the produced value, on `Err` it stays empty so that a later
    /// call may retry.
    fn initialize<F: FnOnce() -> Result<T, E>, E>(&mut self, f: F) -> (r: Result<(), E>)
        requires
            old(self)@ is None,
            call_requires(f, ()),
        ensures
            r is Ok ==> final(self)@ is Some && call_ensures(f, (), Ok(final(self)@->0)),
            r is Err ==> final(self)@ is None && call_ensures(f, (), Err(r->Err_0)),
    {
        match f() {
            Ok(value) => {
                self.value = Some(value);
                Ok(())
            },
            Err(e) => Err(e),
        }
    }

    /// The contents, running `f` to produce them if the cell was empty;
    /// `f`'s failure is returned as-is and leaves the cell empty, so a
    /// later call may retry.
    pub fn get_or_try_init<F: FnOnce() -> Result<T, E>, E>(&mut self, f: F) -> (r: Result<&T, E>)
        requires
            old(self)@ is None ==> call_requires(f, ()),
        ensures
            old(self)@ is Some ==> r is Ok && *r->Ok_0 == old(self)@->0 && final(self)@ == old(
                self,
            )@,
            old(self)@ is None && r is Ok ==> call_ensures(f, (), Ok(*r->Ok_0)) && final(self)@
                == Some(*r->Ok_0),
            old(self)@ is None && r is Err ==> call_ensures(f, (), Err(r->Err_0)) && final(self)@
                is None,
    {
        if self.value.is_none() {
            match self.initialize(f) {
                Ok(()) => {
                },
                Err(e) => {
                    return Err(e);
                },
            }
        }
        Ok(self.get_unchecked())
    }

    /// Like [`Self::get_or_try_init`], but hands back a mutable
    /// reference to the contents.
    pub fn get_mut_or_try_init<F: FnOnce() -> Result<T, E>, E>(&mut self, f: F) -> (r: Result<
        &mut T,
        E,
    >)
        requires
            old(self)@ is None ==> call_requires(f, ()),
        ensures
            old(self)@ is Some && r is Ok ==> *r->Ok_0 == old(self)@->0,
            old(self)@ is None && r is Ok ==> call_ensures(f, (), Ok(*r->Ok_0)),
            r is Ok ==> final(self)@ == Some(*final(r->Ok_0)),
            r is Err ==> old(self)@ is None && final(self)@ is None && call_ensures(
                f,
                (),
                Err(r->Err_0),
            ),
    {
        if self.value.is_none() {
            match self.initialize(f) {
                Ok(()) => {
                },
                Err(e) => {
                    return Err(e);
                },
            }
        }
        match &mut self.value {
            Some(v) => Ok(v),
            None => vstd::pervasive::unreached(),
        }
    }

    /// Takes the value out, leaving the cell empty: a fresh generation,
    /// in which an initializer may run again.
    pub fn take(&mut self) -> (r: Option<T>)
        ensures
            r == old(self)@,
            final(self)@ == content_after_take(old(self)@),
    {
        self.value.take()
    }

    /// Consumes the cell, returning its contents.
    pub fn into_inner(self) -> (r: Option<T>)
        ensures
            r == self@,
    {
        self.value
    }
}

/// The cell's round trip, stated over the transition functions its
/// operations are pinned to: a fresh cell reads empty; the first fill
/// succeeds and stores exactly the given value, which every later read
/// returns; a second fill fails and leaves the first value intact; taking
/// the value empties the cell, and a read after that finds it empty
/// again.
pub proof fn lemma_once_lock_round_trip<T>(v: T, w: T)
    ensures
        set_succeeds(Option::<T>::None, v),
        content_after_set(Option::<T>::None, v) == Some(v),
        !set_succeeds(Some(v), w),
        content_after_set(Some(v), w) == Some(v),
        content_after_take(Some(v)) == Option::<T>::None,
        content_after_take(content_after_set(Option::<T>::None, v)) == Option::<T>::None,
{
}

impl<T> core::convert::From<T> for OnceLock<T> {
    /// A new cell with its contents set to `value`.
    fn from(value: T) -> (r: OnceLock<T>) {
        OnceLock { value: Some(value) }
    }
}

impl<T> vstd::std_specs::convert::FromSpecImpl<T> for OnceLock<T> {
    closed spec fn obeys_from_spec() -> bool {
        true
    }

    closed spec fn from_spec(t: T) -> OnceLock<T> {
        OnceLock { value: Some(t) }
    }
}

impl<T> Default for OnceLock<T> {
    /// A new, empty cell.
    fn default() -> (r: OnceLock<T>)
        ensures
            r@ is None,
    {
        OnceLock::new()
    }
}

} // verus!

//! Values which are initialised once, mutually exclusive values and flags.
use vstd::prelude::*;

use core::marker::PhantomData;

verus! {

/// The value isn't initialised. It can be written to but not read from.
pub const UNINIT: u8 = 0;

/// The value is part way through initialising. It can neither be written to nor read from.
pub const INITIALISING: u8 = 1;

/// The value is initialised. It can be read from but not written to.
pub const INIT: u8 = 2;

/// A value of `T` which starts out uninitialised and can be given a value exactly once.
pub struct InitLater<T> {
    value: Option<T>,
    state: u8,
}

impl<T> InitLater<T> {
    #[verifier::type_invariant]
    closed spec fn inv(self) -> bool {
        &&& (self.state == INIT) == (self.value is Some)
        &&& (self.state == UNINIT || self.state == INIT)
    }

    /// The initialisation state: [`UNINIT`] or [`INIT`].
    pub closed spec fn state(&self) -> u8 {
        self.state
    }

    /// The contained value, if it was initialised.
    pub closed spec fn value(&self) -> Option<T> {
        self.value
    }

    /// A cell holds a value exactly when it's initialised.
    pub fn check_inv(&self)
        ensures
            (self.state() == INIT) == (self.value() is Some),
            self.state() == UNINIT || self.state() == INIT,
    {
        proof {
            use_type_invariant(self);
        }
    }

    /// Creates a new uninitialised value.
    pub fn uninit() -> (r: Self)
        ensures
            r.state() == UNINIT,
            r.value() is None,
    {
        InitLater { value: None, state: UNINIT }
    }

    /// What initialising `c0` with `val` does, leaving `c1` and returning `r`: an
    /// uninitialised value takes `val` and gives it back; otherwise nothing changes and
    /// the state is returned as an error.
    pub open spec fn init_outcome(c0: InitLater<T>, c1: InitLater<T>, val: T, r: Result<&T, InitError<T>>) -> bool {
        if c0.state() == UNINIT {
            &&& c1.state() == INIT
            &&& c1.value() == Some(val)
            &&& r matches Ok(v) && *v == val
        } else {
            &&& c1.state() == c0.state()
            &&& c1.value() == c0.value()
            &&& r matches Err(e) && e.err_state() == c0.state()
        }
    }

    /// Tries to initialise the value, returning the stored value on success.
    /// Fails, leaving the value unchanged, if it was already initialised.
    pub fn init(&mut self, val: T) -> (r: Result<&T, InitError<T>>)
        ensures
            Self::init_outcome(*old(self), *final(self), val, r),
    {
        proof {
            use_type_invariant(&*self);
        }
        if self.state == UNINIT {
            *self = InitLater { value: Some(val), state: INIT };
            match &self.value {
                Some(v) => Ok(v),
                None => Err(InitError::new(self.state)),
            }
        } else {
            Err(InitError::new(self.state))
        }
    }

    /// Tries to read the contained value, failing if it isn't initialised.
    pub fn read(&self) -> (r: Result<&T, InitError<T>>)
        ensures
            self.state() == INIT ==> (r matches Ok(v) && self.value() == Some(*v)),
            self.state() != INIT ==> (r matches Err(e) && e.err_state() == self.state()),
    {
        proof {
            use_type_invariant(self);
        }
        match &self.value {
            Some(v) => Ok(v),
            None => Err(InitError::new(self.state)),
        }
    }
}

/// A value is initialised at most once: after a first initialisation, a second one fails
/// and keeps the first value.
pub proof fn lemma_init_once<T>(
    c0: InitLater<T>,
    c1: InitLater<T>,
    c2: InitLater<T>,
    a: T,
    b: T,
    r1: Result<&T, InitError<T>>,
    r2: Result<&T, InitError<T>>,
)
    requires
        c0.state() == UNINIT,
        InitLater::init_outcome(c0, c1, a, r1),
        InitLater::init_outcome(c1, c2, b, r2),
    ensures
        r1 is Ok,
        r2 matches Err(e) && e.err_state() == INIT,
        c2.value() == Some(a),
{
}

/// The error returned from various `InitLater` functions, holding the state it was in.
#[derive(Debug, PartialEq)]
pub struct InitError<T> {
    pub state: u8,
    _marker: PhantomData<T>,
}

impl<T> InitError<T> {
    /// The state the value was in.
    pub closed spec fn err_state(&self) -> u8 {
        self.state
    }

    /// Creates a new error.
    pub fn new(state: u8) -> (r: Self)
        ensures
            r.err_state() == state,
    {
        InitError { state, _marker: PhantomData }
    }

    /// The state the value was in.
    pub fn state(&self) -> (r: u8)
        ensures
            r == self.err_state(),
    {
        self.state
    }

    /// The name of the state the value was in, as used in error messages.
    pub fn state_name(&self) -> (r: &'static str)
        ensures
            self.err_state() == UNINIT ==> r@ == "Uninit"@,
            self.err_state() == INITIALISING ==> r@ == "Initialising"@,
            self.err_state() == INIT ==> r@ == "Initialised"@,
            self.err_state() > INIT ==> r@ == "Unknown"@,
    {
        if self.state == UNINIT {
            "Uninit"
        } else if self.state == INITIALISING {
            "Initialising"
        } else if self.state == INIT {
            "Initialised"
        } else {
            "Unknown"
        }
    }
}

/// A mutually exclusive piece of data only accessible by applying a function on it.
pub struct ExclusiveMap<T> {
    cell: T,
    access: bool,
}

impl<T> ExclusiveMap<T> {
    /// The contained value.
    pub closed spec fn value(&self) -> T {
        self.cell
    }

    /// Whether a call to `map` is in progress.
    pub closed spec fn in_use(&self) -> bool {
        self.access
    }

    /// Creates a new map using `val` as its contained value.
    pub fn new(val: T) -> (r: Self)
        ensures
            r.value() == val,
            !r.in_use(),
    {
        ExclusiveMap { cell: val, access: false }
    }

    /// Applies `f` to the contained value then returns what it returned.
    ///
    /// Returns `None` without calling `f` if another call of `map` is in progress. Otherwise
    /// the result holds what `f` returned, and the value is what `f` left in it.
    pub fn map<R, F: FnOnce(&mut T) -> R>(&mut self, f: F) -> (r: Option<R>)
        requires
            forall|v: &mut T| #[trigger] f.requires((v,)),
        ensures
            old(self).in_use() ==> r is None && final(self).value() == old(self).value(),
            !old(self).in_use() ==> r is Some,
            r is Some ==> exists|m: &mut T, ret: R|
                #[trigger] f.ensures((m,), ret) && r == Some(ret) && *m == old(self).value()
                    && *final(m) == final(self).value(),
            final(self).in_use() == old(self).in_use(),
    {
        if !self.access {
            self.access = true;
            let ret = f(&mut self.cell);
            self.access = false;
            Some(ret)
        } else {
            None
        }
    }
}

/// A boolean flag.
#[derive(Debug)]
pub struct UnsafeFlag {
    val: bool,
}

impl View for UnsafeFlag {
    type V = bool;

    closed spec fn view(&self) -> bool {
        self.val
    }
}

impl UnsafeFlag {
    /// Creates a new flag set to `val`.
    pub fn new(val: bool) -> (r: Self)
        ensures
            r@ == val,
    {
        UnsafeFlag { val }
    }

    /// Returns whether the flag is set or not.
    pub fn load(&self) -> (r: bool)
        ensures
            r == self@,
    {
        self.val
    }

    /// Sets the flag to `val`.
    pub fn store(&mut self, val: bool)
        ensures
            final(self)@ == val,
    {
        self.val = val;
    }
}

} // verus!

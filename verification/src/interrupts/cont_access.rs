//! The continuous access type: a value that may only be accessed outside of interrupt
//! handlers and outside of a running [`ContAccess::btemap`].
use vstd::prelude::*;

verus! {

/// Why a [`ContAccess`] refused an access: the interrupt depth it was accessed at (zero
/// outside of interrupt handlers) and whether it was locked by a running `btemap`.
#[derive(Debug, Clone, Copy, PartialEq, Eq, Structural)]
pub struct BadAccess {
    pub int_depth: u32,
    pub locked: bool,
}

/// The continuous access type: a value with a lock that's set while `btemap` runs.
///
/// It must not be accessed inside an interrupt handler (an interrupt depth other than
/// zero) or while locked; such an access is refused with a [`BadAccess`].
pub struct ContAccess<T> {
    data: T,
    locked: bool,
}

impl<T> ContAccess<T> {
    /// The contained value.
    pub closed spec fn value(&self) -> T {
        self.data
    }

    /// Whether a `btemap` is running on the value.
    pub closed spec fn locked(&self) -> bool {
        self.locked
    }

    /// Creates a new, unlocked value holding `v`.
    pub fn new(v: T) -> (r: ContAccess<T>)
        ensures
            r.value() == v,
            !r.locked(),
    {
        ContAccess { data: v, locked: false }
    }

    /// Checks that the value isn't locked and that we're not in an interrupt handler
    /// (`int_depth` is zero).
    pub fn check_access(&self, int_depth: u32) -> (r: Result<(), BadAccess>)
        ensures
            (!self.locked() && int_depth == 0) <==> r is Ok,
            r matches Err(e) ==> e == (BadAccess { int_depth, locked: self.locked() }),
    {
        if self.locked || int_depth != 0 {
            Err(BadAccess { int_depth, locked: self.locked })
        } else {
            Ok(())
        }
    }

    /// Sets the contained value to `val`, if the access is allowed.
    pub fn write(&mut self, val: T, int_depth: u32) -> (r: Result<(), BadAccess>)
        ensures
            r == old(self).check_access_spec(int_depth),
            r is Ok ==> final(self).value() == val,
            r is Err ==> final(self).value() == old(self).value(),
            final(self).locked() == old(self).locked(),
    {
        match self.check_access(int_depth) {
            Err(e) => Err(e),
            Ok(()) => {
                self.data = val;
                Ok(())
            },
        }
    }

    /// What [`ContAccess::check_access`] returns at `int_depth`.
    pub open spec fn check_access_spec(&self, int_depth: u32) -> Result<(), BadAccess> {
        if self.locked() || int_depth != 0 {
            Err(BadAccess { int_depth, locked: self.locked() })
        } else {
            Ok(())
        }
    }

    /// Runs `f` on the contained value with the value locked, returning its result, if
    /// the access is allowed: the result is what `f` returned and the value is what `f`
    /// left in it.
    pub fn btemap<R, F: FnOnce(&mut T) -> R>(&mut self, int_depth: u32, f: F) -> (r: Result<
        R,
        BadAccess,
    >)
        requires
            forall|v: &mut T| #[trigger] f.requires((v,)),
        ensures
            final(self).locked() == old(self).locked(),
            r is Ok <==> old(self).check_access_spec(int_depth) is Ok,
            r matches Err(e) ==> old(self).check_access_spec(int_depth) == Err::<(), BadAccess>(e)
                && final(self).value() == old(self).value(),
            r is Ok ==> exists|m: &mut T, ret: R|
                #[trigger] f.ensures((m,), ret) && r == Ok::<R, BadAccess>(ret) && *m == old(
                    self,
                ).value() && *final(m) == final(self).value(),
    {
        match self.check_access(int_depth) {
            Err(e) => Err(e),
            Ok(()) => {
                self.locked = true;
                let res = f(&mut self.data);
                self.locked = false;
                Ok(res)
            },
        }
    }
}

impl<T: Copy> ContAccess<T> {
    /// Copies the contained value out, if the access is allowed.
    pub fn copy(&self, int_depth: u32) -> (r: Result<T, BadAccess>)
        ensures
            r is Ok <==> self.check_access_spec(int_depth) is Ok,
            r matches Ok(v) ==> v == self.value(),
            r matches Err(e) ==> self.check_access_spec(int_depth) == Err::<(), BadAccess>(e),
    {
        match self.check_access(int_depth) {
            Err(e) => Err(e),
            Ok(()) => Ok(self.data),
        }
    }
}

} // verus!

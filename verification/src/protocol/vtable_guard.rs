//! The guard of the vtable registration: however often and from wherever the
//! registration is attempted, the native library sees exactly one call.

use vstd::prelude::*;

verus! {

/// The one-time flag that guards the registration of a vtable.
#[derive(Debug)]
pub struct VtableGuard {
    initialized: bool,
}

impl View for VtableGuard {
    type V = bool;

    closed spec fn view(&self) -> bool {
        self.initialized
    }
}

/// Number of registrations that `attempts` attempts make at a guard whose
/// flag is `initialized`.
pub open spec fn registrations(initialized: bool, attempts: nat) -> nat
    decreases attempts,
{
    if attempts == 0 {
        0
    } else if initialized {
        registrations(true, (attempts - 1) as nat)
    } else {
        1 + registrations(true, (attempts - 1) as nat)
    }
}

impl VtableGuard {
    /// The guard of a vtable that is not registered yet.
    pub fn new() -> (guard: Self)
        ensures
            !guard@,
    {
        VtableGuard { initialized: false }
    }

    /// True when the vtable is registered.
    pub fn is_initialized(&self) -> (b: bool)
        ensures
            b == self@,
    {
        self.initialized
    }

    /// One attempt to register: checks and sets the flag in one step. The
    /// answer is `true` for the attempt that has to make the native call,
    /// which is the first one, and `false` for every other.
    pub fn ensure_initialized(&mut self) -> (register: bool)
        ensures
            register == !old(self)@,
            final(self)@,
    {
        let register = !self.initialized;
        self.initialized = true;
        register
    }
}

/// Once the flag is set, no attempt registers.
pub proof fn lemma_registered_stays_registered(attempts: nat)
    ensures
        registrations(true, attempts) == 0,
    decreases attempts,
{
    if attempts > 0 {
        lemma_registered_stays_registered((attempts - 1) as nat);
    }
}

/// Any number of attempts at a new guard, one at least, makes exactly one
/// registration. Two racing attempts are the case `attempts == 2`.
pub proof fn lemma_exactly_one_registration(attempts: nat)
    requires
        attempts >= 1,
    ensures
        registrations(false, attempts) == 1,
{
    lemma_registered_stays_registered((attempts - 1) as nat);
}

} // verus!

//! Scoped access to a contained secret.
//!
//! A guard is the only sanctioned way to read or write a secret held by a
//! container.  Minting one requires exclusive access to the container, so at
//! most one guard is outstanding at a time; while it lives, the container is
//! mutably borrowed and cannot hand out a second one.  The guard cannot
//! outlive the container it borrows from.

use vstd::prelude::*;

use crate::wipe::Zeroize;

verus! {

/// Read-only access to a secret, scoped to the borrow it holds.
#[derive(PartialEq, Eq)]
pub struct SecretGuard<'a, S>
    where S: Zeroize,
{
    /// The borrow of the secret this guard gives access to.
    pub data: &'a S,
}

impl<'a, S: Zeroize> SecretGuard<'a, S> {
    /// The secret value this guard gives access to.
    pub open spec fn secret(&self) -> S {
        *self.data
    }

    /// Create a new SecretGuard instance.
    pub fn new(data: &'a S) -> (g: Self)
        ensures
            g.secret() == *data,
    {
        Self { data }
    }

    /// Read the guarded secret.
    pub fn get(&self) -> (r: &S)
        ensures
            *r == self.secret(),
    {
        self.data
    }
}

/// Read-write access to a secret, scoped to the borrow it holds.  Writes made
/// through the guard land in the borrowed secret once the guard is released.
#[derive(PartialEq, Eq)]
pub struct SecretGuardMut<'a, S>
    where S: Zeroize,
{
    /// The borrow of the secret this guard gives access to.
    pub data: &'a mut S,
}

impl<'a, S: Zeroize> SecretGuardMut<'a, S> {
    /// The secret value this guard currently gives access to.
    pub open spec fn secret(&self) -> S {
        *self.data
    }

    /// Create a new SecretGuardMut instance.
    pub fn new(data: &'a mut S) -> (g: Self)
        ensures
            g.secret() == *old(data),
            *final(data) == *final(g.data),
    {
        Self { data }
    }

    /// Read the guarded secret.
    pub fn get(&self) -> (r: &S)
        ensures
            *r == self.secret(),
    {
        self.data
    }
}

/// Mint a guard that gives scoped access to a contained secret.
///
/// Both methods take the container exclusively, so a second guard cannot be
/// minted while one is alive: the borrow checker rejects it at compile time.
pub trait ExposeSecret<S: Zeroize>: Sized {
    /// The secret the container currently holds.
    spec fn secret_view(&self) -> S;

    /// Expose secret as non-mutable.  The container is left unchanged.
    fn expose_secret(&mut self) -> (g: SecretGuard<'_, S>)
        ensures
            g.secret() == old(self).secret_view(),
            *final(self) == *old(self),
    ;

    /// Expose secret as mutable.  Once the guard is released, the container
    /// holds whatever was last written through it.
    fn expose_secret_mut(&mut self) -> (g: SecretGuardMut<'_, S>)
        ensures
            g.secret() == old(self).secret_view(),
            final(self).secret_view() == *final(g.data),
    ;
}

} // verus!

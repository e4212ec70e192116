//! The secret container.
//!
//! A [`SecretBox`] owns a heap-allocated secret value.  Its contracts pin the
//! stored secret down for every constructor, and the only access paths are the
//! guards minted through [`ExposeSecret`].  The platform half of the design —
//! pinning the allocation's pages, denying access, wiping and unpinning on
//! destruction — is stated by the [`crate::lifecycle`] action plans; the code
//! that performs those plans lives outside the verified library, since it
//! needs raw addresses and platform calls.

use vstd::prelude::*;

use crate::guard::{ExposeSecret, SecretGuard, SecretGuardMut};
use crate::wipe::{CloneableSecret, Zeroize};
use vstd::std_specs::convert::FromSpec;
use vstd::std_specs::convert::FromSpecImpl;

verus! {

/// Wrapper for the inner secret.  Can be exposed by [`ExposeSecret`].
pub struct SecretBox<S: Zeroize> {
    inner_secret: Box<S>,
}

impl<S: Zeroize> SecretBox<S> {
    /// The secret this box currently holds.
    pub closed spec fn secret(&self) -> S {
        *self.inner_secret
    }

    /// Create a secret value using a pre-boxed value.
    pub fn new(boxed_secret: Box<S>) -> (r: Self)
        ensures
            r.secret() == *boxed_secret,
    {
        SecretBox { inner_secret: boxed_secret }
    }
}

impl<S: Zeroize> Zeroize for SecretBox<S> {
    /// The box is wiped exactly when the secret it holds is wiped.
    open spec fn zeroed(&self) -> bool {
        self.secret().zeroed()
    }

    fn zeroize(&mut self) {
        self.inner_secret.zeroize();
    }
}

impl<S: Zeroize + Default> SecretBox<S> {
    /// Create a secret value using a function that initializes the value
    /// starting from the type's default.
    pub fn new_with_mut<F: FnOnce(S) -> S>(ctr: F) -> (r: Self)
        requires
            forall|d: S| #[trigger] S::default.ensures((), d) ==> ctr.requires((d,)),
        ensures
            exists|d: S| #[trigger] S::default.ensures((), d) && ctr.ensures((d,), r.secret()),
    {
        let d = S::default();
        let v = ctr(d);
        Self::new(Box::new(v))
    }
}

impl<S: Zeroize + Clone> SecretBox<S> {
    /// Create a secret value using the provided function as a constructor.
    ///
    /// The locally constructed value is wiped once its clone has moved into
    /// the box, so the plain copy does not linger.
    pub fn new_with_ctr<F: FnOnce() -> S>(ctr: F) -> (r: Self)
        requires
            ctr.requires(()),
        ensures
            exists|v: S| #[trigger] ctr.ensures((), v) && cloned::<S>(v, r.secret()),
    {
        let mut data = ctr();
        let secret = Self::new(Box::new(data.clone()));
        data.zeroize();
        secret
    }

    /// Same as [`Self::new_with_ctr`], but the constructor can be fallible.
    ///
    /// On failure no container is produced and the error is handed back; on
    /// success the locally constructed value is wiped as in
    /// [`Self::new_with_ctr`].
    pub fn try_new_with_ctr<E, F: FnOnce() -> Result<S, E>>(ctr: F) -> (r: Result<Self, E>)
        requires
            ctr.requires(()),
        ensures
            match r {
                Ok(sb) => exists|v: S| #[trigger] ctr.ensures((), Ok(v)) && cloned::<S>(
                    v,
                    sb.secret(),
                ),
                Err(e) => ctr.ensures((), Err(e)),
            },
    {
        match ctr() {
            Ok(mut data) => {
                let secret = Self::new(Box::new(data.clone()));
                data.zeroize();
                Ok(secret)
            },
            Err(e) => Err(e),
        }
    }
}

impl<S: Zeroize + Default> Default for SecretBox<S> {
    /// A box holding the secret type's default value.
    fn default() -> (r: Self)
        ensures
            S::default.ensures((), r.secret()),
    {
        SecretBox::new(Box::<S>::default())
    }
}

impl<S: CloneableSecret> Clone for SecretBox<S> {
    /// Cloning allocates a brand-new container holding a clone of the secret;
    /// the original container is untouched.
    fn clone(&self) -> (r: Self)
        ensures
            cloned::<S>(self.secret(), r.secret()),
    {
        SecretBox::new(self.inner_secret.clone())
    }
}

impl<S: Zeroize> From<Box<S>> for SecretBox<S> {
    fn from(source: Box<S>) -> (r: Self) {
        Self::new(source)
    }
}

impl<S: Zeroize> FromSpecImpl<Box<S>> for SecretBox<S> {
    open spec fn obeys_from_spec() -> bool {
        true
    }

    closed spec fn from_spec(source: Box<S>) -> Self {
        SecretBox { inner_secret: source }
    }
}

/// What conversion from a boxed value yields: the box's value becomes the
/// secret.
pub proof fn lemma_from_boxed<S: Zeroize>(source: Box<S>)
    ensures
        <SecretBox<S> as FromSpec<Box<S>>>::from_spec(source).secret() == *source,
{
}

/// Law (round trip): a value placed in a container and read back through a
/// guard comes back unchanged.  `expose_secret` promises that the guard it
/// mints yields the container's secret, so any guard so minted over a
/// container holding `v` yields exactly `v`.
pub proof fn lemma_expose_round_trip<'a, S: Zeroize>(b: &SecretBox<S>, g: SecretGuard<'a, S>, v: S)
    requires
        b.secret() == v,
        g.secret() == b.secret(),
    ensures
        g.secret() == v,
{
}

impl<S: Zeroize> ExposeSecret<S> for SecretBox<S> {
    open spec fn secret_view(&self) -> S {
        self.secret()
    }

    /// Expose secret as non-mutable.
    fn expose_secret(&mut self) -> (g: SecretGuard<'_, S>) {
        SecretGuard::new(&self.inner_secret)
    }

    /// Expose secret as mutable.
    fn expose_secret_mut(&mut self) -> (g: SecretGuardMut<'_, S>) {
        SecretGuardMut::new(&mut self.inner_secret)
    }
}

} // verus!

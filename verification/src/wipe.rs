//! The wipe capability.
//!
//! A secret type supplies an operation that overwrites its own value with the
//! type's zero in a way the optimizer cannot elide; the container never wipes
//! a secret itself, it only calls this capability at the right points of the
//! lifecycle.  What "wiped" means is stated per type by the `zeroed`
//! predicate, so callers can reason about a value after it has been wiped.
//! The impls for the std types below hand the actual overwrite to the
//! `zeroize` crate, whose volatile writes and optimization barriers are the
//! part of the job that cannot be expressed in safe, verifiable code.

use vstd::prelude::*;

verus! {

/// The wipe capability a secret type must supply.
///
/// `zeroize` overwrites the value with the type's zero; `zeroed` says what a
/// wiped value looks like, so that contracts can speak about the state a
/// container leaves behind.
pub trait Zeroize: Sized {
    /// Holds exactly of the values that `zeroize` may leave behind.
    spec fn zeroed(&self) -> bool;

    /// Overwrite this value with the type's zero.
    fn zeroize(&mut self)
        ensures
            final(self).zeroed(),
    ;
}

/// Marker trait for secrets which are allowed to be cloned.
pub trait CloneableSecret: Clone + Zeroize {

}

/// Relies on `zeroize::Zeroize` for `u8` (through `DefaultIsZeroes`): a
/// volatile write of the default value, zero, followed by an optimization
/// barrier.
#[verifier::external_body]
fn zeroize_u8(x: &mut u8)
    ensures
        *final(x) == 0,
{
    zeroize::Zeroize::zeroize(x)
}

/// Relies on `zeroize::Zeroize` for `u32` (through `DefaultIsZeroes`): a
/// volatile write of zero plus an optimization barrier.
#[verifier::external_body]
fn zeroize_u32(x: &mut u32)
    ensures
        *final(x) == 0,
{
    zeroize::Zeroize::zeroize(x)
}

/// Relies on `zeroize::Zeroize` for `u64` (through `DefaultIsZeroes`): a
/// volatile write of zero plus an optimization barrier.
#[verifier::external_body]
fn zeroize_u64(x: &mut u64)
    ensures
        *final(x) == 0,
{
    zeroize::Zeroize::zeroize(x)
}

/// Relies on `zeroize::Zeroize` for `usize` (through `DefaultIsZeroes`): a
/// volatile write of zero plus an optimization barrier.
#[verifier::external_body]
fn zeroize_usize(x: &mut usize)
    ensures
        *final(x) == 0,
{
    zeroize::Zeroize::zeroize(x)
}

/// Relies on `zeroize::Zeroize` for `i32` (through `DefaultIsZeroes`): a
/// volatile write of zero plus an optimization barrier.
#[verifier::external_body]
fn zeroize_i32(x: &mut i32)
    ensures
        *final(x) == 0,
{
    zeroize::Zeroize::zeroize(x)
}

/// Relies on `zeroize::Zeroize` for `i64` (through `DefaultIsZeroes`): a
/// volatile write of zero plus an optimization barrier.
#[verifier::external_body]
fn zeroize_i64(x: &mut i64)
    ensures
        *final(x) == 0,
{
    zeroize::Zeroize::zeroize(x)
}

/// Relies on `zeroize::Zeroize` for `String`: wipes the byte buffer in place
/// and leaves the string empty.
#[verifier::external_body]
fn zeroize_string(x: &mut String)
    ensures
        final(x)@.len() == 0,
{
    zeroize::Zeroize::zeroize(x)
}

/// Relies on `zeroize::Zeroize` for `Vec<u8>`: zeroes every byte of the
/// vector's full capacity and leaves the vector empty.
#[verifier::external_body]
fn zeroize_vec_u8(x: &mut Vec<u8>)
    ensures
        final(x)@.len() == 0,
{
    zeroize::Zeroize::zeroize(x)
}

impl Zeroize for u8 {
    open spec fn zeroed(&self) -> bool {
        *self == 0
    }

    fn zeroize(&mut self) {
        zeroize_u8(self);
    }
}

impl Zeroize for u32 {
    open spec fn zeroed(&self) -> bool {
        *self == 0
    }

    fn zeroize(&mut self) {
        zeroize_u32(self);
    }
}

impl Zeroize for u64 {
    open spec fn zeroed(&self) -> bool {
        *self == 0
    }

    fn zeroize(&mut self) {
        zeroize_u64(self);
    }
}

impl Zeroize for usize {
    open spec fn zeroed(&self) -> bool {
        *self == 0
    }

    fn zeroize(&mut self) {
        zeroize_usize(self);
    }
}

impl Zeroize for i32 {
    open spec fn zeroed(&self) -> bool {
        *self == 0
    }

    fn zeroize(&mut self) {
        zeroize_i32(self);
    }
}

impl Zeroize for i64 {
    open spec fn zeroed(&self) -> bool {
        *self == 0
    }

    fn zeroize(&mut self) {
        zeroize_i64(self);
    }
}

impl Zeroize for String {
    /// A wiped string holds no characters.
    open spec fn zeroed(&self) -> bool {
        self@.len() == 0
    }

    fn zeroize(&mut self) {
        zeroize_string(self);
    }
}

impl Zeroize for Vec<u8> {
    /// A wiped byte vector holds no bytes; the wipe also zeroes the backing
    /// capacity before emptying it.
    open spec fn zeroed(&self) -> bool {
        self@.len() == 0
    }

    fn zeroize(&mut self) {
        zeroize_vec_u8(self);
    }
}

} // verus!

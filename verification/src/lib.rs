//! In-memory protection for secret values.
//!
//! A [`SecretBox`] owns a heap-allocated secret value.  Access to it goes
//! through scoped guards minted by [`ExposeSecret`]; minting a guard needs
//! exclusive access to the box, so at most one guard is outstanding at a
//! time, and no public operation reads the secret without one.  Wiping is a
//! capability of the secret type itself ([`Zeroize`]); the container only
//! calls it, at the points the lifecycle fixes.
//!
//! The protection of the backing memory is page-granular: [`align_region`]
//! computes the page-aligned address range covering an allocation, and the
//! lifecycle plans ([`construction_plan`], [`expose_plan`], [`release_plan`],
//! [`teardown_plan`]) fix the order in which the platform requests — pin,
//! protect, wipe, unpin — must be issued over a container's life.  The
//! platform layer that owns real addresses walks those plans; every ordering
//! decision is made, and proved, here.

use vstd::prelude::*;

mod guard;
mod lifecycle;
mod region;
mod secret;
mod wipe;

pub use guard::{ExposeSecret, SecretGuard, SecretGuardMut};
pub use lifecycle::{PlatformAction, Protection, RegionStatus};
pub use lifecycle::{construction_plan, expose_plan, release_plan, teardown_plan};
pub use lifecycle::{construction_seq, expose_seq, release_seq, teardown_seq};
pub use lifecycle::{fresh_status, run, step, wipe_count};
pub use lifecycle::{
    lemma_construction_denies, lemma_expose_release_round_trip, lemma_release_denies,
    lemma_teardown_order,
};
pub use region::{align_region, round_down, round_up, Region};
pub use secret::{lemma_expose_round_trip, lemma_from_boxed, SecretBox};
pub use wipe::{CloneableSecret, Zeroize};

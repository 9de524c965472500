//! Lifetime management for native callback closures that are registered with,
//! and invoked from, an external host runtime.
//!
//! A native closure is registered with the host and identified from then on by
//! an opaque [`value::Reference`].  The typed handles in [`handle`] own such a
//! reference, guarantee at most one release, and can either be released
//! (invalidating the registration host-side) or leaked (handing the release
//! decision to the caller).  The host side of the protocol — which invocation
//! attempts are legal for each call-arity class, and what each attempt does to
//! the registration table — is modelled and verified in [`host`].  Argument
//! and result values cross the boundary in the representation of
//! [`value::Value`], through the lossless conversions of [`codec`].

pub mod codec;
pub mod handle;
pub mod host;
pub mod laws;
pub mod value;

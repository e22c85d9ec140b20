//! A verified core for a contact-form mail relay.
//!
//! The library normalizes a contact-form submission into a fully formed
//! outbound email, renders the provider's JSON wire body for it, and maps
//! the provider's delivery outcome to the HTTP status and body returned to
//! the submitter. All of it is pure: the surrounding application performs
//! the network call and hands its result back in.

pub mod deliver;
pub mod normalize;
pub mod text;
pub mod wire;

use vstd::prelude::*;

verus! {

/// A transport-level failure of the single outbound delivery attempt:
/// the request could not complete at all (DNS, TLS, connection, timeout).
pub struct NetworkError;

} // verus!

//! Caching and refresh protocol for the position and predicted ground path
//! of a single orbiting object.
//!
//! Two shared resources are modelled here: the orbital element pair
//! ([`elements::IssTLE`]) and the precomputed path snapshot ([`path::Path`]).
//! Each is an explicit state machine whose staleness policy lives in one
//! place; the caller performs the network fetch and the orbit propagation
//! and hands their outcomes to these types.

pub mod elements;
pub mod path;

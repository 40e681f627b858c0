//! Renders a `decl_storage` definition as a template in the attribute-based
//! pallet syntax.
//!
//! The template is text for an author to finish by hand: wherever the
//! declarative form has no counterpart in the attribute-based one, a marker
//! comment takes its place.

pub mod generics;
pub mod genesis;
pub mod storage;
pub mod template;
pub mod text;
pub mod upgrade;
pub mod visibility;

pub use crate::upgrade::maybe_print_pallet_upgrade;

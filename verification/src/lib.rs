//! Composable references over one shared, lock-guarded root value, and the
//! flock records that an editor keeps behind such a root.
//!
//! A [`root::RootHandle`] owns the root value behind a single lock. A
//! reference narrows a handle, or another reference, by a projection to one
//! part of the root; it holds no pointer into the root, so it stays usable
//! while the root changes or is replaced. Every capability runs a closure
//! against its target through [`business_obj::BusinessObject::exec`], under
//! the root's one lock.
//!
//! What happens inside the locked section is in [`projection`], with exact
//! contracts; the laws that relate the operations are in [`laws`].

pub mod business_obj;
pub mod date;
pub mod error;
pub mod flok;
pub mod form;
pub mod import;
pub mod laws;
pub mod lineage;
pub mod lock;
pub mod projection;
pub mod reference;
pub mod root;
pub mod table;
pub mod text;

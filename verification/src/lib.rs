//! Field-wise transformations of records through their heterogeneous-list form.
//!
//! A record is taken apart into the list of its fields ([`generic`],
//! [`hlist`], [`to_ref`]), the list is walked with a transformation that is
//! chosen per field by the field's type ([`func`], [`mapper`]), and the
//! result is put together into a record of the same shape whose field types
//! follow from the domain it is held in ([`domain`], [`buffer`]).
//!
//! Four record operations are built on this: the presence check
//! ([`presence`]), `build` ([`unwrap`]), and `views` and `arcs`
//! ([`project`]). [`fields`] ties them to a record type, [`array`] holds the
//! arrays that `ndarray` supplies, and [`simulation`] is a record of such
//! arrays.

pub mod hlist;
pub mod generic;
pub mod to_ref;
pub mod func;
pub mod mapper;
pub mod buffer;
pub mod array;
pub mod domain;
pub mod presence;
pub mod unwrap;
pub mod project;
pub mod fields;
pub mod simulation;

pub use crate::domain::Arcd;
pub use crate::domain::Domain;
pub use crate::domain::Owned;
pub use crate::domain::Partial;
pub use crate::domain::View;
pub use crate::fields::ArrayFields;
pub use crate::presence::all_fields_present;
pub use crate::presence::AllFieldsPresent;
pub use crate::project::FieldArcs;
pub use crate::project::FieldViews;
pub use crate::unwrap::UnwrapFields;

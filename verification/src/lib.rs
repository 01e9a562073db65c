//! Discovery and classification of hardware-monitoring sensors exposed by
//! sysfs: parsing attribute file names into typed chip / feature / subfeature
//! entities, resolving bus identity from kernel device-path conventions, and
//! exact rational scale factors for value conversion.
//!
//! The crate itself performs no filesystem access and no floating-point
//! arithmetic: callers gather directory listings, symlink targets and file
//! contents, hand them in as plain values, and receive the classified
//! entities back.

pub mod bus;
pub mod chip;
pub mod context;
pub mod error;
pub mod feature;
pub mod ratio;
pub mod subfeature;
pub mod text;

pub use crate::bus::{Bus, BusAdapter, BusType};
pub use crate::chip::{AttributeEntry, BusInfo, Chip, FeatureIter};
pub use crate::context::Context;
pub use crate::error::Error;
pub use crate::feature::{Feature, FeatureType, SubfeatureIter};
pub use crate::ratio::Ratio;
pub use crate::subfeature::{Subfeature, SubfeatureType};

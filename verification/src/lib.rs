//! Verified core of the SuperNOVAS bindings: error reporting, the enum
//! selectors shared with the C library, C-string preparation, the
//! ephemeris-provider plumbing and the integer side of the hifitime bridge.

pub mod apparent;
pub mod cstring;
pub mod debug;
pub mod eop;
pub mod ephemeris;
pub mod epoch;
pub mod error;
pub mod frame;
pub mod observer;
pub mod refraction;
pub mod source;
pub mod timescale;

pub use apparent::{EquatorType, ReferenceSystem};
pub use debug::DebugMode;
pub use eop::EopSeries;
pub use ephemeris::{AniseEphemeris, Ephemeris, EphemerisProvider};
pub use error::{Error, ProviderErrorSlot, set_provider_error, take_provider_error};
pub use frame::Accuracy;
pub use observer::ObserverPlace;
pub use refraction::Refraction;
pub use source::{CatalogSystem, SolarBody};
pub use timescale::Timescale;

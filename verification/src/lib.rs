//! Declarative GATT services and characteristics.
//!
//! A service or characteristic is described by a small list of annotation
//! arguments (`uuid = "..."`, `flags = ["read", "notify"]`, ...).  The library
//! validates such a list against a fixed schema, selects the capability set a
//! characteristic must expose from its flags, computes hierarchical D-Bus
//! object paths, and drives the child-before-parent registration protocol as a
//! pure state machine.  Publishing objects on the bus and emitting
//! property-changed signals are left to the caller, who performs each
//! requested `BusAction` and feeds the outcome back as a `BusEvent`.

use vstd::prelude::*;

pub mod caps;
pub mod gatt;
pub mod gatt_characteristic;
pub mod gatt_service;
pub mod path;
pub mod registration;
pub mod util;

pub use caps::CapabilitySet;
pub use caps::GenError;
pub use gatt::Characteristic;
pub use gatt::HookError;
pub use gatt::Service;
pub use gatt::SignalEmission;
pub use gatt::gatt_characteristic;
pub use gatt::gatt_service;
pub use gatt_characteristic::GattCharacteristicArgs;
pub use gatt_service::GattServiceArgs;
pub use registration::BusAction;
pub use registration::BusEvent;
pub use registration::RegPhase;
pub use registration::ServiceRegistrar;
pub use util::AnnExpr;
pub use util::AnnKey;
pub use util::AnnValue;
pub use util::ArgValueType;
pub use util::ParseError;

verus! {

} // verus!

//! Characteristics of a HomeKit accessory: typed values that a controller
//! reads and writes as untyped JSON, with their metadata, their read and
//! update hooks, and the change events they give rise to.
//!
//! Executable code is verified against the contracts it carries. The models
//! that the contracts speak of are the `view` of each type.

pub mod characteristic;
pub mod erased;
pub mod error;
pub mod event;
pub mod format;
pub mod hap_type;
pub mod hooks;
pub mod json;
pub mod laws;
pub mod model;
pub mod perm;
pub mod unit;
pub mod value;
pub mod wire;

pub use characteristic::{Characteristic, PendingWrite};
pub use erased::HapCharacteristic;
pub use error::Error;
pub use event::{Event, EventView};
pub use format::Format;
pub use hap_type::HapType;
pub use hooks::{Readable, Reads, Updatable, Updates};
pub use json::{Json, JsonView, Number};
pub use model::{CharacteristicView, ErasedView};
pub use perm::Perm;
pub use unit::Unit;
pub use value::HapValue;
pub use wire::{Field, FieldKind, FieldView};

//! Conversion of a transaction's abstract storage effects into concrete
//! write operations, with slot metadata and resource-group size accounting.

pub mod converter;
pub mod group;
pub mod encoding;
pub mod types;

pub use converter::WriteOpConverter;
pub use group::{GroupChange, GroupWrite};
pub use types::{
    ConversionError, Effect, EffectKind, ExistingMetadata, OpShape, SlotMetadata, WriteOp,
};

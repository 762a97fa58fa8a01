use vstd::prelude::*;

verus! {

/// Per-slot bookkeeping: the deposit paid for the slot's existence and the
/// time (in microseconds) at which the slot was created.
#[derive(Clone, Copy, Debug, PartialEq, Eq, Structural)]
pub struct SlotMetadata {
    pub deposit: u64,
    pub creation_time_usecs: u64,
}

impl SlotMetadata {
    pub fn new(deposit: u64, creation_time_usecs: u64) -> (r: SlotMetadata)
        ensures
            r.deposit == deposit,
            r.creation_time_usecs == creation_time_usecs,
    {
        SlotMetadata { deposit, creation_time_usecs }
    }
}

/// What the state view knows about a slot before the transaction's effects
/// are applied.
#[derive(Clone, Copy, Debug, PartialEq, Eq, Structural)]
pub enum ExistingMetadata {
    /// The slot holds no value.
    NotFound,
    /// The slot holds a value that never had metadata attached.
    Untracked,
    /// The slot holds a value that carries the given metadata.
    WithMetadata(SlotMetadata),
}

/// An abstract storage effect produced by executing a transaction.
#[derive(Clone, Debug)]
pub enum Effect<T> {
    New(T),
    Modify(T),
    Delete,
}

/// The shape of an effect, without its payload.
#[derive(Clone, Copy, Debug, PartialEq, Eq, Structural)]
pub enum EffectKind {
    New,
    Modify,
    Delete,
}

impl<T> Effect<T> {
    pub open spec fn kind(self) -> EffectKind {
        match self {
            Effect::New(_) => EffectKind::New,
            Effect::Modify(_) => EffectKind::Modify,
            Effect::Delete => EffectKind::Delete,
        }
    }
}

/// The shape of a concrete write operation, without payload and metadata.
#[derive(Clone, Copy, Debug, PartialEq, Eq, Structural)]
pub enum OpShape {
    Creation,
    Modification,
    Deletion,
}

/// A concrete, persistable write operation.
#[derive(Clone, Debug, PartialEq, Eq)]
pub enum WriteOp {
    Creation(Vec<u8>),
    Modification(Vec<u8>),
    Deletion,
    CreationWithMetadata { data: Vec<u8>, metadata: SlotMetadata },
    ModificationWithMetadata { data: Vec<u8>, metadata: SlotMetadata },
    DeletionWithMetadata { metadata: SlotMetadata },
}

impl WriteOp {
    pub open spec fn shape(self) -> OpShape {
        match self {
            WriteOp::Creation(_) => OpShape::Creation,
            WriteOp::CreationWithMetadata { .. } => OpShape::Creation,
            WriteOp::Modification(_) => OpShape::Modification,
            WriteOp::ModificationWithMetadata { .. } => OpShape::Modification,
            WriteOp::Deletion => OpShape::Deletion,
            WriteOp::DeletionWithMetadata { .. } => OpShape::Deletion,
        }
    }

    /// The bytes written, absent for a deletion.
    pub open spec fn payload(self) -> Option<Seq<u8>> {
        match self {
            WriteOp::Creation(data) => Some(data@),
            WriteOp::CreationWithMetadata { data, .. } => Some(data@),
            WriteOp::Modification(data) => Some(data@),
            WriteOp::ModificationWithMetadata { data, .. } => Some(data@),
            WriteOp::Deletion => None,
            WriteOp::DeletionWithMetadata { .. } => None,
        }
    }

    pub open spec fn slot_metadata(self) -> Option<SlotMetadata> {
        match self {
            WriteOp::CreationWithMetadata { metadata, .. } => Some(metadata),
            WriteOp::ModificationWithMetadata { metadata, .. } => Some(metadata),
            WriteOp::DeletionWithMetadata { metadata } => Some(metadata),
            _ => None,
        }
    }

    /// The operation has the given shape, payload and metadata.
    pub open spec fn has_parts(self, shape: OpShape, payload: Option<Seq<u8>>, metadata: Option<SlotMetadata>) -> bool {
        &&& self.shape() == shape
        &&& self.payload() == payload
        &&& self.slot_metadata() == metadata
    }

    /// Builds the operation of the given shape over `data` (dropped for a
    /// deletion), annotated with `metadata` when present.
    pub fn from_parts(shape: OpShape, data: Vec<u8>, metadata: Option<SlotMetadata>) -> (r: WriteOp)
        ensures
            r.has_parts(shape, if shape == OpShape::Deletion { None } else { Some(data@) }, metadata),
    {
        match (shape, metadata) {
            (OpShape::Creation, None) => WriteOp::Creation(data),
            (OpShape::Creation, Some(metadata)) => WriteOp::CreationWithMetadata { data, metadata },
            (OpShape::Modification, None) => WriteOp::Modification(data),
            (OpShape::Modification, Some(metadata)) => WriteOp::ModificationWithMetadata { data, metadata },
            (OpShape::Deletion, None) => WriteOp::Deletion,
            (OpShape::Deletion, Some(metadata)) => WriteOp::DeletionWithMetadata { metadata },
        }
    }

    /// The bytes written, if this is not a deletion.
    pub fn bytes(&self) -> (r: Option<&Vec<u8>>)
        ensures
            match r {
                Some(b) => self.payload() == Some(b@),
                None => self.payload() is None,
            },
    {
        match self {
            WriteOp::Creation(data) => Some(data),
            WriteOp::CreationWithMetadata { data, .. } => Some(data),
            WriteOp::Modification(data) => Some(data),
            WriteOp::ModificationWithMetadata { data, .. } => Some(data),
            WriteOp::Deletion => None,
            WriteOp::DeletionWithMetadata { .. } => None,
        }
    }

    /// The metadata carried by the operation, if any.
    pub fn metadata(&self) -> (r: Option<SlotMetadata>)
        ensures
            r == self.slot_metadata(),
    {
        match self {
            WriteOp::CreationWithMetadata { metadata, .. } => Some(*metadata),
            WriteOp::ModificationWithMetadata { metadata, .. } => Some(*metadata),
            WriteOp::DeletionWithMetadata { metadata } => Some(*metadata),
            _ => None,
        }
    }

    /// The same operation with its bytes replaced by `bytes`; a deletion
    /// carries no bytes and is returned unchanged.
    pub fn with_bytes(self, bytes: Vec<u8>) -> (r: WriteOp)
        ensures
            r.shape() == self.shape(),
            r.slot_metadata() == self.slot_metadata(),
            r.payload() == if self.shape() == OpShape::Deletion { None } else { Some(bytes@) },
    {
        match self {
            WriteOp::Creation(_) => WriteOp::Creation(bytes),
            WriteOp::CreationWithMetadata { metadata, .. } => WriteOp::CreationWithMetadata { data: bytes, metadata },
            WriteOp::Modification(_) => WriteOp::Modification(bytes),
            WriteOp::ModificationWithMetadata { metadata, .. } => WriteOp::ModificationWithMetadata { data: bytes, metadata },
            WriteOp::Deletion => WriteOp::Deletion,
            WriteOp::DeletionWithMetadata { metadata } => WriteOp::DeletionWithMetadata { metadata },
        }
    }
}

/// Why a conversion failed.
#[derive(Clone, Copy, Debug, PartialEq, Eq, Structural)]
pub enum ConversionError {
    /// A storage read failed; fatal for the enclosing block.
    StorageError,
    /// The attempt's reads may be stale; the scheduler must re-execute it.
    SpeculativeExecutionAbort,
    /// A size lookup of a resource group failed.
    UnknownInvariantViolation,
    /// A tag of a resource group could not be serialized.
    ValueSerialization,
}

} // verus!
